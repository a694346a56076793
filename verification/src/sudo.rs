//! Commands of the owner and the sudo users: leaving chats, listing them,
//! and global bans, with the switch that lets a chat enforce them.
use vstd::prelude::*;
use crate::custom_types::{spec_parse_switch, Switch};
use crate::database::{Gban, GbanStat};
use crate::extract::{opt_view, Target};
use crate::html::{escape, spec_escape};
use crate::model::{Member, MemberStatus};
use crate::numparse::{dec_i64, fmt_i64, parse_i64, spec_parse_i64};
use crate::permissions::BotConfig;
use crate::text::{spec_to_lowercase, string_of, to_lowercase};

verus! {

/// `/leavechat id`: the chat to leave; an id that is not a number counts as 0.
pub fn leavechat_target(args: &Vec<String>) -> (r: Result<i64, String>)
    ensures
        args@.len() == 0 ==> (r matches Err(s) && s@ == "Mention a chat id to leave"@),
        args@.len() > 0 ==> r == Ok::<i64, String>(
            match spec_parse_i64(args@[0]@) {
                Some(v) => v,
                None => 0,
            },
        ),
{
    if args.len() == 0 {
        return Err(string_of("Mention a chat id to leave"));
    }
    match parse_i64(args[0].as_str()) {
        Some(v) => Ok(v),
        None => Ok(0),
    }
}

/// What `/leavechat` does once the chat was looked up.
pub enum LeaveCmd {
    Reply(String),
    /// Leave the chat, then tell the owner.
    Leave { owner_message: String },
}

/// `chat` is `None` when the chat could not be read, `Some(None)` for a
/// private chat, and `Some(Some(title))` for a group or channel.
pub fn decide_leave(chat: Option<Option<String>>) -> (r: LeaveCmd)
    ensures
        chat is None ==> (r matches LeaveCmd::Reply(s) && s@
            == "Either you gave me a non-valid chat id or I have been kicked from that group"@),
        chat == Some(None::<String>) ==> (r matches LeaveCmd::Reply(s) && s@
            == "The chat id you provided belongs to some user I can only leave groups"@),
        chat matches Some(Some(t)) ==> (r matches LeaveCmd::Leave { owner_message } && owner_message@
            == "I have left <code>"@ + spec_escape(t@) + "</code> boss"@),
{
    match chat {
        None => LeaveCmd::Reply(
            string_of(
                "Either you gave me a non-valid chat id or I have been kicked from that group",
            ),
        ),
        Some(None) => LeaveCmd::Reply(
            string_of("The chat id you provided belongs to some user I can only leave groups"),
        ),
        Some(Some(t)) => {
            let mut s = string_of("I have left <code>");
            s.append(escape(t.as_str()).as_str());
            s.append("</code> boss");
            LeaveCmd::Leave { owner_message: s }
        },
    }
}

/// One line of `/chatlist`.
pub open spec fn chat_line(title: Seq<char>, id: i64) -> Seq<char> {
    "- <code>"@ + title + " : "@ + dec_i64(id) + "</code>\n"@
}

pub open spec fn chat_lines(chats: Seq<(String, i64)>) -> Seq<char>
    decreases chats.len(),
{
    if chats.len() == 0 {
        Seq::empty()
    } else {
        chat_lines(chats.drop_last()) + chat_line(chats.last().0@, chats.last().1)
    }
}

/// `/chatlist`: the groups the bot is in, with their ids.
pub fn chatlist_text(chats: &Vec<(String, i64)>) -> (r: String)
    ensures
        r@ == "The chat id's of the chats I am in \n <code>"@ + chat_lines(chats@) + "</code> "@,
{
    let mut lines = String::new();
    let mut i: usize = 0;
    while i < chats.len()
        invariant
            i <= chats.len(),
            lines@ == chat_lines(chats@.take(i as int)),
        decreases chats.len() - i,
    {
        assert(chats@.take(i + 1).drop_last() == chats@.take(i as int));
        lines.append("- <code>");
        lines.append(chats[i].0.as_str());
        lines.append(" : ");
        lines.append(fmt_i64(chats[i].1).as_str());
        lines.append("</code>\n");
        i = i + 1;
    }
    assert(chats@.take(chats.len() as int) == chats@);
    let mut out = string_of("The chat id's of the chats I am in \n <code>");
    out.append(lines.as_str());
    out.append("</code> ");
    out
}

/// `/gban`: the target and the reason (empty when none is given); the bot,
/// the owner and the sudo users are never banned.
pub fn gban_target(cfg: &BotConfig, bot_id: i64, target: &Target) -> (r: Result<(i64, String), String>)
    ensures
        target.user_id is None ==> (r matches Err(s) && s@ == "Specify someone to gban"@),
        target.user_id matches Some(id) ==> if cfg.spec_is_sudo(id) {
            r matches Err(s) && s@ == "I am not gonna ban a sudo user"@
        } else if id == cfg.owner_id {
            r matches Err(s) && s@ == "I am not gonna gban my owner of all people"@
        } else if id == bot_id {
            r matches Err(s) && s@ == "Haha I am not gonna ban myself fuck off!"@
        } else {
            r matches Ok((uid, reason)) && uid == id && reason@ == match opt_view(target.text) {
                Some(t) => t,
                None => Seq::empty(),
            }
        },
{
    let id = match target.user_id {
        None => {
            return Err(string_of("Specify someone to gban"));
        },
        Some(id) => id,
    };
    if cfg.is_sudo(id) {
        return Err(string_of("I am not gonna ban a sudo user"));
    }
    if id == cfg.owner_id {
        return Err(string_of("I am not gonna gban my owner of all people"));
    }
    if id == bot_id {
        return Err(string_of("Haha I am not gonna ban myself fuck off!"));
    }
    let reason = match &target.text {
        Some(t) => t.clone(),
        None => String::new(),
    };
    Ok((id, reason))
}

/// What `/gban` does once the target is known.
pub enum GbanCmd {
    Reply(String),
    /// The user is banned already: store the new reason, say nothing.
    UpdateReason(Gban),
    /// Say so, store the ban, ban the user in every chat where that is
    /// possible, then edit the message.
    Gban { record: Gban, progress: String, done: String },
}

pub fn decide_gban(user_id: i64, reason: String, already: bool) -> (r: GbanCmd)
    ensures
        already && reason@.len() == 0 ==> (r matches GbanCmd::Reply(s) && s@
            == "This user is already gbanned I would have loved to change the reason for his gban but you haven't given me one"@),
        already && reason@.len() > 0 ==> (r matches GbanCmd::UpdateReason(g) && g.user_id == user_id
            && g.reason@ == reason@),
        !already ==> (r matches GbanCmd::Gban { record, progress, done } && record.user_id == user_id
            && record.reason@ == reason@ && progress@ == "Gbanning the user..."@ && done@
            == "Gbanned the fucker"@),
{
    if already {
        if reason.unicode_len() == 0 {
            return GbanCmd::Reply(
                string_of(
                    "This user is already gbanned I would have loved to change the reason for his gban but you haven't given me one",
                ),
            );
        }
        return GbanCmd::UpdateReason(Gban { user_id, reason });
    }
    GbanCmd::Gban {
        record: Gban { user_id, reason },
        progress: string_of("Gbanning the user..."),
        done: string_of("Gbanned the fucker"),
    }
}

/// Whether the gban sweep bans the user in a chat: only a member that could
/// be read, is neither creator nor administrator, and is not banned already.
pub open spec fn spec_sweep_bans(member: Option<Member>) -> bool {
    match member {
        Some(m) => !m.is_admin_or_creator() && m.status != MemberStatus::Kicked,
        None => false,
    }
}

pub fn sweep_bans(member: &Option<Member>) -> (r: bool)
    ensures
        r == spec_sweep_bans(*member),
{
    match member {
        Some(m) => !m.is_privileged() && m.status != MemberStatus::Kicked,
        None => false,
    }
}

/// `/ungban`: the target, which is never the bot, the owner or a sudo user.
pub fn ungban_target(cfg: &BotConfig, bot_id: i64, target: &Target) -> (r: Result<i64, String>)
    ensures
        target.user_id is None ==> (r matches Err(s) && s@ == "Refer someone to gban"@),
        target.user_id matches Some(id) ==> if cfg.spec_is_sudo(id) {
            r matches Err(s) && s@ == "Pretty sure this user isn't gbanned because he's my sudo user"@
        } else if id == cfg.owner_id {
            r matches Err(s) && s@ == "This user is not gbanned because he's my owner"@
        } else if id == bot_id {
            r matches Err(s) && s@ == "The day I gban myself is the release date of Halflife 3"@
        } else {
            r == Ok::<i64, String>(id)
        },
{
    let id = match target.user_id {
        None => {
            return Err(string_of("Refer someone to gban"));
        },
        Some(id) => id,
    };
    if cfg.is_sudo(id) {
        return Err(string_of("Pretty sure this user isn't gbanned because he's my sudo user"));
    }
    if id == cfg.owner_id {
        return Err(string_of("This user is not gbanned because he's my owner"));
    }
    if id == bot_id {
        return Err(string_of("The day I gban myself is the release date of Halflife 3"));
    }
    Ok(id)
}

/// What `/ungban` does once the target is known.
pub enum UngbanCmd {
    Reply(String),
    /// Remove the gban, say so, unban the user wherever it is banned, then
    /// edit the message.
    Ungban { progress: String, done: String },
}

/// `/ungban` of a target: only a gbanned user is ungbanned.
pub fn decide_ungban(gbanned: bool) -> (r: UngbanCmd)
    ensures
        gbanned ==> (r matches UngbanCmd::Ungban { progress, done } && progress@
            == "Ungbanning the poor fucker"@ && done@ == "Ungban Completed"@),
        !gbanned ==> (r matches UngbanCmd::Reply(s) && s@
            == "Why are you trying to ungban the user who's not even gbanned"@),
{
    if gbanned {
        UngbanCmd::Ungban {
            progress: string_of("Ungbanning the poor fucker"),
            done: string_of("Ungban Completed"),
        }
    } else {
        UngbanCmd::Reply(string_of("Why are you trying to ungban the user who's not even gbanned"))
    }
}

/// Whether the ungban sweep unbans the user in a chat: only where it is
/// banned.
pub open spec fn spec_sweep_unbans(member: Option<Member>) -> bool {
    member matches Some(m) && m.status == MemberStatus::Kicked
}

/// The ungban sweep unbans the user only where it is banned.
pub fn sweep_unbans(member: &Option<Member>) -> (r: bool)
    ensures
        r == spec_sweep_unbans(*member),
{
    match member {
        Some(m) => m.status == MemberStatus::Kicked,
        None => false,
    }
}

/// What `/gbanstat` does.
pub enum GbanStatCmd {
    Reply(String),
    Store { record: GbanStat, reply: String },
}

pub fn decide_gbanstat(chat_id: i64, args: &Vec<String>) -> (r: GbanStatCmd)
    ensures
        args@.len() == 0 ==> (r matches GbanStatCmd::Reply(s) && s@ == "What should I do with this?"@),
        args@.len() > 0 ==> match spec_parse_switch(spec_to_lowercase(args@[0]@)) {
            Switch::On => (r matches GbanStatCmd::Store { record, reply } && record.chat_id == chat_id
                && record.is_on && reply@
                == "I have enabled Gbans for this chat you will be more protected from trolls now"@),
            Switch::Off => (r matches GbanStatCmd::Store { record, reply } && record.chat_id == chat_id
                && !record.is_on && reply@
                == "I have disabled Gbans for this chat you will be less protected from trolls though"@),
            Switch::Error => (r matches GbanStatCmd::Reply(s) && s@
                == "That's an invalid gbanstat input valid one's are (yes/on),(no,off)"@),
        },
{
    if args.len() == 0 {
        return GbanStatCmd::Reply(string_of("What should I do with this?"));
    }
    let word = to_lowercase(args[0].as_str());
    match Switch::parse(word.as_str()) {
        Switch::On => GbanStatCmd::Store {
            record: GbanStat { chat_id, is_on: true },
            reply: string_of(
                "I have enabled Gbans for this chat you will be more protected from trolls now",
            ),
        },
        Switch::Off => GbanStatCmd::Store {
            record: GbanStat { chat_id, is_on: false },
            reply: string_of(
                "I have disabled Gbans for this chat you will be less protected from trolls though",
            ),
        },
        Switch::Error => GbanStatCmd::Reply(
            string_of("That's an invalid gbanstat input valid one's are (yes/on),(no,off)"),
        ),
    }
}

/// `enforce_gban` checks the sender of a message, or else the members that
/// joined with it.
pub fn users_to_check(sender: Option<i64>, joined: &Vec<i64>) -> (r: Vec<i64>)
    ensures
        sender matches Some(id) ==> r@ == seq![id],
        sender is None ==> r@ == joined@,
{
    match sender {
        Some(id) => {
            let mut v = Vec::new();
            v.push(id);
            v
        },
        None => joined.clone(),
    }
}

/// The message when a gbanned user is banned on sight.
pub fn gban_notice() -> (r: String)
    ensures
        r@
            == "This is a Gbanned user trying to sneak inside in my presence. I am banning him right away!"@,
{
    string_of(
        "This is a Gbanned user trying to sneak inside in my presence. I am banning him right away!",
    )
}

/// `check_and_gban`: a gbanned user is banned where the chat enforces gbans.
pub fn gban_applies(gbanned: bool, chat_enforces: bool) -> (r: bool)
    ensures
        r == (gbanned && chat_enforces),
{
    gbanned && chat_enforces
}

/// The global ban sweep bans the user in every chat where its membership
/// can be read and it is a plain, restricted (muted) or departed member; it
/// leaves the creator, administrators and members banned already alone, and
/// skips chats where the membership cannot be read. The ungban sweep unbans
/// exactly where the user is banned, so the two sweeps never both act on
/// one membership.
pub proof fn law_gban_sweeps(m: Member)
    ensures
        m.status == MemberStatus::Member || m.status == MemberStatus::Restricted || m.status
            == MemberStatus::Left ==> spec_sweep_bans(Some(m)),
        m.status == MemberStatus::Creator || m.status == MemberStatus::Administrator || m.status
            == MemberStatus::Kicked ==> !spec_sweep_bans(Some(m)),
        !spec_sweep_bans(None),
        spec_sweep_unbans(Some(m)) <==> m.status == MemberStatus::Kicked,
        !spec_sweep_unbans(None),
        !(spec_sweep_bans(Some(m)) && spec_sweep_unbans(Some(m))),
{
}

} // verus!
