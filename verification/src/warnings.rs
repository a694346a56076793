//! Warnings: a warn adds one to a member's count; exceeding the chat's limit
//! bans the member (or, in soft mode, kicks it) and starts the count over.
use vstd::prelude::*;
use crate::custom_types::{spec_parse_warn_mode, WarnMode};
use crate::database::{Warn, WarnKind, Warnlimit};
use crate::html::{
    full_name, mention_or_link, spec_full_name, spec_mention_or_link, spec_user_mention,
    user_mention,
};
use crate::model::{Member, MemberStatus, TgUser};
use crate::numparse::{dec, dec_i64, fmt_i64, fmt_u64, parse_u64, spec_parse_u64};
use crate::permissions::{is_user_admin, spec_is_admin, BotConfig};
use crate::text::{spec_to_lowercase, string_of, to_lowercase, views};

verus! {

/// The first checks of `warn_user`: the bot does not warn itself nor an admin.
pub fn warn_precheck(cfg: &BotConfig, bot_id: i64, id: i64, member: &Option<Member>) -> (r: Option<
    String,
>)
    ensures
        id == bot_id ==> (r matches Some(s) && s@
            == "I am not gonna warn myself fella! Try using your brain next time!"@),
        id != bot_id && spec_is_admin(cfg, id, *member) ==> (r matches Some(s) && s@
            == "I am not gonna warn an admin here!"@),
        id != bot_id && !spec_is_admin(cfg, id, *member) ==> r is None,
{
    if id == bot_id {
        return Some(string_of("I am not gonna warn myself fella! Try using your brain next time!"));
    }
    if is_user_admin(cfg, id, member) {
        return Some(string_of("I am not gonna warn an admin here!"));
    }
    None
}

/// What a warn does.
pub enum WarnOutcome {
    /// Only reply.
    Reply(String),
    /// The new count exceeds the limit: ban the member, unban it again in soft mode,
    /// reply, and reset its warns.
    LimitReached { user_id: i64, unban: bool, reply: String },
    /// Store the warn record, and reply with a button that carries `button_data`.
    Warned { record: Warn, reply: String, button_data: String },
}

/// "(count\limit)" as the warn replies write it.
pub open spec fn spec_tally(count: i64, limit: i64) -> Seq<char> {
    "("@ + dec_i64(count) + "\\"@ + dec_i64(limit) + ")"@
}

fn tally(count: i64, limit: i64) -> (r: String)
    ensures
        r@ == spec_tally(count, limit),
{
    let mut out = string_of("(");
    out.append(fmt_i64(count).as_str());
    out.append("\\");
    out.append(fmt_i64(limit).as_str());
    out.append(")");
    out
}

/// The reply when a member's warns exceed the limit.
pub open spec fn spec_limit_text(count: i64, limit: i64, soft: bool) -> Seq<char> {
    "That's it get out "@ + spec_tally(count, limit) + if soft {
        " warns, User has been kicked!"@
    } else {
        " warns, User has been banned!"@
    }
}

/// The reply to a warn that keeps the count within the limit.
pub open spec fn spec_warned_text(user: TgUser, count: i64, limit: i64, reason: Seq<char>) -> Seq<
    char,
> {
    "Warned "@ + spec_mention_or_link(user) + spec_tally(count, limit) + "\nReason:"@ + reason
}

/// The data of the "Remove Warn" button.
pub open spec fn spec_unwarn_button(chat_id: i64, user_id: i64) -> Seq<char> {
    "rm_warn("@ + dec_i64(chat_id) + ","@ + dec_i64(user_id) + ")"@
}

pub fn unwarn_button(chat_id: i64, user_id: i64) -> (r: String)
    ensures
        r@ == spec_unwarn_button(chat_id, user_id),
{
    let mut out = string_of("rm_warn(");
    out.append(fmt_i64(chat_id).as_str());
    out.append(",");
    out.append(fmt_i64(user_id).as_str());
    out.append(")");
    out
}

/// The label of the button that removes a warn.
pub fn unwarn_label() -> (r: String)
    ensures
        r@ == "Remove Warn"@,
{
    string_of("Remove Warn")
}

/// `warn_user` after its first checks, given the member's count of warns,
/// the chat's limit and mode, and the member as read (`None` when it could
/// not be read). The count plus one must fit in `i64`.
pub fn decide_warn(
    chat_id: i64,
    id: i64,
    reason: String,
    count: i64,
    limit: i64,
    soft: bool,
    member: &Option<Member>,
) -> (r: WarnOutcome)
    requires
        count < i64::MAX,
    ensures
        member is None ==> (r matches WarnOutcome::Reply(s) && s@ == "Can't get info about the user"@),
        member matches Some(m) ==> (count + 1 > limit ==> (r matches WarnOutcome::LimitReached {
            user_id,
            unban,
            reply,
        } && user_id == id && unban == soft && reply@ == spec_limit_text(
            (count + 1) as i64,
            limit,
            soft,
        ))),
        member matches Some(m) ==> (count + 1 <= limit ==> (r matches WarnOutcome::Warned {
            record,
            reply,
            button_data,
        } && record.chat_id == chat_id && record.user_id == id && record.reason@ == reason@
            && record.count == ((count + 1) as i64) as u64 && reply@ == spec_warned_text(
            m.user,
            (count + 1) as i64,
            limit,
            reason@,
        ) && button_data@ == spec_unwarn_button(chat_id, id))),
{
    let m = match member {
        None => {
            return WarnOutcome::Reply(string_of("Can't get info about the user"));
        },
        Some(m) => m,
    };
    let next = count + 1;
    if next > limit {
        let mut text = string_of("That's it get out ");
        text.append(tally(next, limit).as_str());
        if soft {
            text.append(" warns, User has been kicked!");
        } else {
            text.append(" warns, User has been banned!");
        }
        return WarnOutcome::LimitReached { user_id: id, unban: soft, reply: text };
    }
    let mut text = string_of("Warned ");
    text.append(mention_or_link(&m.user).as_str());
    text.append(tally(next, limit).as_str());
    text.append("\nReason:");
    text.append(reason.as_str());
    let record = Warn { chat_id, user_id: id, reason, count: next as u64 };
    WarnOutcome::Warned { record, reply: text, button_data: unwarn_button(chat_id, id) }
}

/// What pressing "Remove Warn" does.
pub enum UnwarnOutcome {
    /// The presser is not an admin: nothing.
    Ignore,
    /// Edit the message to say so.
    AlreadyRemoved(String),
    /// Store the count one lower and edit the message to say who removed it.
    Remove { new_count: i64, text: String },
}

/// `handle_unwarn_button`, given the status of the member who pressed it,
/// that member, and the warned member's count. The count minus one must fit.
pub fn decide_unwarn(presser_status: MemberStatus, presser: &TgUser, count: i64) -> (r:
    UnwarnOutcome)
    requires
        count > i64::MIN,
    ensures
        !(presser_status == MemberStatus::Administrator || presser_status == MemberStatus::Creator)
            ==> r is Ignore,
        (presser_status == MemberStatus::Administrator || presser_status == MemberStatus::Creator)
            && count <= 0 ==> (r matches UnwarnOutcome::AlreadyRemoved(s) && s@
            == "Warn is alredy removed"@),
        (presser_status == MemberStatus::Administrator || presser_status == MemberStatus::Creator)
            && count > 0 ==> (r matches UnwarnOutcome::Remove { new_count, text } && new_count
            == count - 1 && text@ == "Warn Removed by "@ + spec_mention_or_link(*presser)),
{
    if !(presser_status == MemberStatus::Administrator || presser_status == MemberStatus::Creator) {
        return UnwarnOutcome::Ignore;
    }
    if count <= 0 {
        return UnwarnOutcome::AlreadyRemoved(string_of("Warn is alredy removed"));
    }
    let mut text = string_of("Warn Removed by ");
    text.append(mention_or_link(presser).as_str());
    UnwarnOutcome::Remove { new_count: count - 1, text }
}

/// A settings command: store the record, then reply; or only reply.
pub enum SettingCmd<R> {
    Reply(String),
    Store { record: R, reply: String },
}

/// `/warnlimit`: the first argument as the chat's new limit.
pub fn decide_warn_limit(chat_id: i64, args: &Vec<String>) -> (r: SettingCmd<Warnlimit>)
    ensures
        args@.len() == 0 ==> (r matches SettingCmd::Reply(s) && s@ == "Send proper warn limit"@),
        args@.len() > 0 && spec_parse_u64(args@[0]@) is None ==> (r matches SettingCmd::Reply(s)
            && s@ == "Send a proper warn limit you idiot!"@),
        args@.len() > 0 ==> (spec_parse_u64(args@[0]@) matches Some(l) ==> (r matches SettingCmd::Store {
            record,
            reply,
        } && record.chat_id == chat_id && record.limit == l && reply@ == "Warn limit set to "@
            + dec(l as nat))),
{
    if args.len() == 0 {
        return SettingCmd::Reply(string_of("Send proper warn limit"));
    }
    match parse_u64(args[0].as_str()) {
        None => SettingCmd::Reply(string_of("Send a proper warn limit you idiot!")),
        Some(l) => {
            let mut reply = string_of("Warn limit set to ");
            reply.append(fmt_u64(l).as_str());
            SettingCmd::Store { record: Warnlimit { chat_id, limit: l }, reply }
        },
    }
}

/// `/warnmode`: soft kicks, hard bans, when the warns exceed the limit.
pub fn decide_warnmode(chat_id: i64, args: &Vec<String>) -> (r: SettingCmd<WarnKind>)
    ensures
        args@.len() == 0 ==> (r matches SettingCmd::Reply(s) && s@
            == "Mention any option! Available one's are (soft/smooth),(hard/strong)"@),
        args@.len() > 0 ==> match spec_parse_warn_mode(spec_to_lowercase(args@[0]@)) {
            WarnMode::Soft => (r matches SettingCmd::Store { record, reply } && record.chat_id
                == chat_id && record.softwarn && reply@
                == "Warnmode is set to soft. Now I will just kick the chat members when their warn exceeds the limit"@),
            WarnMode::Hard => (r matches SettingCmd::Store { record, reply } && record.chat_id
                == chat_id && !record.softwarn && reply@
                == "Warnmode is set to hard. I will ban the chat members when their warn exceeds the limit"@),
            WarnMode::Error => (r matches SettingCmd::Reply(s) && s@
                == "Invalid warnmode available one's are (soft/strong),(strong/hard)"@),
        },
{
    if args.len() == 0 {
        return SettingCmd::Reply(
            string_of("Mention any option! Available one's are (soft/smooth),(hard/strong)"),
        );
    }
    let word = to_lowercase(args[0].as_str());
    match WarnMode::parse(word.as_str()) {
        WarnMode::Soft => SettingCmd::Store {
            record: WarnKind { chat_id, softwarn: true },
            reply: string_of(
                "Warnmode is set to soft. Now I will just kick the chat members when their warn exceeds the limit",
            ),
        },
        WarnMode::Hard => SettingCmd::Store {
            record: WarnKind { chat_id, softwarn: false },
            reply: string_of(
                "Warnmode is set to hard. I will ban the chat members when their warn exceeds the limit",
            ),
        },
        WarnMode::Error => SettingCmd::Reply(
            string_of("Invalid warnmode available one's are (soft/strong),(strong/hard)"),
        ),
    }
}

/// What `/resetwarns` does.
pub enum ResetOutcome {
    Reply(String),
    /// Reset the member's warns, then reply.
    Reset(String),
}

/// `/resetwarns` given the member's count and the member as read.
pub fn decide_reset_warns(count: i64, member: &Option<Member>) -> (r: ResetOutcome)
    ensures
        member is None ==> (r matches ResetOutcome::Reply(s) && s@
            == "This user is not in the chat I can't unwarn him "@),
        member matches Some(m) ==> (count > 0 ==> (r matches ResetOutcome::Reset(s) && s@
            == "Warns has been reset for the user "@ + spec_mention_or_link(m.user))),
        member is Some && count <= 0 ==> (r matches ResetOutcome::Reply(s) && s@
            == "User was not warned even once"@),
{
    match member {
        None => ResetOutcome::Reply(string_of("This user is not in the chat I can't unwarn him ")),
        Some(m) => {
            if count > 0 {
                let mut s = string_of("Warns has been reset for the user ");
                s.append(mention_or_link(&m.user).as_str());
                ResetOutcome::Reset(s)
            } else {
                ResetOutcome::Reply(string_of("User was not warned even once"))
            }
        },
    }
}

/// `/warns` on a chat without a target: the chat's limit.
pub open spec fn spec_chat_limit_text(title: Seq<char>, limit: i64) -> Seq<char> {
    "The chat "@ + title + " has warn limit of "@ + dec_i64(limit)
        + " when the warns exceed the limit the user will be banned from the group"@
}

pub fn chat_limit_text(title: &str, limit: i64) -> (r: String)
    ensures
        r@ == spec_chat_limit_text(title@, limit),
{
    let mut s = string_of("The chat ");
    s.append(title);
    s.append(" has warn limit of ");
    s.append(fmt_i64(limit).as_str());
    s.append(" when the warns exceed the limit the user will be banned from the group");
    s
}

/// `/warns` on a member: its count against the limit.
pub fn member_warns_text(user_id: i64, user: &TgUser, count: i64, limit: i64) -> (r: String)
    ensures
        count <= 0 ==> r@ == "This user got no warnings"@,
        count > 0 ==> r@ == "User "@ + spec_user_mention(user_id, spec_full_name(*user)) + " got "@
            + dec_i64(count) + "/"@ + dec_i64(limit) + " warnings"@,
{
    if count <= 0 {
        return string_of("This user got no warnings");
    }
    let mut s = string_of("User ");
    let n = full_name(user);
    s.append(user_mention(user_id, n.as_str()).as_str());
    s.append(" got ");
    s.append(fmt_i64(count).as_str());
    s.append("/");
    s.append(fmt_i64(limit).as_str());
    s.append(" warnings");
    s
}

/// Removing a warn undoes it: the count a warn within the limit stores, read
/// back as `get_warn_count` reads it and lowered by the "Remove Warn"
/// button, is the count the member had before the warn.
pub proof fn law_unwarn_undoes_warn(count: i64)
    requires
        0 <= count < i64::MAX,
    ensures
        ({
            let stored: u64 = ((count + 1) as i64) as u64;
            let read: i64 = stored as i64;
            read > 0 && read - 1 == count
        }),
{
}

} // verus!
