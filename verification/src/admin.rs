//! Pins, promotions and demotions, invite links, the admin list and reports.
use vstd::prelude::*;
use crate::custom_types::{spec_parse_pin_mode, spec_parse_switch, PinMode, Switch};
use crate::database::Reporting;
use crate::extract::{opt_view, SpecTarget, Target};
use crate::html::{
    code_inline, full_name, link, mention_or_link, spec_code_inline, spec_full_name, spec_link,
    spec_mention_or_link, spec_user_mention, user_mention,
};
use crate::model::{Member, MemberStatus, TgUser};
use crate::permissions::BotConfig;
use crate::text::{join, seq_join, spec_to_lowercase, string_of, to_lowercase, views};

verus! {

/// What `/pin` does.
pub enum PinCmd {
    Reply(String),
    /// Pin the message (notifying the members unless `silent`), then reply.
    Pin { message_id: i32, silent: bool, reply: String },
}

/// `/pin [mode]` in reply to the message `message_id` whose address is `url`.
pub fn decide_pin(args: &Vec<String>, replied: Option<(i32, String)>) -> (r: PinCmd)
    ensures
        replied is None ==> (r matches PinCmd::Reply(s) && s@ == "Reply to some message to pin"@),
        replied matches Some((id, url)) ==> ({
            let pinned = spec_link(url@, "this message"@);
            if args@.len() == 0 {
                r matches PinCmd::Pin { message_id, silent, reply } && message_id == id && !silent
                    && reply@ == "Pinned "@ + pinned
            } else {
                match spec_parse_pin_mode(spec_to_lowercase(args@[0]@)) {
                    PinMode::Loud => r matches PinCmd::Pin { message_id, silent, reply }
                        && message_id == id && !silent && reply@ == "Pinned "@ + pinned
                        + " Loudly"@,
                    PinMode::Silent => r matches PinCmd::Pin { message_id, silent, reply }
                        && message_id == id && silent && reply@ == "Pinned "@ + pinned
                        + " Silently"@,
                    PinMode::Error => r matches PinCmd::Reply(s) && s@
                        == "Invalid PinMode! Available pinmodes are loud,hard,violent,silent"@,
                }
            }
        }),
{
    let (id, url) = match replied {
        None => {
            return PinCmd::Reply(string_of("Reply to some message to pin"));
        },
        Some(x) => x,
    };
    let pinned = link(url.as_str(), "this message");
    let mut reply = string_of("Pinned ");
    reply.append(pinned.as_str());
    if args.len() == 0 {
        return PinCmd::Pin { message_id: id, silent: false, reply };
    }
    let word = to_lowercase(args[0].as_str());
    match PinMode::parse(word.as_str()) {
        PinMode::Loud => {
            reply.append(" Loudly");
            PinCmd::Pin { message_id: id, silent: false, reply }
        },
        PinMode::Silent => {
            reply.append(" Silently");
            PinCmd::Pin { message_id: id, silent: true, reply }
        },
        PinMode::Error => PinCmd::Reply(
            string_of("Invalid PinMode! Available pinmodes are loud,hard,violent,silent"),
        ),
    }
}

/// The reply to `/unpin`: for a message replied to (given by its address),
/// or for all pinned messages; `unpinned` tells whether Telegram did it.
pub fn unpin_reply(replied_url: Option<String>, unpinned: bool) -> (r: String)
    ensures
        r@ == match replied_url {
            Some(url) => if unpinned {
                "Unpinned "@ + spec_link(url@, "this message"@)
            } else {
                "The mentioned message was never pinned"@
            },
            None => if unpinned {
                "Unpinned all chat messages"@
            } else {
                "What are you trying to unpin"@
            },
        },
{
    match replied_url {
        Some(url) => {
            if unpinned {
                let mut s = string_of("Unpinned ");
                s.append(link(url.as_str(), "this message").as_str());
                s
            } else {
                string_of("The mentioned message was never pinned")
            }
        },
        None => {
            if unpinned {
                string_of("Unpinned all chat messages")
            } else {
                string_of("What are you trying to unpin")
            }
        },
    }
}

/// The admin rights a promotion grants.
#[derive(PartialEq, Eq, Structural, Clone, Copy, Debug)]
pub struct AdminRights {
    pub can_manage_chat: bool,
    pub can_change_info: bool,
    pub can_delete_messages: bool,
    pub can_invite_users: bool,
    pub can_restrict_members: bool,
    pub can_pin_messages: bool,
}

/// The rights the bot itself holds, which a promotion hands on.
pub open spec fn rights_of(bot: Member) -> AdminRights {
    AdminRights {
        can_manage_chat: bot.can_manage_chat,
        can_change_info: bot.can_change_info,
        can_delete_messages: bot.can_delete_messages,
        can_invite_users: bot.can_invite_users,
        can_restrict_members: bot.can_restrict_members,
        can_pin_messages: bot.can_pin_messages,
    }
}

/// What `/promote` does.
pub enum PromoteCmd {
    Reply(String),
    /// Promote with these rights, set the custom title if any, then reply.
    Promote { user_id: i64, rights: AdminRights, title: Option<String>, reply: String },
}

/// `/promote`: the target gets the bot's own rights (and the text after it
/// as its title); the creator and admins the bot may not edit are refused.
pub fn decide_promote(target: &Target, bot: &Member, member: &Option<Member>) -> (r: PromoteCmd)
    ensures
        target.user_id is None ==> (r matches PromoteCmd::Reply(s) && s@
            == "Mention someone to promote"@),
        target.user_id matches Some(id) ==> match member {
            None => (r matches PromoteCmd::Reply(s) && s@
                == "Who are you trying to promote? He is not even in the group"@),
            Some(m) => if m.status == MemberStatus::Creator {
                r matches PromoteCmd::Reply(s) && s@ == "Mate the user is the creator of the group"@
            } else if m.status == MemberStatus::Administrator && !m.can_be_edited {
                r matches PromoteCmd::Reply(s) && s@
                    == "I dont have enough rights to update the user's permissons!"@
            } else {
                r matches PromoteCmd::Promote { user_id, rights, title, reply } && user_id == id
                    && rights == rights_of(*bot) && opt_view(title) == opt_view(target.text)
                    && reply@ == if m.status == MemberStatus::Administrator {
                    "Admin Permissions has been updated for\n <b>User:</b>"@ + spec_mention_or_link(
                        m.user,
                    )
                } else {
                    "Promoted\n<b>User:</b>"@ + spec_mention_or_link(m.user)
                }
            },
        },
{
    let id = match target.user_id {
        None => {
            return PromoteCmd::Reply(string_of("Mention someone to promote"));
        },
        Some(id) => id,
    };
    let m = match member {
        None => {
            return PromoteCmd::Reply(
                string_of("Who are you trying to promote? He is not even in the group"),
            );
        },
        Some(m) => m,
    };
    if m.status == MemberStatus::Creator {
        return PromoteCmd::Reply(string_of("Mate the user is the creator of the group"));
    }
    let reply = if m.status == MemberStatus::Administrator {
        if !m.can_be_edited {
            return PromoteCmd::Reply(
                string_of("I dont have enough rights to update the user's permissons!"),
            );
        }
        let mut s = string_of("Admin Permissions has been updated for\n <b>User:</b>");
        s.append(mention_or_link(&m.user).as_str());
        s
    } else {
        let mut s = string_of("Promoted\n<b>User:</b>");
        s.append(mention_or_link(&m.user).as_str());
        s
    };
    let rights = AdminRights {
        can_manage_chat: bot.can_manage_chat,
        can_change_info: bot.can_change_info,
        can_delete_messages: bot.can_delete_messages,
        can_invite_users: bot.can_invite_users,
        can_restrict_members: bot.can_restrict_members,
        can_pin_messages: bot.can_pin_messages,
    };
    PromoteCmd::Promote { user_id: id, rights, title: target.text.clone(), reply }
}

/// What `/demote` does.
pub enum DemoteCmd {
    Reply(String),
    /// Take every admin right away, then reply.
    Demote { user_id: i64, reply: String },
}

/// `/demote`: only an administrator the bot may edit, who is neither the
/// owner nor a sudo user, loses its rights.
pub fn decide_demote(cfg: &BotConfig, target: &Target, member: &Option<Member>) -> (r: DemoteCmd)
    ensures
        target.user_id is None ==> (r matches DemoteCmd::Reply(s) && s@ == "Mention a user to demote"@),
        target.user_id matches Some(id) ==> if cfg.spec_privileged(id) {
            r matches DemoteCmd::Reply(s) && s@
                == "I can't kick the people who created me! I got loyalty"@
        } else {
            match member {
                None => r matches DemoteCmd::Reply(s) && s@ == "Who are you trying demote?"@,
                Some(m) => if m.status == MemberStatus::Creator {
                    r matches DemoteCmd::Reply(s) && s@
                        == "This user is the Creator of the group, How can I possibly demote them"@
                } else if m.status != MemberStatus::Administrator {
                    r matches DemoteCmd::Reply(s) && s@
                        == "The user has to admin in the first place to demote"@
                } else if !m.can_be_edited {
                    r matches DemoteCmd::Reply(s) && s@
                        == "I don't seem to have enough rights to demote this user"@
                } else {
                    r matches DemoteCmd::Demote { user_id, reply } && user_id == id && reply@
                        == "Demoted Successfully\n<b>User:</b>"@ + spec_mention_or_link(m.user)
                },
            }
        },
{
    let id = match target.user_id {
        None => {
            return DemoteCmd::Reply(string_of("Mention a user to demote"));
        },
        Some(id) => id,
    };
    if cfg.is_privileged(id) {
        return DemoteCmd::Reply(string_of("I can't kick the people who created me! I got loyalty"));
    }
    let m = match member {
        None => {
            return DemoteCmd::Reply(string_of("Who are you trying demote?"));
        },
        Some(m) => m,
    };
    if m.status == MemberStatus::Creator {
        return DemoteCmd::Reply(
            string_of("This user is the Creator of the group, How can I possibly demote them"),
        );
    }
    if m.status != MemberStatus::Administrator {
        return DemoteCmd::Reply(string_of("The user has to admin in the first place to demote"));
    }
    if !m.can_be_edited {
        return DemoteCmd::Reply(string_of("I don't seem to have enough rights to demote this user"));
    }
    let mut s = string_of("Demoted Successfully\n<b>User:</b>");
    s.append(mention_or_link(&m.user).as_str());
    DemoteCmd::Demote { user_id: id, reply: s }
}

/// What `/invitelink` does.
pub enum InviteCmd {
    Reply(String),
    /// Ask Telegram to create a link.
    Export,
}

/// `/invitelink`: the chat's link if it has one; in a group without one the
/// bot creates one.
pub fn decide_invitelink(is_public: bool, link: &Option<String>) -> (r: InviteCmd)
    ensures
        !is_public ==> (r matches InviteCmd::Reply(s) && s@
            == "I can only create invite links for chats or channels"@),
        is_public ==> match link {
            Some(l) => r matches InviteCmd::Reply(s) && s@
                == "<b>Here's the invite link of the chat</b>\n"@ + l@,
            None => r is Export,
        },
{
    if !is_public {
        return InviteCmd::Reply(string_of("I can only create invite links for chats or channels"));
    }
    match link {
        Some(l) => {
            let mut s = string_of("<b>Here's the invite link of the chat</b>\n");
            s.append(l.as_str());
            InviteCmd::Reply(s)
        },
        None => InviteCmd::Export,
    }
}

/// The reply once the bot tried to create a link.
pub fn exported_link_reply(created: Option<String>) -> (r: String)
    ensures
        r@ == match created {
            Some(l) => "<b>The invitelink was empty so I have created one for this chat</b>\n"@
                + l@,
            None => "I don't have enough rights to access the invite link"@,
        },
{
    match created {
        Some(l) => {
            let mut s = string_of(
                "<b>The invitelink was empty so I have created one for this chat</b>\n",
            );
            s.append(l.as_str());
            s
        },
        None => string_of("I don't have enough rights to access the invite link"),
    }
}

/// One line of the admin list.
pub open spec fn admin_line(u: TgUser) -> Seq<char> {
    "- "@ + spec_user_mention(u.id, spec_full_name(u))
}

/// `/adminlist`: each admin mentioned on a line of its own.
pub fn adminlist_text(admins: &Vec<TgUser>) -> (r: String)
    ensures
        r@ == "<b>Admin's in this group:</b>\n"@ + seq_join(
            admins@.map_values(|u: TgUser| admin_line(u)),
            "\n"@,
        ),
{
    let mut lines: Vec<String> = Vec::new();
    let mut i: usize = 0;
    while i < admins.len()
        invariant
            i <= admins.len(),
            views(lines@) == admins@.take(i as int).map_values(|u: TgUser| admin_line(u)),
        decreases admins.len() - i,
    {
        let mut s = string_of("- ");
        let n = full_name(&admins[i]);
        s.append(user_mention(admins[i].id, n.as_str()).as_str());
        let ghost old_lines = lines@;
        lines.push(s);
        assert(admins@.take(i + 1).map_values(|u: TgUser| admin_line(u)) == admins@.take(
            i as int,
        ).map_values(|u: TgUser| admin_line(u)).push(admin_line(admins@[i as int])));
        assert(views(lines@) == views(old_lines).push(lines@[i as int]@));
        i = i + 1;
    }
    assert(admins@.take(admins.len() as int) == admins@);
    let mut out = string_of("<b>Admin's in this group:</b>\n");
    out.append(join(&lines, "\n").as_str());
    out
}

/// What `/reports` does.
pub enum ReportSetCmd {
    Reply(String),
    /// Store the setting, then reply.
    Store { record: Reporting, reply: String },
}

/// `/reports on|off`. Both answers say that reporting is on, as the bot has
/// always said.
pub fn decide_report_set(chat_id: i64, args: &Vec<String>) -> (r: ReportSetCmd)
    ensures
        args@.len() == 0 ==> (r matches ReportSetCmd::Reply(s) && s@ == "Invalid option!\nUsage: "@
            + spec_code_inline("/reports on/off/yes/no"@)),
        args@.len() > 0 ==> match spec_parse_switch(spec_to_lowercase(args@[0]@)) {
            Switch::On => (r matches ReportSetCmd::Store { record, reply } && record.chat_id == chat_id
                && record.allowed && reply@
                == "Reporting has been turned on for this chat now user's can report any users by sending /report"@),
            Switch::Off => (r matches ReportSetCmd::Store { record, reply } && record.chat_id == chat_id
                && !record.allowed && reply@
                == "Reporting has been turned on for this chat now user's can report any users by sending /report"@),
            Switch::Error => (r matches ReportSetCmd::Reply(s) && s@ == "Invalid option!\nUsage: "@
                + spec_code_inline("/reports on/off"@)),
        },
{
    if args.len() == 0 {
        let mut s = string_of("Invalid option!\nUsage: ");
        s.append(code_inline("/reports on/off/yes/no").as_str());
        return ReportSetCmd::Reply(s);
    }
    let word = to_lowercase(args[0].as_str());
    match Switch::parse(word.as_str()) {
        Switch::On => ReportSetCmd::Store {
            record: Reporting { chat_id, allowed: true },
            reply: string_of(
                "Reporting has been turned on for this chat now user's can report any users by sending /report",
            ),
        },
        Switch::Off => ReportSetCmd::Store {
            record: Reporting { chat_id, allowed: false },
            reply: string_of(
                "Reporting has been turned on for this chat now user's can report any users by sending /report",
            ),
        },
        Switch::Error => {
            let mut s = string_of("Invalid option!\nUsage: ");
            s.append(code_inline("/reports on/off").as_str());
            ReportSetCmd::Reply(s)
        },
    }
}

/// What `/report` does.
pub enum ReportCmd {
    Ignore,
    Reply(String),
    /// Forward the message and the report to the admins.
    Report,
}

/// `/report` in reply to a message of `culprit`: refused for the bot and
/// for oneself; admins are not reported.
pub fn decide_report(bot_id: i64, sender_id: i64, culprit_id: i64, culprit_is_admin: bool) -> (r:
    ReportCmd)
    ensures
        culprit_id == bot_id ==> (r matches ReportCmd::Reply(s) && s@
            == "I am not reporting myself you cretin"@),
        culprit_id != bot_id && culprit_id == sender_id ==> (r matches ReportCmd::Reply(s) && s@
            == "Why are you reporting yourself"@),
        culprit_id != bot_id && culprit_id != sender_id && culprit_is_admin ==> r is Ignore,
        culprit_id != bot_id && culprit_id != sender_id && !culprit_is_admin ==> r is Report,
{
    if culprit_id == bot_id {
        return ReportCmd::Reply(string_of("I am not reporting myself you cretin"));
    }
    if culprit_id == sender_id {
        return ReportCmd::Reply(string_of("Why are you reporting yourself"));
    }
    if culprit_is_admin {
        return ReportCmd::Ignore;
    }
    ReportCmd::Report
}

/// The admins a report goes to: those that are not bots, in order.
pub open spec fn spec_report_recipients(admins: Seq<TgUser>) -> Seq<i64>
    decreases admins.len(),
{
    if admins.len() == 0 {
        Seq::empty()
    } else {
        let rest = spec_report_recipients(admins.drop_last());
        if admins.last().is_bot {
            rest
        } else {
            rest.push(admins.last().id)
        }
    }
}

pub fn report_recipients(admins: &Vec<TgUser>) -> (r: Vec<i64>)
    ensures
        r@ == spec_report_recipients(admins@),
{
    let mut out: Vec<i64> = Vec::new();
    let mut i: usize = 0;
    while i < admins.len()
        invariant
            i <= admins.len(),
            out@ == spec_report_recipients(admins@.take(i as int)),
        decreases admins.len() - i,
    {
        assert(admins@.take(i + 1).drop_last() == admins@.take(i as int));
        if !admins[i].is_bot {
            out.push(admins[i].id);
        }
        i = i + 1;
    }
    assert(admins@.take(admins.len() as int) == admins@);
    out
}

/// The report the admins get.
pub open spec fn spec_report_text(title: Seq<char>, url: Seq<char>, culprit: TgUser, sender: TgUser) -> Seq<char> {
    "Chat Title: "@ + spec_code_inline(title) + "\nReport Message: "@ + spec_link(
        url,
        "this message"@,
    ) + "\nUser: "@ + spec_user_mention(culprit.id, spec_full_name(culprit))
        + "\nReported User: "@ + spec_user_mention(sender.id, spec_full_name(sender))
}

pub fn report_text(title: &str, url: &str, culprit: &TgUser, sender: &TgUser) -> (r: String)
    ensures
        r@ == spec_report_text(title@, url@, *culprit, *sender),
{
    let mut s = string_of("Chat Title: ");
    s.append(code_inline(title).as_str());
    s.append("\nReport Message: ");
    s.append(link(url, "this message").as_str());
    s.append("\nUser: ");
    let cn = full_name(culprit);
    s.append(user_mention(culprit.id, cn.as_str()).as_str());
    s.append("\nReported User: ");
    let sn = full_name(sender);
    s.append(user_mention(sender.id, sn.as_str()).as_str());
    s
}

/// The reply once a member is reported.
pub fn reported_reply(culprit: &TgUser) -> (r: String)
    ensures
        r@ == "Reported "@ + spec_user_mention(culprit.id, spec_full_name(*culprit)) + " to admins"@,
{
    let mut s = string_of("Reported ");
    let n = full_name(culprit);
    s.append(user_mention(culprit.id, n.as_str()).as_str());
    s.append(" to admins");
    s
}

/// A report reaches exactly the human admins: every recipient is the id of
/// an admin that is not a bot, and every admin that is not a bot receives
/// it.
pub proof fn law_report_reaches_human_admins(admins: Seq<TgUser>)
    ensures
        forall|k: int|
            0 <= k < spec_report_recipients(admins).len() ==> exists|j: int|
                0 <= j < admins.len() && !admins[j].is_bot && admins[j].id
                    == #[trigger] spec_report_recipients(admins)[k],
        forall|j: int|
            0 <= j < admins.len() && !(#[trigger] admins[j]).is_bot
                ==> spec_report_recipients(admins).contains(admins[j].id),
    decreases admins.len(),
{
    if admins.len() > 0 {
        let init = admins.drop_last();
        law_report_reaches_human_admins(init);
        let rest = spec_report_recipients(init);
        let all = spec_report_recipients(admins);
        assert forall|k: int| 0 <= k < all.len() implies exists|j: int|
            0 <= j < admins.len() && !admins[j].is_bot && admins[j].id == #[trigger] all[k] by {
            if k < rest.len() {
                let j = choose|j: int| 0 <= j < init.len() && !init[j].is_bot && init[j].id == rest[k];
                assert(admins[j] == init[j]);
            } else {
                assert(admins[admins.len() - 1] == admins.last());
            }
        }
        assert forall|j: int| 0 <= j < admins.len() && !(#[trigger] admins[j]).is_bot implies all.contains(
            admins[j].id,
        ) by {
            if j < admins.len() - 1 {
                assert(init[j] == admins[j]);
                assert(rest.contains(admins[j].id));
                let k = choose|k: int| 0 <= k < rest.len() && rest[k] == admins[j].id;
                if !admins.last().is_bot {
                    assert(all[k] == rest[k]);
                }
            } else {
                assert(all[all.len() - 1] == admins[j].id);
            }
        }
    }
}

} // verus!
