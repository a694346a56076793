//! Bans, kicks, mutes and their undoing: which target a command may act on,
//! what it does to it, and what the bot replies and logs.
use vstd::prelude::*;
use crate::custom_types::{checked_time, spec_parse_time, TimeUnit};
use crate::extract::{opt_view, SpecTarget, Target};
use crate::html::{
    code_inline, full_name, mention_or_link, spec_code_inline, spec_full_name,
    spec_mention_or_link, spec_user_mention, user_mention,
};
use crate::model::{Member, MemberStatus, TgUser};
use crate::permissions::BotConfig;
use crate::text::string_of;

verus! {

/// What a moderation command does.
pub enum ModAction {
    /// Only reply.
    Reply(String),
    /// Ban the user (until the given time, if any), then reply.
    Ban { user_id: i64, until: Option<u64>, reply: String },
    /// Ban and at once unban the user, then reply.
    Kick { user_id: i64, reply: String },
    /// Take every right to send away from the user (until the given time,
    /// if any), then reply.
    Restrict { user_id: i64, until: Option<u64>, reply: String },
    /// Lift a ban, then reply.
    Unban { user_id: i64, reply: String },
    /// Give the user back the rights to send, then reply.
    Unrestrict { user_id: i64, reply: String },
    /// The time of a temporary ban or mute does not fit in `u64`; the
    /// arithmetic overflows.
    TimeOverflow,
}

/// A moderation action as values.
pub enum ModActionV {
    Reply(Seq<char>),
    Ban(i64, Option<u64>, Seq<char>),
    Kick(i64, Seq<char>),
    Restrict(i64, Option<u64>, Seq<char>),
    Unban(i64, Seq<char>),
    Unrestrict(i64, Seq<char>),
    TimeOverflow,
}

impl ModAction {
    pub open spec fn view(&self) -> ModActionV {
        match self {
            ModAction::Reply(s) => ModActionV::Reply(s@),
            ModAction::Ban { user_id, until, reply } => ModActionV::Ban(*user_id, *until, reply@),
            ModAction::Kick { user_id, reply } => ModActionV::Kick(*user_id, reply@),
            ModAction::Restrict { user_id, until, reply } => ModActionV::Restrict(
                *user_id,
                *until,
                reply@,
            ),
            ModAction::Unban { user_id, reply } => ModActionV::Unban(*user_id, reply@),
            ModAction::Unrestrict { user_id, reply } => ModActionV::Unrestrict(*user_id, reply@),
            ModAction::TimeOverflow => ModActionV::TimeOverflow,
        }
    }
}

/// The reason given, or "None".
pub open spec fn reason_or_none(text: Option<Seq<char>>) -> Seq<char> {
    match text {
        Some(t) => t,
        None => "None"@,
    }
}

fn reason_text(text: &Option<String>) -> (r: String)
    ensures
        r@ == reason_or_none(opt_view(*text)),
{
    match text {
        Some(t) => t.clone(),
        None => string_of("None"),
    }
}

/// The reply of a ban, kick or mute: what was done, to whom, and why.
pub open spec fn spec_action_text(what: Seq<char>, user: TgUser, reason: Seq<char>) -> Seq<char> {
    "<b>"@ + what + "</b>\n<b>User:</b>"@ + spec_mention_or_link(user) + "\n\n<i>Reason:</i> "@
        + reason
}

fn action_text(what: &str, user: &TgUser, reason: &String) -> (r: String)
    ensures
        r@ == spec_action_text(what@, *user, reason@),
{
    let mut out = string_of("<b>");
    out.append(what);
    out.append("</b>\n<b>User:</b>");
    let m = mention_or_link(user);
    out.append(m.as_str());
    out.append("\n\n<i>Reason:</i> ");
    out.append(reason.as_str());
    out
}

/// The reply after a temporary ban or mute.
pub open spec fn spec_timed_text(what: Seq<char>, span: TimeUnit) -> Seq<char> {
    "<b>"@ + what + " for <i>"@ + span.spec_text() + "</i></b> "@
}

fn timed_text(what: &str, span: &TimeUnit) -> (r: String)
    ensures
        r@ == spec_timed_text(what@, *span),
{
    let mut out = string_of("<b>");
    out.append(what);
    out.append(" for <i>");
    let t = span.text();
    out.append(t.as_str());
    out.append("</i></b> ");
    out
}

pub open spec fn reply(s: Seq<char>) -> ModActionV {
    ModActionV::Reply(s)
}

/// `/ban`: refuses when there is no target, when the target is the bot, the
/// owner or a sudo user, when its membership cannot be read, when it is
/// already banned, or when it is an admin the bot may not edit; else bans it.
pub open spec fn spec_ban(cfg: &BotConfig, bot_id: i64, target: SpecTarget, member: Option<Member>) -> ModActionV {
    match target.user_id {
        None => reply("No user was targeted"@),
        Some(id) => if id == bot_id {
            reply("I am not gonna ban myself fella! Try using your brain next time!"@)
        } else if cfg.spec_privileged(id) {
            reply("I am not gonna ban my owner or my sudo users"@)
        } else {
            match member {
                None => reply("I can't seem to get info for this user"@),
                Some(m) => if m.status == MemberStatus::Kicked {
                    reply("This user is already banned here!"@)
                } else if m.spec_protected_admin() {
                    reply("I am not gonna ban an Admin Here!"@)
                } else {
                    ModActionV::Ban(
                        id,
                        None,
                        spec_action_text("Banned"@, m.user, reason_or_none(target.text)),
                    )
                },
            }
        },
    }
}

pub fn decide_ban(cfg: &BotConfig, bot_id: i64, target: &Target, member: &Option<Member>) -> (r:
    ModAction)
    ensures
        r.view() == spec_ban(cfg, bot_id, target.view(), *member),
{
    let id = match target.user_id {
        None => {
            return ModAction::Reply(string_of("No user was targeted"));
        },
        Some(id) => id,
    };
    if id == bot_id {
        return ModAction::Reply(
            string_of("I am not gonna ban myself fella! Try using your brain next time!"),
        );
    }
    if cfg.is_privileged(id) {
        return ModAction::Reply(string_of("I am not gonna ban my owner or my sudo users"));
    }
    match member {
        None => ModAction::Reply(string_of("I can't seem to get info for this user")),
        Some(m) => {
            if m.status == MemberStatus::Kicked {
                ModAction::Reply(string_of("This user is already banned here!"))
            } else if m.protected_admin() {
                ModAction::Reply(string_of("I am not gonna ban an Admin Here!"))
            } else {
                let reason = reason_text(&target.text);
                ModAction::Ban {
                    user_id: id,
                    until: None,
                    reply: action_text("Banned", &m.user, &reason),
                }
            }
        },
    }
}

/// `/tban`: as `/ban`, but the text after the target must be a time span,
/// and the ban lasts from `date` for that span.
pub open spec fn spec_temp_ban(
    cfg: &BotConfig,
    bot_id: i64,
    target: SpecTarget,
    member: Option<Member>,
    date: u64,
) -> ModActionV {
    match target.user_id {
        None => reply("No user was targetted"@),
        Some(id) => match target.text {
            None => reply("Mention muting time in s,m,h,d"@),
            Some(t) => if id == bot_id {
                reply("I am not gonna ban myself fella! Try using your brain next time!"@)
            } else if cfg.spec_privileged(id) {
                reply("I am not gonna ban my owner or my sudo users"@)
            } else {
                match member {
                    None => reply(
                        "Can't get this user maybe he's not in the group or he deleted his account"@,
                    ),
                    Some(m) => if m.spec_protected_admin() {
                        reply("I am not gonna ban an admin here"@)
                    } else if m.status == MemberStatus::Kicked {
                        reply("This user is already banned"@)
                    } else {
                        match spec_parse_time(t) {
                            None => reply("Please specify with proper unit: s,m,h,d"@),
                            Some(span) => if date + span.seconds() > u64::MAX {
                                ModActionV::TimeOverflow
                            } else {
                                ModActionV::Ban(
                                    id,
                                    Some((date + span.seconds()) as u64),
                                    spec_timed_text("Banned"@, span),
                                )
                            },
                        }
                    },
                }
            },
        },
    }
}

/// The end of a temporary action starting at `date`, `None` on overflow.
fn until_of(date: u64, span: &TimeUnit) -> (r: Option<u64>)
    ensures
        r matches Some(v) ==> v == date + span.seconds(),
        r is None <==> date + span.seconds() > u64::MAX,
{
    match checked_time(span) {
        None => None,
        Some(t) => date.checked_add(t),
    }
}

pub fn decide_temp_ban(
    cfg: &BotConfig,
    bot_id: i64,
    target: &Target,
    member: &Option<Member>,
    date: u64,
) -> (r: ModAction)
    ensures
        r.view() == spec_temp_ban(cfg, bot_id, target.view(), *member, date),
{
    let id = match target.user_id {
        None => {
            return ModAction::Reply(string_of("No user was targetted"));
        },
        Some(id) => id,
    };
    let t = match &target.text {
        None => {
            return ModAction::Reply(string_of("Mention muting time in s,m,h,d"));
        },
        Some(t) => t,
    };
    if id == bot_id {
        return ModAction::Reply(
            string_of("I am not gonna ban myself fella! Try using your brain next time!"),
        );
    }
    if cfg.is_privileged(id) {
        return ModAction::Reply(string_of("I am not gonna ban my owner or my sudo users"));
    }
    let m = match member {
        None => {
            return ModAction::Reply(
                string_of(
                    "Can't get this user maybe he's not in the group or he deleted his account",
                ),
            );
        },
        Some(m) => m,
    };
    if m.protected_admin() {
        return ModAction::Reply(string_of("I am not gonna ban an admin here"));
    }
    if m.status == MemberStatus::Kicked {
        return ModAction::Reply(string_of("This user is already banned"));
    }
    match TimeUnit::parse(t.as_str()) {
        None => ModAction::Reply(string_of("Please specify with proper unit: s,m,h,d")),
        Some(span) => match until_of(date, &span) {
            None => ModAction::TimeOverflow,
            Some(until) => ModAction::Ban {
                user_id: id,
                until: Some(until),
                reply: timed_text("Banned", &span),
            },
        },
    }
}

/// `/tmute`: as `/tban`, restricting instead of banning; refuses members
/// who have left or are banned.
pub open spec fn spec_temp_mute(
    cfg: &BotConfig,
    bot_id: i64,
    target: SpecTarget,
    member: Option<Member>,
    date: u64,
) -> ModActionV {
    match target.user_id {
        None => reply("No user was targetted"@),
        Some(id) => match target.text {
            None => reply("Mention muting time in s,m,h,d"@),
            Some(t) => if id == bot_id {
                reply("I am not gonna mute myself fella! Try using your brain next time!"@)
            } else if cfg.spec_privileged(id) {
                reply("I am not gonna mute my owner or my sudo users"@)
            } else {
                match member {
                    None => reply(
                        "Can't get this user maybe he's not in the group or he deleted his account"@,
                    ),
                    Some(m) => if m.spec_protected_admin() {
                        reply("I am not gonna mute an admin here"@)
                    } else if m.spec_gone() {
                        reply(
                            "This user is either left of banned from here there's no point of muting him"@,
                        )
                    } else {
                        match spec_parse_time(t) {
                            None => reply("Please specify with proper unit: s,m,h,d"@),
                            Some(span) => if date + span.seconds() > u64::MAX {
                                ModActionV::TimeOverflow
                            } else {
                                ModActionV::Restrict(
                                    id,
                                    Some((date + span.seconds()) as u64),
                                    spec_timed_text("Muted"@, span),
                                )
                            },
                        }
                    },
                }
            },
        },
    }
}

pub fn decide_temp_mute(
    cfg: &BotConfig,
    bot_id: i64,
    target: &Target,
    member: &Option<Member>,
    date: u64,
) -> (r: ModAction)
    ensures
        r.view() == spec_temp_mute(cfg, bot_id, target.view(), *member, date),
{
    let id = match target.user_id {
        None => {
            return ModAction::Reply(string_of("No user was targetted"));
        },
        Some(id) => id,
    };
    let t = match &target.text {
        None => {
            return ModAction::Reply(string_of("Mention muting time in s,m,h,d"));
        },
        Some(t) => t,
    };
    if id == bot_id {
        return ModAction::Reply(
            string_of("I am not gonna mute myself fella! Try using your brain next time!"),
        );
    }
    if cfg.is_privileged(id) {
        return ModAction::Reply(string_of("I am not gonna mute my owner or my sudo users"));
    }
    let m = match member {
        None => {
            return ModAction::Reply(
                string_of(
                    "Can't get this user maybe he's not in the group or he deleted his account",
                ),
            );
        },
        Some(m) => m,
    };
    if m.protected_admin() {
        return ModAction::Reply(string_of("I am not gonna mute an admin here"));
    }
    if m.gone() {
        return ModAction::Reply(
            string_of(
                "This user is either left of banned from here there's no point of muting him",
            ),
        );
    }
    match TimeUnit::parse(t.as_str()) {
        None => ModAction::Reply(string_of("Please specify with proper unit: s,m,h,d")),
        Some(span) => match until_of(date, &span) {
            None => ModAction::TimeOverflow,
            Some(until) => ModAction::Restrict {
                user_id: id,
                until: Some(until),
                reply: timed_text("Muted", &span),
            },
        },
    }
}

/// `/mute`: refuses as `/ban` does (with its own words), and when the member
/// already may not send messages; else restricts it.
pub open spec fn spec_mute(cfg: &BotConfig, bot_id: i64, target: SpecTarget, member: Option<Member>) -> ModActionV {
    match target.user_id {
        None => reply("No user was targeted"@),
        Some(id) => if id == bot_id {
            reply("I am not gonna mute myself fella! Try using your brain next time!"@)
        } else if cfg.spec_privileged(id) {
            reply("I am not gonna mute my owner or one of my sudo users"@)
        } else {
            match member {
                None => reply("I can't seem to get info for this user"@),
                Some(m) => if m.spec_protected_admin() {
                    reply("I am not gonna mute an Admin Here!"@)
                } else if !m.can_send_messages {
                    reply("User is already restricted"@)
                } else {
                    ModActionV::Restrict(
                        id,
                        None,
                        spec_action_text("Muted"@, m.user, reason_or_none(target.text)),
                    )
                },
            }
        },
    }
}

pub fn decide_mute(cfg: &BotConfig, bot_id: i64, target: &Target, member: &Option<Member>) -> (r:
    ModAction)
    ensures
        r.view() == spec_mute(cfg, bot_id, target.view(), *member),
{
    let id = match target.user_id {
        None => {
            return ModAction::Reply(string_of("No user was targeted"));
        },
        Some(id) => id,
    };
    if id == bot_id {
        return ModAction::Reply(
            string_of("I am not gonna mute myself fella! Try using your brain next time!"),
        );
    }
    if cfg.is_privileged(id) {
        return ModAction::Reply(
            string_of("I am not gonna mute my owner or one of my sudo users"),
        );
    }
    match member {
        None => ModAction::Reply(string_of("I can't seem to get info for this user")),
        Some(m) => {
            if m.protected_admin() {
                ModAction::Reply(string_of("I am not gonna mute an Admin Here!"))
            } else if !m.can_send_messages {
                ModAction::Reply(string_of("User is already restricted"))
            } else {
                let reason = reason_text(&target.text);
                ModAction::Restrict {
                    user_id: id,
                    until: None,
                    reply: action_text("Muted", &m.user, &reason),
                }
            }
        },
    }
}

/// `/kick`: refuses as `/ban` does (with its own words) and when the member
/// is gone already; else kicks it.
pub open spec fn spec_kick(cfg: &BotConfig, bot_id: i64, target: SpecTarget, member: Option<Member>) -> ModActionV {
    match target.user_id {
        None => reply("No user was targeted"@),
        Some(id) => if id == bot_id {
            reply("I am not gonna kick myself fella! Try using your brain next time!"@)
        } else if cfg.spec_privileged(id) {
            reply("I am not gonna kick my owner or one of my sudo users"@)
        } else {
            match member {
                None => reply("I can't seem to get info for this user"@),
                Some(m) => if m.spec_gone() {
                    reply("This user is already gone mate!"@)
                } else if m.spec_protected_admin() {
                    reply("I am not gonna kick an Admin Here!"@)
                } else {
                    ModActionV::Kick(
                        id,
                        spec_action_text("Kicked"@, m.user, reason_or_none(target.text)),
                    )
                },
            }
        },
    }
}

pub fn decide_kick(cfg: &BotConfig, bot_id: i64, target: &Target, member: &Option<Member>) -> (r:
    ModAction)
    ensures
        r.view() == spec_kick(cfg, bot_id, target.view(), *member),
{
    let id = match target.user_id {
        None => {
            return ModAction::Reply(string_of("No user was targeted"));
        },
        Some(id) => id,
    };
    if id == bot_id {
        return ModAction::Reply(
            string_of("I am not gonna kick myself fella! Try using your brain next time!"),
        );
    }
    if cfg.is_privileged(id) {
        return ModAction::Reply(
            string_of("I am not gonna kick my owner or one of my sudo users"),
        );
    }
    match member {
        None => ModAction::Reply(string_of("I can't seem to get info for this user")),
        Some(m) => {
            if m.gone() {
                ModAction::Reply(string_of("This user is already gone mate!"))
            } else if m.protected_admin() {
                ModAction::Reply(string_of("I am not gonna kick an Admin Here!"))
            } else {
                let reason = reason_text(&target.text);
                ModAction::Kick { user_id: id, reply: action_text("Kicked", &m.user, &reason) }
            }
        },
    }
}

/// The reply of `/kickme`.
pub open spec fn spec_kickme_text(user: TgUser) -> Seq<char> {
    "<b>Piss off "@ + spec_mention_or_link(user) + "</b>"@
}

/// `/kickme`: the sender leaves, unless it is the owner, a sudo user, or an
/// admin the bot may not edit.
pub open spec fn spec_kickme(cfg: &BotConfig, sender: Option<TgUser>, member: Option<Member>) -> ModActionV {
    match sender {
        None => reply("Can't get the info about the user"@),
        Some(u) => if cfg.spec_privileged(u.id) {
            reply("You are my owner or one of my sudo users mate I can't kick you"@)
        } else {
            match member {
                None => reply("Can't kick the user"@),
                Some(m) => if m.spec_protected_admin() {
                    reply("I am not gonna kick an Admin Here!"@)
                } else {
                    ModActionV::Kick(u.id, spec_kickme_text(u))
                },
            }
        },
    }
}

pub fn decide_kickme(cfg: &BotConfig, sender: &Option<TgUser>, member: &Option<Member>) -> (r:
    ModAction)
    ensures
        r.view() == spec_kickme(cfg, *sender, *member),
{
    let u = match sender {
        None => {
            return ModAction::Reply(string_of("Can't get the info about the user"));
        },
        Some(u) => u,
    };
    if cfg.is_privileged(u.id) {
        return ModAction::Reply(
            string_of("You are my owner or one of my sudo users mate I can't kick you"),
        );
    }
    match member {
        None => ModAction::Reply(string_of("Can't kick the user")),
        Some(m) => {
            if m.protected_admin() {
                ModAction::Reply(string_of("I am not gonna kick an Admin Here!"))
            } else {
                let mut text = string_of("<b>Piss off ");
                let m = mention_or_link(u);
                text.append(m.as_str());
                text.append("</b>");
                ModAction::Kick { user_id: u.id, reply: text }
            }
        },
    }
}

/// `/unban`: only a banned member is unbanned.
pub open spec fn spec_unban(target: SpecTarget, member: Option<Member>) -> ModActionV {
    match target.user_id {
        None => reply("No user was targeted"@),
        Some(id) => match member {
            None => reply("I can't seem to get the info of the user"@),
            Some(m) => if m.status != MemberStatus::Kicked {
                reply("This user is already unbanned!"@)
            } else {
                ModActionV::Unban(id, "<b>Unbanned!</b>"@)
            },
        },
    }
}

pub fn decide_unban(target: &Target, member: &Option<Member>) -> (r: ModAction)
    ensures
        r.view() == spec_unban(target.view(), *member),
{
    let id = match target.user_id {
        None => {
            return ModAction::Reply(string_of("No user was targeted"));
        },
        Some(id) => id,
    };
    match member {
        None => ModAction::Reply(string_of("I can't seem to get the info of the user")),
        Some(m) => {
            if m.status != MemberStatus::Kicked {
                ModAction::Reply(string_of("This user is already unbanned!"))
            } else {
                ModAction::Unban { user_id: id, reply: string_of("<b>Unbanned!</b>") }
            }
        },
    }
}

/// The target of `/unmute` and `/warn`, or the reply when there is none.
pub fn required_target(target: &Target) -> (r: Result<i64, String>)
    ensures
        target.user_id matches Some(id) ==> r == Ok::<i64, String>(id),
        target.user_id is None ==> (r matches Err(s) && s@ == "No user was targeted"@),
{
    match target.user_id {
        Some(id) => Ok(id),
        None => Err(string_of("No user was targeted")),
    }
}

/// `/unmute`: a present member missing one of the send rights gets them back.
pub open spec fn spec_unmute(user_id: i64, m: Member) -> ModActionV {
    if m.spec_gone() {
        reply("This user already banned/left from the group"@)
    } else if m.can_send_messages && m.can_send_media_messages && m.can_send_other_messages
        && m.can_add_web_page_previews {
        reply("This user can already talk!"@)
    } else {
        ModActionV::Unrestrict(user_id, "<b>Unmuted</b>"@)
    }
}

/// `/unmute` once a target is known and its membership read.
pub fn decide_unmute(user_id: i64, m: &Member) -> (r: ModAction)
    ensures
        r.view() == spec_unmute(user_id, *m),
{
    if m.gone() {
        ModAction::Reply(string_of("This user already banned/left from the group"))
    } else if m.can_send_messages && m.can_send_media_messages && m.can_send_other_messages
        && m.can_add_web_page_previews {
        ModAction::Reply(string_of("This user can already talk!"))
    } else {
        ModAction::Unrestrict { user_id, reply: string_of("<b>Unmuted</b>") }
    }
}

/// The moderation events written to a chat's log channel.
#[derive(PartialEq, Eq, Structural, Clone, Copy, Debug)]
pub enum LogEvent {
    Banned,
    TempBanned,
    Unbanned,
    Kicked,
    Muted,
    TempMuted,
}

pub open spec fn log_head(ev: LogEvent) -> Seq<char> {
    match ev {
        LogEvent::Banned => "Chat Title: "@,
        _ => "Chat title: "@,
    }
}

pub open spec fn log_tag(ev: LogEvent) -> Seq<char> {
    match ev {
        LogEvent::Banned => "\n#BANNED\nAdmin: "@,
        LogEvent::TempBanned => "\n#TEMP_BANNED\nAdmin: "@,
        LogEvent::Unbanned => "\n#UNBANNED\nAdmin: "@,
        LogEvent::Kicked => "\n#KICKED\nAdmin: "@,
        LogEvent::Muted => "\n#MUTED\nAdmin: "@,
        LogEvent::TempMuted => "\n#TEMP_MUTED\nAdmin: "@,
    }
}

/// The mute logs write ids cut to 32 bits.
pub open spec fn log_id(ev: LogEvent, id: i64) -> i64 {
    match ev {
        LogEvent::Muted | LogEvent::TempMuted => (id as i32) as i64,
        _ => id,
    }
}

/// The log entry of a moderation event: the chat, the admin, the user and,
/// for temporary actions, the span.
pub open spec fn spec_mod_log(
    ev: LogEvent,
    chat_title: Seq<char>,
    admin: TgUser,
    user_id: i64,
    user: TgUser,
    span: Option<TimeUnit>,
) -> Seq<char> {
    let base = log_head(ev) + spec_code_inline(chat_title) + log_tag(ev) + spec_user_mention(
        log_id(ev, admin.id),
        spec_full_name(admin),
    ) + "\nUser: "@ + spec_user_mention(log_id(ev, user_id), spec_full_name(user));
    match span {
        Some(s) => base + "\n For: "@ + spec_code_inline(s.spec_text()) + "\n"@,
        None => base,
    }
}

fn log_id_exec(ev: LogEvent, id: i64) -> (r: i64)
    ensures
        r == log_id(ev, id),
{
    match ev {
        LogEvent::Muted | LogEvent::TempMuted => (id as i32) as i64,
        _ => id,
    }
}

pub fn mod_log(
    ev: LogEvent,
    chat_title: &str,
    admin: &TgUser,
    user_id: i64,
    user: &TgUser,
    span: &Option<TimeUnit>,
) -> (r: String)
    ensures
        r@ == spec_mod_log(ev, chat_title@, *admin, user_id, *user, *span),
{
    let mut out = match ev {
        LogEvent::Banned => string_of("Chat Title: "),
        _ => string_of("Chat title: "),
    };
    out.append(code_inline(chat_title).as_str());
    let tag = match ev {
        LogEvent::Banned => "\n#BANNED\nAdmin: ",
        LogEvent::TempBanned => "\n#TEMP_BANNED\nAdmin: ",
        LogEvent::Unbanned => "\n#UNBANNED\nAdmin: ",
        LogEvent::Kicked => "\n#KICKED\nAdmin: ",
        LogEvent::Muted => "\n#MUTED\nAdmin: ",
        LogEvent::TempMuted => "\n#TEMP_MUTED\nAdmin: ",
    };
    out.append(tag);
    let an = full_name(admin);
    out.append(user_mention(log_id_exec(ev, admin.id), an.as_str()).as_str());
    out.append("\nUser: ");
    let un = full_name(user);
    out.append(user_mention(log_id_exec(ev, user_id), un.as_str()).as_str());
    match span {
        Some(s) => {
            out.append("\n For: ");
            let st = s.text();
            out.append(code_inline(st.as_str()).as_str());
            out.append("\n");
        },
        None => {},
    }
    out
}

/// The log entry of `/kickme`.
pub open spec fn spec_kickme_log(chat_title: Seq<char>, user_id: i64, user: TgUser) -> Seq<char> {
    "Chat id: "@ + spec_code_inline(chat_title) + "\n#KICKME\nUser: "@ + spec_user_mention(
        user_id,
        spec_full_name(user),
    )
}

pub fn kickme_log(chat_title: &str, user_id: i64, user: &TgUser) -> (r: String)
    ensures
        r@ == spec_kickme_log(chat_title@, user_id, *user),
{
    let mut out = string_of("Chat id: ");
    out.append(code_inline(chat_title).as_str());
    out.append("\n#KICKME\nUser: ");
    let n = full_name(user);
    out.append(user_mention(user_id, n.as_str()).as_str());
    out
}

/// Whom no moderation command acts on: the bot itself, its owner and sudo
/// users, and admins the bot may not edit.
pub open spec fn untouchable(cfg: &BotConfig, bot_id: i64, id: i64, member: Option<Member>) -> bool {
    id == bot_id || cfg.spec_privileged(id) || (member matches Some(m) && m.spec_protected_admin())
}

/// A ban, temporary ban, mute, temporary mute or kick of an untouchable
/// target only replies.
pub proof fn law_untouchable_only_replies(
    cfg: &BotConfig,
    bot_id: i64,
    target: SpecTarget,
    member: Option<Member>,
    date: u64,
)
    requires
        target.user_id matches Some(id) && untouchable(cfg, bot_id, id, member),
    ensures
        spec_ban(cfg, bot_id, target, member) is Reply,
        spec_temp_ban(cfg, bot_id, target, member, date) is Reply,
        spec_mute(cfg, bot_id, target, member) is Reply,
        spec_temp_mute(cfg, bot_id, target, member, date) is Reply,
        spec_kick(cfg, bot_id, target, member) is Reply,
{
}

/// The moderation commands act on every target within the bot's reach: a
/// member that is not the bot, the owner or a sudo user, and is neither the
/// creator nor an administrator the bot may not edit (an administrator the
/// bot can edit is within reach). `/ban` bans it unless it is banned
/// already; `/mute` restricts it unless it may not send messages already;
/// `/kick` kicks it unless it has left or is banned; `/tban` and `/tmute`
/// do the same until `date` plus the span given, when the span reads and
/// the end fits in `u64`.
pub proof fn law_reachable_target_is_acted_on(
    cfg: &BotConfig,
    bot_id: i64,
    target: SpecTarget,
    m: Member,
    date: u64,
)
    requires
        target.user_id is Some,
        target.user_id->0 != bot_id,
        !cfg.spec_privileged(target.user_id->0),
        m.status != MemberStatus::Creator,
        m.status == MemberStatus::Administrator ==> m.can_be_edited,
    ensures
        ({
            let id = target.user_id->0;
            &&& m.status != MemberStatus::Kicked ==> (spec_ban(cfg, bot_id, target, Some(m)) matches ModActionV::Ban(
                uid,
                until,
                _,
            ) && uid == id && until is None)
            &&& m.can_send_messages ==> (spec_mute(cfg, bot_id, target, Some(m)) matches ModActionV::Restrict(
                uid,
                until,
                _,
            ) && uid == id && until is None)
            &&& m.status != MemberStatus::Kicked && m.status != MemberStatus::Left ==> (spec_kick(
                cfg,
                bot_id,
                target,
                Some(m),
            ) matches ModActionV::Kick(uid, _) && uid == id)
            &&& target.text matches Some(t) ==> (spec_parse_time(t) matches Some(span) ==> (date
                + span.seconds() <= u64::MAX ==> {
                &&& m.status != MemberStatus::Kicked ==> (spec_temp_ban(
                    cfg,
                    bot_id,
                    target,
                    Some(m),
                    date,
                ) matches ModActionV::Ban(uid, until, _) && uid == id && until == Some(
                    (date + span.seconds()) as u64,
                ))
                &&& m.status != MemberStatus::Kicked && m.status != MemberStatus::Left ==> (
                spec_temp_mute(cfg, bot_id, target, Some(m), date) matches ModActionV::Restrict(
                    uid,
                    until,
                    _,
                ) && uid == id && until == Some((date + span.seconds()) as u64))
            }))
        }),
{
}

/// What a ban or a mute did, the undoing commands undo: `/unban` unbans a
/// targeted member exactly when it is banned, `/unmute` gives the send
/// rights back exactly to a member still in the chat that lacks one of
/// them, and `/kickme` kicks its sender unless it is the owner, a sudo
/// user, the creator or an administrator the bot may not edit.
pub proof fn law_undo_and_kickme(cfg: &BotConfig, target: SpecTarget, m: Member, u: TgUser)
    ensures
        target.user_id matches Some(id) ==> ((spec_unban(target, Some(m)) matches ModActionV::Unban(
            uid,
            _,
        ) && uid == id) <==> m.status == MemberStatus::Kicked),
        target.user_id matches Some(id) ==> (spec_unban(target, Some(m)) is Reply <==> m.status
            != MemberStatus::Kicked),
        (spec_unmute(u.id, m) matches ModActionV::Unrestrict(uid, _) && uid == u.id) <==> (m.status
            != MemberStatus::Kicked && m.status != MemberStatus::Left && !(m.can_send_messages
            && m.can_send_media_messages && m.can_send_other_messages
            && m.can_add_web_page_previews)),
        !cfg.spec_privileged(u.id) && m.status != MemberStatus::Creator && (m.status
            == MemberStatus::Administrator ==> m.can_be_edited) ==> (spec_kickme(
            cfg,
            Some(u),
            Some(m),
        ) matches ModActionV::Kick(uid, _) && uid == u.id),
        cfg.spec_privileged(u.id) || m.status == MemberStatus::Creator || (m.status
            == MemberStatus::Administrator && !m.can_be_edited) ==> spec_kickme(
            cfg,
            Some(u),
            Some(m),
        ) is Reply,
{
}

} // verus!
