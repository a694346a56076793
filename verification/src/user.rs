//! What the bot says about a user: the `info` card and the `id` replies.
use vstd::prelude::*;
use crate::html::{spec_user_mention, user_mention};
use crate::model::TgUser;
use crate::numparse::{dec_i64, fmt_i64};
use crate::permissions::BotConfig;
use crate::text::string_of;

verus! {

/// Where `info` takes its user from.
pub enum InfoSource {
    /// The member of the chat with this id, looked up.
    Member(i64),
    /// The sender of the command.
    Sender,
    /// Nobody: reply with this text.
    Reply(String),
}

pub open spec fn cant_get_info() -> Seq<char> {
    "Can't seem to get info about the user"@
}

/// The choice of `info`: the target user when one was given in a group,
/// the sender in a private chat or when nothing names a target.
pub fn info_source(user_id: Option<i64>, in_group: bool, is_private: bool, has_reply: bool, args_empty: bool) -> (r: InfoSource)
    ensures
        user_id matches Some(id) ==> (in_group ==> (r matches InfoSource::Member(m) && m == id)),
        !(user_id is Some && in_group) && (is_private || (!has_reply && args_empty)) ==> r is Sender,
        !(user_id is Some && in_group) && !(is_private || (!has_reply && args_empty))
            && user_id is None ==> (r matches InfoSource::Reply(s) && s@
            == "This user is either dead or not in my database!"@),
        !(user_id is Some && in_group) && !(is_private || (!has_reply && args_empty))
            && user_id is Some ==> (r matches InfoSource::Reply(s) && s@ == cant_get_info()),
{
    match user_id {
        Some(id) => {
            if in_group {
                return InfoSource::Member(id);
            }
        },
        None => {},
    }
    if is_private || (!has_reply && args_empty) {
        InfoSource::Sender
    } else if user_id.is_none() {
        InfoSource::Reply(string_of("This user is either dead or not in my database!"))
    } else {
        InfoSource::Reply(string_of("Can't seem to get info about the user"))
    }
}

/// The reply when the member lookup of `info` found nobody.
pub fn info_not_found() -> (r: String)
    ensures
        r@ == cant_get_info(),
{
    string_of("Can't seem to get info about the user")
}

/// The note at the end of the card of the owner or of a sudo user.
pub open spec fn spec_info_note(cfg: &BotConfig, id: i64) -> Seq<char> {
    if id == cfg.owner_id {
        "\n\n<i>Note:-This user is my owner I will always be loyal to him</i>"@
    } else if cfg.spec_is_sudo(id) {
        "\n\n<i>Note:-This is one of my sudo users as powerful as my owner beware</i>"@
    } else {
        Seq::empty()
    }
}

/// The `info` card of a user.
pub open spec fn spec_info_text(cfg: &BotConfig, u: TgUser) -> Seq<char> {
    "<b>User info</b>:\nID:<code>"@ + dec_i64(u.id) + "</code>\nFirst Name: "@ + u.first_name@
        + match u.last_name {
        Some(l) => "\nLast Name: "@ + l@,
        None => Seq::empty(),
    } + match u.username {
        Some(n) => "\nUsername: @"@ + n@,
        None => Seq::empty(),
    } + "\nPermanent Link: "@ + spec_user_mention(u.id, "link"@) + spec_info_note(
        cfg,
        u.id,
    )
}

/// The `info` card: id, names, a permanent link, and a note for the owner
/// and the sudo users.
pub fn info_text(cfg: &BotConfig, u: &TgUser) -> (r: String)
    ensures
        r@ == spec_info_text(cfg, *u),
{
    let mut out = string_of("<b>User info</b>:\nID:<code>");
    out.append(fmt_i64(u.id).as_str());
    out.append("</code>\nFirst Name: ");
    out.append(u.first_name.as_str());
    match &u.last_name {
        Some(l) => {
            out.append("\nLast Name: ");
            out.append(l.as_str());
        },
        None => {},
    }
    match &u.username {
        Some(n) => {
            out.append("\nUsername: @");
            out.append(n.as_str());
        },
        None => {},
    }
    out.append("\nPermanent Link: ");
    out.append(user_mention(u.id, "link").as_str());
    if u.id == cfg.owner_id {
        out.append("\n\n<i>Note:-This user is my owner I will always be loyal to him</i>");
    } else if cfg.is_sudo(u.id) {
        out.append("\n\n<i>Note:-This is one of my sudo users as powerful as my owner beware</i>");
    }
    out
}

/// How a replied-to message was forwarded.
pub enum Forward {
    /// From this user.
    User(TgUser),
    /// From a user who hides their account, under this name.
    SenderName(String),
}

/// The message a command replies to, as `id` reads it.
pub struct RepliedMessage {
    pub from: Option<TgUser>,
    pub forward: Option<Forward>,
}

/// What `id` does.
pub enum IdStep {
    /// Reply with this text, in HTML when `html`.
    Reply { text: String, html: bool },
    /// Look up the chat of this id, then reply with `private_chat_id_reply`.
    LookupChat(i64),
}

/// "<mention>'s ID is <code>id</code>".
pub open spec fn spec_id_is(id: i64, name: Seq<char>) -> Seq<char> {
    spec_user_mention(id, name) + "'s ID is <code>"@ + dec_i64(id) + "</code>"@
}

fn id_is(id: i64, name: &str) -> (r: String)
    ensures
        r@ == spec_id_is(id, name@),
{
    let mut out = user_mention(id, name);
    out.append("'s ID is <code>");
    out.append(fmt_i64(id).as_str());
    out.append("</code>");
    out
}

/// The reply about a message forwarded from a user: both ids, each behind a
/// mention that carries the name of the first sender.
pub open spec fn spec_forward_ids(sender: TgUser, forwarder: TgUser) -> Seq<char> {
    "The sender "@ + spec_user_mention(sender.id, sender.first_name@) + " has ID <code>"@
        + dec_i64(sender.id) + "</code> and the forwarder "@ + spec_user_mention(
        forwarder.id,
        sender.first_name@,
    ) + " has ID <code>"@ + dec_i64(forwarder.id) + "</code>"@
}

pub open spec fn spec_id_reply(user_id: Option<i64>, chat_id: i64, reply: Option<RepliedMessage>) -> Option<(Seq<char>, bool)> {
    match user_id {
        None => Some(("This chat has ID of <code>"@ + dec_i64(chat_id) + "</code>"@, true)),
        Some(_) => match reply {
            None => None,
            Some(m) => match m.forward {
                Some(Forward::User(us)) => Some((spec_forward_ids(us, m.from.unwrap()), true)),
                Some(Forward::SenderName(_)) => Some(
                    (spec_id_is(m.from.unwrap().id, m.from.unwrap().first_name@), true),
                ),
                None => match m.from {
                    Some(u) => Some((spec_id_is(u.id, u.first_name@), true)),
                    None => Some(("This user's dead I can't get his ID"@, false)),
                },
            },
        },
    }
}

/// The decision of `id`: with no target, the chat's id; with a replied-to
/// message, the ids of its sender (and of the first sender of a
/// forward); with a target but no reply, a lookup of the target's chat.
pub fn decide_id(user_id: Option<i64>, chat_id: i64, reply: &Option<RepliedMessage>) -> (r: IdStep)
    requires
        reply matches Some(m) ==> (m.forward is Some ==> m.from is Some),
    ensures
        user_id matches Some(id) ==> (reply is None ==> (r matches IdStep::LookupChat(c) && c
            == id)),
        !(user_id is Some && reply is None) ==> (r matches IdStep::Reply { text, html } && Some(
            (text@, html),
        ) == spec_id_reply(user_id, chat_id, *reply)),
{
    match user_id {
        None => {
            let mut text = string_of("This chat has ID of <code>");
            text.append(fmt_i64(chat_id).as_str());
            text.append("</code>");
            IdStep::Reply { text, html: true }
        },
        Some(id) => match reply {
            None => IdStep::LookupChat(id),
            Some(m) => match &m.forward {
                Some(Forward::User(us)) => {
                    let fw = m.from.as_ref().unwrap();
                    let mut text = string_of("The sender ");
                    text.append(user_mention(us.id, us.first_name.as_str()).as_str());
                    text.append(" has ID <code>");
                    text.append(fmt_i64(us.id).as_str());
                    text.append("</code> and the forwarder ");
                    text.append(user_mention(fw.id, us.first_name.as_str()).as_str());
                    text.append(" has ID <code>");
                    text.append(fmt_i64(fw.id).as_str());
                    text.append("</code>");
                    IdStep::Reply { text, html: true }
                },
                Some(Forward::SenderName(_)) => {
                    let fw = m.from.as_ref().unwrap();
                    IdStep::Reply { text: id_is(fw.id, fw.first_name.as_str()), html: true }
                },
                None => match &m.from {
                    Some(u) => IdStep::Reply { text: id_is(u.id, u.first_name.as_str()), html: true },
                    None => IdStep::Reply {
                        text: string_of("This user's dead I can't get his ID"),
                        html: false,
                    },
                },
            },
        },
    }
}

/// The reply of `id` after the lookup of the target's chat: `first_name` is
/// `None` when the chat is not a private one (then nothing is said), else
/// the first name the private chat shows, if any.
pub fn private_chat_id_reply(user_id: i64, first_name: &Option<Option<String>>) -> (r: Option<String>)
    ensures
        first_name is None ==> r is None,
        first_name matches Some(n) ==> (r matches Some(s) && s@ == spec_id_is(
            user_id,
            match n {
                Some(f) => f@,
                None => Seq::empty(),
            },
        )),
{
    match first_name {
        None => None,
        Some(n) => match n {
            Some(f) => Some(id_is(user_id, f.as_str())),
            None => {
                proof {
                    reveal_strlit("");
                }
                Some(id_is(user_id, ""))
            },
        },
    }
}

} // verus!
