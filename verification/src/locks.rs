//! Locking and unlocking what the members of a chat may send, by changing
//! the chat's default permissions.
use vstd::prelude::*;
use crate::custom_types::{spec_parse_lock_type, LockType};
use crate::text::{spec_to_lowercase, string_of, to_lowercase};

verus! {

/// The default permissions of a chat: each right granted, denied, or left
/// unset.
#[derive(PartialEq, Eq, Structural, Clone, Copy, Debug)]
pub struct Permissions {
    pub can_send_messages: Option<bool>,
    pub can_send_media_messages: Option<bool>,
    pub can_send_polls: Option<bool>,
    pub can_send_other_messages: Option<bool>,
    pub can_add_web_page_previews: Option<bool>,
    pub can_change_info: Option<bool>,
    pub can_invite_users: Option<bool>,
    pub can_pin_messages: Option<bool>,
}

/// Permissions with every right unset.
pub open spec fn spec_unset() -> Permissions {
    Permissions {
        can_send_messages: None,
        can_send_media_messages: None,
        can_send_polls: None,
        can_send_other_messages: None,
        can_add_web_page_previews: None,
        can_change_info: None,
        can_invite_users: None,
        can_pin_messages: None,
    }
}

impl Permissions {
    /// Every right unset.
    pub fn unset() -> (r: Permissions)
        ensures
            r == spec_unset(),
    {
        Permissions {
            can_send_messages: None,
            can_send_media_messages: None,
            can_send_polls: None,
            can_send_other_messages: None,
            can_add_web_page_previews: None,
            can_change_info: None,
            can_invite_users: None,
            can_pin_messages: None,
        }
    }
}

/// The permissions an unmute gives back: sending messages, media, polls,
/// other messages and previews; the rest unset.
pub fn unmuted_permissions() -> (r: Permissions)
    ensures
        r == (Permissions {
            can_send_messages: Some(true),
            can_send_media_messages: Some(true),
            can_send_polls: Some(true),
            can_send_other_messages: Some(true),
            can_add_web_page_previews: Some(true),
            ..spec_unset()
        }),
{
    Permissions {
        can_send_messages: Some(true),
        can_send_media_messages: Some(true),
        can_send_polls: Some(true),
        can_send_other_messages: Some(true),
        can_add_web_page_previews: Some(true),
        can_change_info: None,
        can_invite_users: None,
        can_pin_messages: None,
    }
}

/// The permissions after a lock of `kind`: a text lock leaves every right
/// unset; the others deny the rights they name and keep the rest.
pub open spec fn spec_locked(kind: LockType, p: Permissions) -> Permissions {
    match kind {
        LockType::Text => spec_unset(),
        LockType::Other => Permissions { can_send_other_messages: Some(false), ..p },
        LockType::Media => Permissions {
            can_send_media_messages: Some(false),
            can_send_other_messages: Some(false),
            can_add_web_page_previews: Some(false),
            ..p
        },
        LockType::Poll => Permissions { can_send_polls: Some(false), ..p },
        LockType::Web => Permissions { can_add_web_page_previews: Some(false), ..p },
        LockType::Error => p,
    }
}

/// The permissions after an unlock of `kind`: a text unlock grants messages,
/// media, polls, other messages and previews; the others grant the right
/// they name.
pub open spec fn spec_unlocked(kind: LockType, p: Permissions) -> Permissions {
    match kind {
        LockType::Text => Permissions {
            can_send_messages: Some(true),
            can_send_media_messages: Some(true),
            can_send_polls: Some(true),
            can_send_other_messages: Some(true),
            can_add_web_page_previews: Some(true),
            ..p
        },
        LockType::Other => Permissions { can_send_other_messages: Some(true), ..p },
        LockType::Media => Permissions { can_send_media_messages: Some(true), ..p },
        LockType::Poll => Permissions { can_send_polls: Some(true), ..p },
        LockType::Web => Permissions { can_add_web_page_previews: Some(true), ..p },
        LockType::Error => p,
    }
}

/// The right that a lock type names: sending other messages (stickers and
/// gifs), media, polls, or web page previews.
pub open spec fn right_of(kind: LockType, p: Permissions) -> Option<bool> {
    match kind {
        LockType::Text => p.can_send_messages,
        LockType::Other => p.can_send_other_messages,
        LockType::Media => p.can_send_media_messages,
        LockType::Poll => p.can_send_polls,
        LockType::Web => p.can_add_web_page_previews,
        LockType::Error => None,
    }
}

/// What the members are told of a lock type.
pub open spec fn lock_subject(kind: LockType) -> Seq<char> {
    match kind {
        LockType::Text => "all messages"@,
        LockType::Other => "stickers and gifs"@,
        LockType::Media => "media"@,
        LockType::Poll => "polls"@,
        LockType::Web => "web page previews"@,
        LockType::Error => "nothing"@,
    }
}

/// The reply after a lock or an unlock.
pub open spec fn spec_lock_reply(kind: LockType, lock: bool) -> Seq<char> {
    if kind == LockType::Error {
        "Invalid locktype, send /locktypes to see the available ones"@
    } else {
        (if lock {
            "<b>Locked</b> "@
        } else {
            "<b>Unlocked</b> "@
        }) + lock_subject(kind) + " for non-admins"@
    }
}

fn lock_reply(kind: LockType, lock: bool) -> (r: String)
    ensures
        r@ == spec_lock_reply(kind, lock),
{
    if kind == LockType::Error {
        return string_of("Invalid locktype, send /locktypes to see the available ones");
    }
    let mut out = if lock {
        string_of("<b>Locked</b> ")
    } else {
        string_of("<b>Unlocked</b> ")
    };
    let subject = match kind {
        LockType::Text => "all messages",
        LockType::Other => "stickers and gifs",
        LockType::Media => "media",
        LockType::Poll => "polls",
        LockType::Web => "web page previews",
        LockType::Error => "nothing",
    };
    out.append(subject);
    out.append(" for non-admins");
    out
}

/// What `lock` or `unlock` was asked to act on: the first argument,
/// lowercased and read as a lock type, or the question to ask when there is
/// no argument.
pub fn lock_kind(args: &Vec<String>, lock: bool) -> (r: Result<LockType, String>)
    ensures
        args.len() == 0 ==> (r matches Err(s) && s@ == if lock {
            "What should I lock?"@
        } else {
            "What should I unlock?"@
        }),
        args.len() > 0 ==> r == Ok::<LockType, String>(
            spec_parse_lock_type(spec_to_lowercase(args@[0]@)),
        ),
{
    if args.len() == 0 {
        if lock {
            return Err(string_of("What should I lock?"));
        } else {
            return Err(string_of("What should I unlock?"));
        }
    }
    let low = to_lowercase(args[0].as_str());
    Ok(LockType::parse(low.as_str()))
}

/// What a lock or an unlock does.
pub enum LockOutcome {
    /// Set the chat's permissions to these, then reply in HTML.
    Apply { perms: Permissions, reply: String },
    /// Only reply, in plain text.
    Reply(String),
}

/// Whether a lock or unlock of `kind` reads the chat's current permissions.
pub open spec fn reads_current(kind: LockType, lock: bool) -> bool {
    kind != LockType::Error && !(lock && kind == LockType::Text)
}

/// Whether `decide_lock` needs the chat's current permissions.
pub fn needs_current(kind: LockType, lock: bool) -> (r: bool)
    ensures
        r == reads_current(kind, lock),
{
    kind != LockType::Error && !(lock && kind == LockType::Text)
}

/// The new permissions, for a kind that is not an error.
pub open spec fn spec_new_perms(kind: LockType, lock: bool, current: Option<Permissions>) -> Permissions {
    if lock && kind == LockType::Text {
        spec_unset()
    } else if lock {
        spec_locked(kind, current.unwrap())
    } else {
        spec_unlocked(kind, current.unwrap())
    }
}

/// The decision of `lock` (when `lock`) or `unlock`, once the chat was
/// looked up: `chat` is `None` when the lookup failed, else the chat's
/// current permissions, which a chat may lack.
pub fn decide_lock(kind: LockType, lock: bool, chat: &Option<Option<Permissions>>) -> (r: LockOutcome)
    requires
        chat matches Some(p) ==> (reads_current(kind, lock) ==> p is Some),
    ensures
        chat is None ==> (r matches LockOutcome::Reply(s) && s@
            == "Can't get info about the chat"@),
        chat is Some && kind == LockType::Error ==> (r matches LockOutcome::Reply(s) && s@
            == spec_lock_reply(kind, lock)),
        chat matches Some(p) ==> (kind != LockType::Error ==> (r matches LockOutcome::Apply {
            perms,
            reply,
        } && perms == spec_new_perms(kind, lock, *p) && reply@ == spec_lock_reply(kind, lock))),
{
    match chat {
        None => LockOutcome::Reply(string_of("Can't get info about the chat")),
        Some(p) => {
            if kind == LockType::Error {
                return LockOutcome::Reply(lock_reply(kind, lock));
            }
            let reply = lock_reply(kind, lock);
            if lock && kind == LockType::Text {
                return LockOutcome::Apply { perms: Permissions::unset(), reply };
            }
            let c = p.unwrap();
            let perms = if lock {
                match kind {
                    LockType::Other => Permissions { can_send_other_messages: Some(false), ..c },
                    LockType::Media => Permissions {
                        can_send_media_messages: Some(false),
                        can_send_other_messages: Some(false),
                        can_add_web_page_previews: Some(false),
                        ..c
                    },
                    LockType::Poll => Permissions { can_send_polls: Some(false), ..c },
                    LockType::Web => Permissions { can_add_web_page_previews: Some(false), ..c },
                    _ => c,
                }
            } else {
                match kind {
                    LockType::Text => Permissions {
                        can_send_messages: Some(true),
                        can_send_media_messages: Some(true),
                        can_send_polls: Some(true),
                        can_send_other_messages: Some(true),
                        can_add_web_page_previews: Some(true),
                        ..c
                    },
                    LockType::Other => Permissions { can_send_other_messages: Some(true), ..c },
                    LockType::Media => Permissions { can_send_media_messages: Some(true), ..c },
                    LockType::Poll => Permissions { can_send_polls: Some(true), ..c },
                    LockType::Web => Permissions { can_add_web_page_previews: Some(true), ..c },
                    _ => c,
                }
            };
            LockOutcome::Apply { perms, reply }
        },
    }
}

/// The reply to `locktypes`.
pub fn locktypes_reply() -> (r: String)
    ensures
        r@
            == "Following Locktypes are available: \n<code>all\ntext\nsticker\ngif\nurl\nweb\nmedia\npoll\n</code>"@,
{
    string_of(
        "Following Locktypes are available: \n<code>all\ntext\nsticker\ngif\nurl\nweb\nmedia\npoll\n</code>",
    )
}

/// A lock denies the right its type names, and an unlock grants it; a lock
/// other than of text, and every unlock, leave changing the chat's info,
/// inviting and pinning as they were.
pub proof fn law_lock_denies_unlock_grants(kind: LockType, p: Permissions)
    requires
        kind != LockType::Error,
    ensures
        kind != LockType::Text ==> right_of(kind, spec_locked(kind, p)) == Some(false),
        right_of(kind, spec_unlocked(kind, p)) == Some(true),
        kind != LockType::Text ==> spec_locked(kind, p).can_change_info == p.can_change_info
            && spec_locked(kind, p).can_invite_users == p.can_invite_users
            && spec_locked(kind, p).can_pin_messages == p.can_pin_messages,
        spec_unlocked(kind, p).can_change_info == p.can_change_info
            && spec_unlocked(kind, p).can_invite_users == p.can_invite_users
            && spec_unlocked(kind, p).can_pin_messages == p.can_pin_messages,
{
}

/// Unlocking a kind after locking it grants that kind's right again, and
/// touches no right the lock did not.
pub proof fn law_unlock_after_lock(kind: LockType, p: Permissions)
    requires
        kind != LockType::Error,
        kind != LockType::Text,
    ensures
        right_of(kind, spec_unlocked(kind, spec_locked(kind, p))) == Some(true),
        spec_unlocked(kind, spec_locked(kind, p)).can_send_messages == p.can_send_messages,
        spec_unlocked(kind, spec_locked(kind, p)).can_change_info == p.can_change_info,
{
}

/// A lock or an unlock of a type other than text touches only the rights
/// that type names: stickers and gifs the right to send other messages;
/// media that right, the right to send media and the right to add web page
/// previews (an unlock of media only the right to send media); polls the
/// right to send polls; web previews the right to add them. Every other
/// right keeps its value, and the named ones are denied by a lock and
/// granted by an unlock.
pub proof fn law_lock_touches_only_named_rights(kind: LockType, lock: bool, p: Permissions)
    requires
        kind != LockType::Error,
        kind != LockType::Text,
    ensures
        ({
            let q = spec_new_perms(kind, lock, Some(p));
            let v = Some(!lock);
            &&& q.can_send_messages == p.can_send_messages
            &&& q.can_change_info == p.can_change_info
            &&& q.can_invite_users == p.can_invite_users
            &&& q.can_pin_messages == p.can_pin_messages
            &&& q.can_send_polls == if kind == LockType::Poll {
                v
            } else {
                p.can_send_polls
            }
            &&& q.can_send_media_messages == if kind == LockType::Media {
                v
            } else {
                p.can_send_media_messages
            }
            &&& q.can_send_other_messages == if kind == LockType::Other || (lock && kind
                == LockType::Media) {
                v
            } else {
                p.can_send_other_messages
            }
            &&& q.can_add_web_page_previews == if kind == LockType::Web || (lock && kind
                == LockType::Media) {
                v
            } else {
                p.can_add_web_page_previews
            }
        }),
{
}

/// Unlocking text grants sending messages, media, polls, other messages and
/// previews, and leaves changing the info, inviting and pinning as they
/// were; locking text leaves every right unset.
pub proof fn law_text_lock_and_unlock(p: Permissions)
    ensures
        ({
            let q = spec_new_perms(LockType::Text, false, Some(p));
            &&& q.can_send_messages == Some(true)
            &&& q.can_send_media_messages == Some(true)
            &&& q.can_send_polls == Some(true)
            &&& q.can_send_other_messages == Some(true)
            &&& q.can_add_web_page_previews == Some(true)
            &&& q.can_change_info == p.can_change_info
            &&& q.can_invite_users == p.can_invite_users
            &&& q.can_pin_messages == p.can_pin_messages
        }),
        ({
            let q = spec_new_perms(LockType::Text, true, Some(p));
            &&& q.can_send_messages is None
            &&& q.can_send_media_messages is None
            &&& q.can_send_polls is None
            &&& q.can_send_other_messages is None
            &&& q.can_add_web_page_previews is None
            &&& q.can_change_info is None
            &&& q.can_invite_users is None
            &&& q.can_pin_messages is None
        }),
{
}

} // verus!
