//! What a read of each per-chat setting gives, and which record the bot
//! stores when none was there yet; and the records made from an update.
use vstd::prelude::*;
use crate::database::{
    BlacklistKind, Chat, DisableCommand, GbanStat, User, WarnKind, Warnlimit,
};
use crate::model::TgUser;
use crate::text::{spec_to_lowercase, string_of, to_lowercase};

verus! {

/// `get_gbanstat`: the stored switch; with none stored, gbans are on and
/// that is stored.
pub fn gbanstat_setting(chat_id: i64, stored: Option<bool>) -> (r: (bool, Option<GbanStat>))
    ensures
        stored matches Some(v) ==> r.0 == v && r.1 is None,
        stored is None ==> (r.0 && (r.1 matches Some(g) && g.chat_id == chat_id && g.is_on)),
{
    match stored {
        Some(v) => (v, None),
        None => (true, Some(GbanStat { chat_id, is_on: true })),
    }
}

/// `get_softwarn`: the stored mode; with none stored, warns are hard and
/// that is stored.
pub fn softwarn_setting(chat_id: i64, stored: Option<bool>) -> (r: (bool, Option<WarnKind>))
    ensures
        stored matches Some(v) ==> r.0 == v && r.1 is None,
        stored is None ==> (!r.0 && (r.1 matches Some(k) && k.chat_id == chat_id && !k.softwarn)),
{
    match stored {
        Some(v) => (v, None),
        None => (false, Some(WarnKind { chat_id, softwarn: false })),
    }
}

/// `get_warn_limit`: the stored limit; with none stored, the limit is 3
/// and that is stored.
pub fn warn_limit_setting(chat_id: i64, stored: Option<u64>) -> (r: (i64, Option<Warnlimit>))
    ensures
        stored matches Some(v) ==> r.0 == v as i64 && r.1 is None,
        stored is None ==> (r.0 == 3 && (r.1 matches Some(w) && w.chat_id == chat_id && w.limit
            == 3)),
{
    match stored {
        Some(v) => (v as i64, None),
        None => (3, Some(Warnlimit { chat_id, limit: 3 })),
    }
}

/// `get_warn_count`: the stored count, 0 when there is none.
pub fn warn_count_setting(stored: Option<u64>) -> (r: i64)
    ensures
        r == match stored {
            Some(c) => c as i64,
            None => 0i64,
        },
{
    match stored {
        Some(c) => c as i64,
        None => 0,
    }
}

/// `get_blacklist_mode`: the stored mode; with none stored, "delete" and
/// that is stored.
pub fn blacklist_mode_setting(chat_id: i64, stored: Option<String>) -> (r: (
    String,
    Option<BlacklistKind>,
))
    ensures
        stored matches Some(v) ==> r.0@ == v@ && r.1 is None,
        stored is None ==> (r.0@ == "delete"@ && (r.1 matches Some(k) && k.chat_id == chat_id
            && k.kind@ == "delete"@)),
{
    match stored {
        Some(v) => (v, None),
        None => (
            string_of("delete"),
            Some(BlacklistKind { chat_id, kind: string_of("delete") }),
        ),
    }
}

/// `get_disabled_command`: the stored list; with none stored, an empty list
/// and that is stored.
pub fn disabled_setting(chat_id: i64, stored: Option<Vec<String>>) -> (r: (
    Vec<String>,
    Option<DisableCommand>,
))
    ensures
        stored matches Some(v) ==> r.0@ == v@ && r.1 is None,
        stored is None ==> (r.0@.len() == 0 && (r.1 matches Some(d) && d.chat_id == chat_id
            && d.disabled_commands@.len() == 0)),
{
    match stored {
        Some(v) => (v, None),
        None => (Vec::new(), Some(DisableCommand { chat_id, disabled_commands: Vec::new() })),
    }
}

/// `get_report_setting`: reports are off unless switched on.
pub fn report_setting(stored: Option<bool>) -> (r: bool)
    ensures
        r == (stored == Some(true)),
{
    match stored {
        Some(v) => v,
        None => false,
    }
}

/// `save_user`: the sender with its username lowercased, "None" without one.
pub fn user_record(u: &TgUser) -> (r: User)
    ensures
        r.user_id == u.id,
        r.user_name@ == match u.username {
            Some(n) => spec_to_lowercase(n@),
            None => "None"@,
        },
{
    let name = match &u.username {
        Some(n) => to_lowercase(n.as_str()),
        None => string_of("None"),
    };
    User { user_id: u.id, user_name: name }
}

/// `save_chat`: a group or channel is stored with its title (one without a
/// title is not stored: reading the title fails there).
pub fn chat_record(chat_id: i64, title: &String) -> (r: Chat)
    ensures
        r.chat_id == chat_id,
        r.chat_name@ == title@,
{
    Chat { chat_id, chat_name: title.clone() }
}

} // verus!
