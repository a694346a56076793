//! Which handler a message's command goes to.
use vstd::prelude::*;
use crate::commands::{command_word, lemma_no_space_or_at, spec_command_word};
use crate::text::str_eq;

verus! {

/// A handler the bot routes commands to, grouped by what they deal with.
#[derive(PartialEq, Eq, Structural, Clone, Copy, Debug)]
pub enum Handler {
    // greeting and user info
    Start,
    Help,
    Info,
    Id,
    // bans and kicks
    Ban,
    Tban,
    Unban,
    Kick,
    Kickme,
    // restrictions
    Mute,
    Tmute,
    Unmute,
    // warnings
    Warn,
    Warns,
    Warnlimit,
    Resetwarns,
    // chat administration
    Pin,
    Unpin,
    Promote,
    Demote,
    Invitelink,
    Adminlist,
    // messages
    Del,
    Purge,
    // locks
    Lock,
    Unlock,
    Locktypes,
    // tools
    Ud,
    Paste,
    // owner and sudo users
    Leavechat,
    Chatlist,
    Gban,
    Ungban,
    Gbanstat,
}

/// The command word of a handler, with its `/`.
pub open spec fn spec_handler_text(h: Handler) -> Seq<char> {
    match h {
        Handler::Start => "/start"@,
        Handler::Help => "/help"@,
        Handler::Info => "/info"@,
        Handler::Id => "/id"@,
        Handler::Ban => "/ban"@,
        Handler::Tban => "/tban"@,
        Handler::Unban => "/unban"@,
        Handler::Kick => "/kick"@,
        Handler::Kickme => "/kickme"@,
        Handler::Mute => "/mute"@,
        Handler::Tmute => "/tmute"@,
        Handler::Unmute => "/unmute"@,
        Handler::Warn => "/warn"@,
        Handler::Warns => "/warns"@,
        Handler::Warnlimit => "/warnlimit"@,
        Handler::Resetwarns => "/resetwarns"@,
        Handler::Pin => "/pin"@,
        Handler::Unpin => "/unpin"@,
        Handler::Promote => "/promote"@,
        Handler::Demote => "/demote"@,
        Handler::Invitelink => "/invitelink"@,
        Handler::Adminlist => "/adminlist"@,
        Handler::Del => "/del"@,
        Handler::Purge => "/purge"@,
        Handler::Lock => "/lock"@,
        Handler::Unlock => "/unlock"@,
        Handler::Locktypes => "/locktypes"@,
        Handler::Ud => "/ud"@,
        Handler::Paste => "/paste"@,
        Handler::Leavechat => "/leavechat"@,
        Handler::Chatlist => "/chatlist"@,
        Handler::Gban => "/gban"@,
        Handler::Ungban => "/ungban"@,
        Handler::Gbanstat => "/gbanstat"@,
    }
}

/// The handler of a command word (written with its `/`), if any.
pub open spec fn spec_handler_of(raw: Seq<char>) -> Option<Handler> {
    if raw == "/start"@ {
        Some(Handler::Start)
    } else if raw == "/help"@ {
        Some(Handler::Help)
    } else if raw == "/info"@ {
        Some(Handler::Info)
    } else if raw == "/id"@ {
        Some(Handler::Id)
    } else if raw == "/ban"@ {
        Some(Handler::Ban)
    } else if raw == "/tban"@ {
        Some(Handler::Tban)
    } else if raw == "/unban"@ {
        Some(Handler::Unban)
    } else if raw == "/kick"@ {
        Some(Handler::Kick)
    } else if raw == "/kickme"@ {
        Some(Handler::Kickme)
    } else if raw == "/mute"@ {
        Some(Handler::Mute)
    } else if raw == "/tmute"@ {
        Some(Handler::Tmute)
    } else if raw == "/unmute"@ {
        Some(Handler::Unmute)
    } else if raw == "/warn"@ {
        Some(Handler::Warn)
    } else if raw == "/warns"@ {
        Some(Handler::Warns)
    } else if raw == "/warnlimit"@ {
        Some(Handler::Warnlimit)
    } else if raw == "/resetwarns"@ {
        Some(Handler::Resetwarns)
    } else if raw == "/pin"@ {
        Some(Handler::Pin)
    } else if raw == "/unpin"@ {
        Some(Handler::Unpin)
    } else if raw == "/promote"@ {
        Some(Handler::Promote)
    } else if raw == "/demote"@ {
        Some(Handler::Demote)
    } else if raw == "/invitelink"@ {
        Some(Handler::Invitelink)
    } else if raw == "/adminlist"@ {
        Some(Handler::Adminlist)
    } else if raw == "/del"@ {
        Some(Handler::Del)
    } else if raw == "/purge"@ {
        Some(Handler::Purge)
    } else if raw == "/lock"@ {
        Some(Handler::Lock)
    } else if raw == "/unlock"@ {
        Some(Handler::Unlock)
    } else if raw == "/locktypes"@ {
        Some(Handler::Locktypes)
    } else if raw == "/ud"@ {
        Some(Handler::Ud)
    } else if raw == "/paste"@ {
        Some(Handler::Paste)
    } else if raw == "/leavechat"@ {
        Some(Handler::Leavechat)
    } else if raw == "/chatlist"@ {
        Some(Handler::Chatlist)
    } else if raw == "/gban"@ {
        Some(Handler::Gban)
    } else if raw == "/ungban"@ {
        Some(Handler::Ungban)
    } else if raw == "/gbanstat"@ {
        Some(Handler::Gbanstat)
    } else {
        None
    }
}

/// The handler of a message's text: its command word read as
/// `command_word` reads it; `None` when the message is addressed to another
/// bot or names no handler.
pub open spec fn spec_route(text: Seq<char>, bot_name: Seq<char>) -> Option<Handler> {
    match spec_command_word(text, bot_name) {
        Ok(raw) => spec_handler_of(raw),
        Err(_) => None,
    }
}

fn handler_of(raw: &str) -> (r: Option<Handler>)
    ensures
        r == spec_handler_of(raw@),
{
    if str_eq(raw, "/start") {
        Some(Handler::Start)
    } else if str_eq(raw, "/help") {
        Some(Handler::Help)
    } else if str_eq(raw, "/info") {
        Some(Handler::Info)
    } else if str_eq(raw, "/id") {
        Some(Handler::Id)
    } else if str_eq(raw, "/ban") {
        Some(Handler::Ban)
    } else if str_eq(raw, "/tban") {
        Some(Handler::Tban)
    } else if str_eq(raw, "/unban") {
        Some(Handler::Unban)
    } else if str_eq(raw, "/kick") {
        Some(Handler::Kick)
    } else if str_eq(raw, "/kickme") {
        Some(Handler::Kickme)
    } else if str_eq(raw, "/mute") {
        Some(Handler::Mute)
    } else if str_eq(raw, "/tmute") {
        Some(Handler::Tmute)
    } else if str_eq(raw, "/unmute") {
        Some(Handler::Unmute)
    } else if str_eq(raw, "/warn") {
        Some(Handler::Warn)
    } else if str_eq(raw, "/warns") {
        Some(Handler::Warns)
    } else if str_eq(raw, "/warnlimit") {
        Some(Handler::Warnlimit)
    } else if str_eq(raw, "/resetwarns") {
        Some(Handler::Resetwarns)
    } else if str_eq(raw, "/pin") {
        Some(Handler::Pin)
    } else if str_eq(raw, "/unpin") {
        Some(Handler::Unpin)
    } else if str_eq(raw, "/promote") {
        Some(Handler::Promote)
    } else if str_eq(raw, "/demote") {
        Some(Handler::Demote)
    } else if str_eq(raw, "/invitelink") {
        Some(Handler::Invitelink)
    } else if str_eq(raw, "/adminlist") {
        Some(Handler::Adminlist)
    } else if str_eq(raw, "/del") {
        Some(Handler::Del)
    } else if str_eq(raw, "/purge") {
        Some(Handler::Purge)
    } else if str_eq(raw, "/lock") {
        Some(Handler::Lock)
    } else if str_eq(raw, "/unlock") {
        Some(Handler::Unlock)
    } else if str_eq(raw, "/locktypes") {
        Some(Handler::Locktypes)
    } else if str_eq(raw, "/ud") {
        Some(Handler::Ud)
    } else if str_eq(raw, "/paste") {
        Some(Handler::Paste)
    } else if str_eq(raw, "/leavechat") {
        Some(Handler::Leavechat)
    } else if str_eq(raw, "/chatlist") {
        Some(Handler::Chatlist)
    } else if str_eq(raw, "/gban") {
        Some(Handler::Gban)
    } else if str_eq(raw, "/ungban") {
        Some(Handler::Ungban)
    } else if str_eq(raw, "/gbanstat") {
        Some(Handler::Gbanstat)
    } else {
        None
    }
}

/// Routes a message's text to its handler.
pub fn route(text: &str, bot_name: &str) -> (r: Option<Handler>)
    ensures
        r == spec_route(text@, bot_name@),
{
    match command_word(text, bot_name) {
        Ok(raw) => handler_of(raw.as_str()),
        Err(_) => None,
    }
}

proof fn lemma_handler_of_sound(raw: Seq<char>)
    ensures
        spec_handler_of(raw) matches Some(h) ==> spec_handler_text(h) == raw,
{
}

/// The length and first characters of a command word: enough to tell the
/// handlers' words apart.
spec fn text_key(t: Seq<char>) -> (int, char, char, char) {
    (t.len() as int, t[1], t[2], if t.len() > 3 {
        t[3]
    } else {
        ' '
    })
}

spec fn handler_key(h: Handler) -> (int, char, char, char) {
    match h {
        Handler::Start => (6int, 's', 't', 'a'),
        Handler::Help => (5int, 'h', 'e', 'l'),
        Handler::Info => (5int, 'i', 'n', 'f'),
        Handler::Id => (3int, 'i', 'd', ' '),
        Handler::Ban => (4int, 'b', 'a', 'n'),
        Handler::Tban => (5int, 't', 'b', 'a'),
        Handler::Unban => (6int, 'u', 'n', 'b'),
        Handler::Kick => (5int, 'k', 'i', 'c'),
        Handler::Kickme => (7int, 'k', 'i', 'c'),
        Handler::Mute => (5int, 'm', 'u', 't'),
        Handler::Tmute => (6int, 't', 'm', 'u'),
        Handler::Unmute => (7int, 'u', 'n', 'm'),
        Handler::Warn => (5int, 'w', 'a', 'r'),
        Handler::Warns => (6int, 'w', 'a', 'r'),
        Handler::Warnlimit => (10int, 'w', 'a', 'r'),
        Handler::Resetwarns => (11int, 'r', 'e', 's'),
        Handler::Pin => (4int, 'p', 'i', 'n'),
        Handler::Unpin => (6int, 'u', 'n', 'p'),
        Handler::Promote => (8int, 'p', 'r', 'o'),
        Handler::Demote => (7int, 'd', 'e', 'm'),
        Handler::Invitelink => (11int, 'i', 'n', 'v'),
        Handler::Adminlist => (10int, 'a', 'd', 'm'),
        Handler::Del => (4int, 'd', 'e', 'l'),
        Handler::Purge => (6int, 'p', 'u', 'r'),
        Handler::Lock => (5int, 'l', 'o', 'c'),
        Handler::Unlock => (7int, 'u', 'n', 'l'),
        Handler::Locktypes => (10int, 'l', 'o', 'c'),
        Handler::Ud => (3int, 'u', 'd', ' '),
        Handler::Paste => (6int, 'p', 'a', 's'),
        Handler::Leavechat => (10int, 'l', 'e', 'a'),
        Handler::Chatlist => (9int, 'c', 'h', 'a'),
        Handler::Gban => (5int, 'g', 'b', 'a'),
        Handler::Ungban => (7int, 'u', 'n', 'g'),
        Handler::Gbanstat => (9int, 'g', 'b', 'a'),
    }
}

spec fn handler_of_key(k: (int, char, char, char)) -> Option<Handler> {
    if k == (6int, 's', 't', 'a') {
        Some(Handler::Start)
    } else if k == (5int, 'h', 'e', 'l') {
        Some(Handler::Help)
    } else if k == (5int, 'i', 'n', 'f') {
        Some(Handler::Info)
    } else if k == (3int, 'i', 'd', ' ') {
        Some(Handler::Id)
    } else if k == (4int, 'b', 'a', 'n') {
        Some(Handler::Ban)
    } else if k == (5int, 't', 'b', 'a') {
        Some(Handler::Tban)
    } else if k == (6int, 'u', 'n', 'b') {
        Some(Handler::Unban)
    } else if k == (5int, 'k', 'i', 'c') {
        Some(Handler::Kick)
    } else if k == (7int, 'k', 'i', 'c') {
        Some(Handler::Kickme)
    } else if k == (5int, 'm', 'u', 't') {
        Some(Handler::Mute)
    } else if k == (6int, 't', 'm', 'u') {
        Some(Handler::Tmute)
    } else if k == (7int, 'u', 'n', 'm') {
        Some(Handler::Unmute)
    } else if k == (5int, 'w', 'a', 'r') {
        Some(Handler::Warn)
    } else if k == (6int, 'w', 'a', 'r') {
        Some(Handler::Warns)
    } else if k == (10int, 'w', 'a', 'r') {
        Some(Handler::Warnlimit)
    } else if k == (11int, 'r', 'e', 's') {
        Some(Handler::Resetwarns)
    } else if k == (4int, 'p', 'i', 'n') {
        Some(Handler::Pin)
    } else if k == (6int, 'u', 'n', 'p') {
        Some(Handler::Unpin)
    } else if k == (8int, 'p', 'r', 'o') {
        Some(Handler::Promote)
    } else if k == (7int, 'd', 'e', 'm') {
        Some(Handler::Demote)
    } else if k == (11int, 'i', 'n', 'v') {
        Some(Handler::Invitelink)
    } else if k == (10int, 'a', 'd', 'm') {
        Some(Handler::Adminlist)
    } else if k == (4int, 'd', 'e', 'l') {
        Some(Handler::Del)
    } else if k == (6int, 'p', 'u', 'r') {
        Some(Handler::Purge)
    } else if k == (5int, 'l', 'o', 'c') {
        Some(Handler::Lock)
    } else if k == (7int, 'u', 'n', 'l') {
        Some(Handler::Unlock)
    } else if k == (10int, 'l', 'o', 'c') {
        Some(Handler::Locktypes)
    } else if k == (3int, 'u', 'd', ' ') {
        Some(Handler::Ud)
    } else if k == (6int, 'p', 'a', 's') {
        Some(Handler::Paste)
    } else if k == (10int, 'l', 'e', 'a') {
        Some(Handler::Leavechat)
    } else if k == (9int, 'c', 'h', 'a') {
        Some(Handler::Chatlist)
    } else if k == (5int, 'g', 'b', 'a') {
        Some(Handler::Gban)
    } else if k == (7int, 'u', 'n', 'g') {
        Some(Handler::Ungban)
    } else if k == (9int, 'g', 'b', 'a') {
        Some(Handler::Gbanstat)
    } else {
        None
    }
}

proof fn lemma_handler_key(h: Handler)
    ensures
        text_key(spec_handler_text(h)) == handler_key(h),
        handler_of_key(handler_key(h)) == Some(h),
{
    reveal_strlit("/start");
    reveal_strlit("/help");
    reveal_strlit("/info");
    reveal_strlit("/id");
    reveal_strlit("/ban");
    reveal_strlit("/tban");
    reveal_strlit("/unban");
    reveal_strlit("/kick");
    reveal_strlit("/kickme");
    reveal_strlit("/mute");
    reveal_strlit("/tmute");
    reveal_strlit("/unmute");
    reveal_strlit("/warn");
    reveal_strlit("/warns");
    reveal_strlit("/warnlimit");
    reveal_strlit("/resetwarns");
    reveal_strlit("/pin");
    reveal_strlit("/unpin");
    reveal_strlit("/promote");
    reveal_strlit("/demote");
    reveal_strlit("/invitelink");
    reveal_strlit("/adminlist");
    reveal_strlit("/del");
    reveal_strlit("/purge");
    reveal_strlit("/lock");
    reveal_strlit("/unlock");
    reveal_strlit("/locktypes");
    reveal_strlit("/ud");
    reveal_strlit("/paste");
    reveal_strlit("/leavechat");
    reveal_strlit("/chatlist");
    reveal_strlit("/gban");
    reveal_strlit("/ungban");
    reveal_strlit("/gbanstat");
    match h {
        Handler::Start => {},
        Handler::Help => {},
        Handler::Info => {},
        Handler::Id => {},
        Handler::Ban => {},
        Handler::Tban => {},
        Handler::Unban => {},
        Handler::Kick => {},
        Handler::Kickme => {},
        Handler::Mute => {},
        Handler::Tmute => {},
        Handler::Unmute => {},
        Handler::Warn => {},
        Handler::Warns => {},
        Handler::Warnlimit => {},
        Handler::Resetwarns => {},
        Handler::Pin => {},
        Handler::Unpin => {},
        Handler::Promote => {},
        Handler::Demote => {},
        Handler::Invitelink => {},
        Handler::Adminlist => {},
        Handler::Del => {},
        Handler::Purge => {},
        Handler::Lock => {},
        Handler::Unlock => {},
        Handler::Locktypes => {},
        Handler::Ud => {},
        Handler::Paste => {},
        Handler::Leavechat => {},
        Handler::Chatlist => {},
        Handler::Gban => {},
        Handler::Ungban => {},
        Handler::Gbanstat => {},
    }
}

/// No two handlers share a command word.
proof fn lemma_handler_text_injective(a: Handler, b: Handler)
    requires
        spec_handler_text(a) == spec_handler_text(b),
    ensures
        a == b,
{
    lemma_handler_key(a);
    lemma_handler_key(b);
}

/// Each handler's command word, sent as it is, reaches that handler,
/// whatever the bot's name.
pub proof fn law_route_reaches_handler(h: Handler, bot_name: Seq<char>)
    ensures
        spec_route(spec_handler_text(h), bot_name) == Some(h),
{
    let t = spec_handler_text(h);
    assert forall|i: int| 0 <= i < t.len() implies t[i] != ' ' && t[i] != '@' by {
        reveal_strlit("/start");
        reveal_strlit("/help");
        reveal_strlit("/info");
        reveal_strlit("/id");
        reveal_strlit("/ban");
        reveal_strlit("/tban");
        reveal_strlit("/unban");
        reveal_strlit("/kick");
        reveal_strlit("/kickme");
        reveal_strlit("/mute");
        reveal_strlit("/tmute");
        reveal_strlit("/unmute");
        reveal_strlit("/warn");
        reveal_strlit("/warns");
        reveal_strlit("/warnlimit");
        reveal_strlit("/resetwarns");
        reveal_strlit("/pin");
        reveal_strlit("/unpin");
        reveal_strlit("/promote");
        reveal_strlit("/demote");
        reveal_strlit("/invitelink");
        reveal_strlit("/adminlist");
        reveal_strlit("/del");
        reveal_strlit("/purge");
        reveal_strlit("/lock");
        reveal_strlit("/unlock");
        reveal_strlit("/locktypes");
        reveal_strlit("/ud");
        reveal_strlit("/paste");
        reveal_strlit("/leavechat");
        reveal_strlit("/chatlist");
        reveal_strlit("/gban");
        reveal_strlit("/ungban");
        reveal_strlit("/gbanstat");
    }
    lemma_no_space_or_at(t, bot_name);
    lemma_handler_of_sound(t);
    lemma_handler_text_injective(spec_handler_of(t).unwrap(), h);
}

} // verus!
