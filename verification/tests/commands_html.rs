use grpmr::commands::{command_word, Command, CommandError};
use grpmr::dispatch::{route, Handler};
use grpmr::html::{bot_name, char_index, command_args};
use grpmr::model::TgUser;
use grpmr::permissions::BotConfig;
use grpmr::start::{help_reply, start_reply};
use grpmr::sudo::{decide_leave, LeaveCmd};
use grpmr::user::{info_text, private_chat_id_reply};

fn user(id: i64, first: &str, last: Option<&str>, username: Option<&str>) -> TgUser {
    TgUser {
        id,
        is_bot: false,
        first_name: first.to_string(),
        last_name: last.map(String::from),
        username: username.map(String::from),
    }
}

fn cfg() -> BotConfig {
    BotConfig { owner_id: 1, sudo_users: vec![2, 3] }
}

#[test]
fn descriptions_list_every_command() {
    let d = Command::descriptions();
    assert!(d.starts_with("These commands are supported:\n/ban - Ban a user\n"));
    assert!(d.ends_with("/invitelink - Get's the invite link of the chat\n"));
    assert_eq!(d.lines().count(), 16);
    assert!(d.contains("\n/id - Send's user's or chat's ID\n"));
}

#[test]
fn command_parse_reads_commands() {
    assert_eq!(Command::parse("/ban@grpmr_bot 12 spam", "grpmr_bot").unwrap(), Command::Ban);
    assert_eq!(Command::parse("/kickme", "grpmr_bot").unwrap(), Command::Kickme);
    match Command::parse("/ban@other_bot", "grpmr_bot") {
        Err(CommandError::WrongBotName(n)) => assert_eq!(n, "other_bot"),
        _ => panic!("expected a wrong bot name"),
    }
    match Command::parse("/frobnicate now", "grpmr_bot") {
        Err(CommandError::UnknownCommand(c)) => assert_eq!(c, "/frobnicate"),
        _ => panic!("expected an unknown command"),
    }
}

#[test]
fn every_command_text_reads_back() {
    for c in Command::all() {
        assert_eq!(Command::parse(c.text(), "any_bot").unwrap(), c);
    }
}

#[test]
fn command_word_splits_at_space_and_at_sign() {
    assert_eq!(command_word("/warn@grpmr_bot@x 1", "grpmr_bot"), Ok("/warn".to_string()));
    assert_eq!(command_word("/warn@x 1", "grpmr_bot"), Err("x".to_string()));
    assert_eq!(command_word("hello", "grpmr_bot"), Ok("hello".to_string()));
}

#[test]
fn route_reaches_handlers() {
    assert_eq!(route("/tban 5 1h", "grpmr_bot"), Some(Handler::Tban));
    assert_eq!(route("/resetwarns@grpmr_bot", "grpmr_bot"), Some(Handler::Resetwarns));
    assert_eq!(route("/paste", "grpmr_bot"), Some(Handler::Paste));
    assert_eq!(route("/paste@someone_else", "grpmr_bot"), None);
    assert_eq!(route("/nothing", "grpmr_bot"), None);
    assert_eq!(route("plain text", "grpmr_bot"), None);
}

#[test]
fn command_args_reads_arguments() {
    assert_eq!(bot_name(), "grpmr_bot");
    assert_eq!(command_args("/warn  42 being rude", "grpmr_bot"), Some(vec!["42".to_string(), "being".to_string(), "rude".to_string()]));
    assert_eq!(command_args("/warn@grpmr_bot", "grpmr_bot"), Some(Vec::new()));
    assert_eq!(command_args("/warn@other 1", "grpmr_bot"), None);
    assert_eq!(command_args("warn 1", "grpmr_bot"), None);
}

#[test]
fn char_index_finds_first() {
    assert_eq!(char_index("a@b@c", '@'), 1);
    assert_eq!(char_index("abc", '@'), 3);
}

#[test]
fn start_greets_in_private() {
    let u = user(10, "Ann", None, Some("ann"));
    assert_eq!(
        start_reply(true, &u),
        "Hello @ann! Hope you are doing well\n Send /help to know about available commands"
    );
    assert_eq!(start_reply(false, &u), "I am alive boss!");
    let v = user(11, "Bob", Some("<B>"), None);
    assert_eq!(
        start_reply(true, &v),
        "Hello <a href=\"tg://user/?id=11\">Bob &lt;B&gt;</a>! Hope you are doing well\n Send /help to know about available commands"
    );
}

#[test]
fn help_only_in_private() {
    assert_eq!(help_reply(true), "This command is meant to be used in private");
    assert_eq!(help_reply(false), Command::descriptions());
}

#[test]
fn info_card_of_owner() {
    let u = user(1, "Ann", Some("Lee"), Some("ann"));
    assert_eq!(
        info_text(&cfg(), &u),
        "<b>User info</b>:\nID:<code>1</code>\nFirst Name: Ann\nLast Name: Lee\nUsername: @ann\nPermanent Link: <a href=\"tg://user?id=1\">link</a>\n\n<i>Note:-This user is my owner I will always be loyal to him</i>"
    );
}

#[test]
fn info_card_of_sudo_and_plain_user() {
    let s = user(3, "Sam", None, None);
    assert_eq!(
        info_text(&cfg(), &s),
        "<b>User info</b>:\nID:<code>3</code>\nFirst Name: Sam\nPermanent Link: <a href=\"tg://user?id=3\">link</a>\n\n<i>Note:-This is one of my sudo users as powerful as my owner beware</i>"
    );
    let p = user(9, "Pat", None, None);
    assert_eq!(
        info_text(&cfg(), &p),
        "<b>User info</b>:\nID:<code>9</code>\nFirst Name: Pat\nPermanent Link: <a href=\"tg://user?id=9\">link</a>"
    );
}

#[test]
fn info_link_keeps_full_id() {
    let big = user(4294967297, "Big", None, None);
    let t = info_text(&cfg(), &big);
    assert!(t.contains("ID:<code>4294967297</code>"));
    assert!(t.contains("<a href=\"tg://user?id=4294967297\">link</a>"));
}

#[test]
fn id_of_private_chat() {
    assert_eq!(
        private_chat_id_reply(7, &Some(Some("Al & Co".to_string()))),
        Some("<a href=\"tg://user?id=7\">Al &amp; Co</a>'s ID is <code>7</code>".to_string())
    );
    assert_eq!(
        private_chat_id_reply(7, &Some(None)),
        Some("<a href=\"tg://user?id=7\"></a>'s ID is <code>7</code>".to_string())
    );
    assert_eq!(private_chat_id_reply(7, &None), None);
}

#[test]
fn leave_escapes_title() {
    match decide_leave(Some(Some("R&D <team>".to_string()))) {
        LeaveCmd::Leave { owner_message } => {
            assert_eq!(owner_message, "I have left <code>R&amp;D &lt;team&gt;</code> boss")
        }
        _ => panic!("expected to leave"),
    }
    match decide_leave(None) {
        LeaveCmd::Reply(s) => assert_eq!(
            s,
            "Either you gave me a non-valid chat id or I have been kicked from that group"
        ),
        _ => panic!("expected a reply"),
    }
    match decide_leave(Some(None)) {
        LeaveCmd::Reply(s) => assert_eq!(
            s,
            "The chat id you provided belongs to some user I can only leave groups"
        ),
        _ => panic!("expected a reply"),
    }
}
