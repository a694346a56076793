use grpmr::custom_types::BlacklistMode;
use grpmr::disable::{
    check_command_disabled, decide_disable, decide_enable, is_command_disabled,
    needs_disabled_list, DisableCmd,
};
use grpmr::filters::{
    blacklist_actions, blacklist_added_text, blacklist_applies, blacklist_candidate,
    blacklist_text, contains_word, decide_blacklist, decide_blacklist_mode, decide_filter,
    decide_remove_blacklist, decide_remove_filter, extract_filter_text, filter_list_text,
    filter_reply_of, first_arg, get_filter_type, mode_needs_delete, word_argument, word_log,
    BlacklistAction, FilterCmd, FilterReply, ModeCmd, WordCommand, WordEvent,
};
use grpmr::model::{Member, MemberStatus, MessageContent, TgUser};

fn strings(v: &[&str]) -> Vec<String> {
    v.iter().map(|s| s.to_string()).collect()
}

fn content() -> MessageContent {
    MessageContent {
        text: None,
        caption: None,
        audio: None,
        document: None,
        document_mime: None,
        photo: None,
        video: None,
        animation: None,
        voice: None,
        sticker: None,
        sticker_emoji: None,
    }
}

fn user(id: i64, first: &str, username: Option<&str>) -> TgUser {
    TgUser {
        id,
        is_bot: false,
        first_name: first.to_string(),
        last_name: None,
        username: username.map(String::from),
    }
}

fn bot(restrict: bool, delete: bool) -> Member {
    Member {
        user: user(100, "Bot", Some("grpmr_bot")),
        status: MemberStatus::Administrator,
        can_be_edited: false,
        can_manage_chat: true,
        can_change_info: false,
        can_post_messages: false,
        can_delete_messages: delete,
        can_invite_users: false,
        can_restrict_members: restrict,
        can_pin_messages: false,
        can_promote_members: false,
        can_send_messages: true,
        can_send_media_messages: true,
        can_send_other_messages: true,
        can_add_web_page_previews: true,
    }
}

#[test]
fn filter_type_of_messages() {
    let mut m = content();
    assert_eq!(get_filter_type(&m), "");
    m.photo = Some("ph".to_string());
    m.caption = Some("cap".to_string());
    assert_eq!(get_filter_type(&m), "photo");
    m.audio = Some("au".to_string());
    assert_eq!(get_filter_type(&m), "audio");
}

#[test]
fn filter_text_prefers_caption() {
    let mut m = content();
    m.text = Some("hello".to_string());
    assert_eq!(extract_filter_text(&m), Some("hello".to_string()));
    m.caption = Some("cap".to_string());
    assert_eq!(extract_filter_text(&m), Some("cap".to_string()));
    let mut s = content();
    s.sticker = Some("st".to_string());
    s.sticker_emoji = Some("😀".to_string());
    assert_eq!(extract_filter_text(&s), Some("😀".to_string()));
    assert_eq!(extract_filter_text(&content()), None);
}

#[test]
fn filter_saved_from_text_arguments() {
    match decide_filter(-5, &strings(&["hi", "hello", "there"]), &None) {
        FilterCmd::Save { record, reply, log } => {
            assert!(log);
            assert_eq!(record.chat_id, -5);
            assert_eq!(record.filter, "hi");
            assert_eq!(record.reply, "hello there");
            assert_eq!(record.f_type, "text");
            assert_eq!(record.caption, None);
            assert_eq!(reply, "Saved filter <code>'hi'</code>");
        }
        _ => panic!("expected a save"),
    }
}

#[test]
fn filter_saved_from_replied_media_answers_in_kind() {
    let mut m = content();
    m.photo = Some("PHOTO_ID".to_string());
    m.caption = Some("look".to_string());
    match decide_filter(-5, &strings(&["pic"]), &Some(m)) {
        FilterCmd::Save { record, reply, log } => {
            assert!(!log);
            assert_eq!(record.reply, "PHOTO_ID");
            assert_eq!(record.f_type, "photo");
            assert_eq!(record.caption, Some("look".to_string()));
            assert_eq!(reply, "Saved filter <code>'pic'</code>");
            match filter_reply_of(&record.f_type, record.reply, record.caption) {
                FilterReply::Photo { file_id, caption } => {
                    assert_eq!(file_id, "PHOTO_ID");
                    assert_eq!(caption, "look");
                }
                _ => panic!("expected a photo"),
            }
        }
        _ => panic!("expected a save"),
    }
}

#[test]
fn filter_refusals() {
    match decide_filter(-5, &Vec::new(), &None) {
        FilterCmd::Reply(s) => assert_eq!(s, "Give me some keyword to filter"),
        _ => panic!("expected a reply"),
    }
    match decide_filter(-5, &strings(&["k"]), &None) {
        FilterCmd::Reply(s) => assert_eq!(s, "Give me something to reply the filter with"),
        _ => panic!("expected a reply"),
    }
    match decide_filter(-5, &strings(&["k"]), &Some(content())) {
        FilterCmd::Reply(s) => assert_eq!(s, "This filter type is not supported"),
        _ => panic!("expected a reply"),
    }
}

#[test]
fn filter_replies_by_kind() {
    match filter_reply_of("text", "hello".to_string(), None) {
        FilterReply::Text(t) => assert_eq!(t, "hello"),
        _ => panic!("expected text"),
    }
    match filter_reply_of("sticker", "S".to_string(), Some("ignored".to_string())) {
        FilterReply::Sticker { file_id } => assert_eq!(file_id, "S"),
        _ => panic!("expected a sticker"),
    }
    match filter_reply_of("voice", "V".to_string(), None) {
        FilterReply::Voice { file_id, caption } => {
            assert_eq!(file_id, "V");
            assert_eq!(caption, "");
        }
        _ => panic!("expected a voice"),
    }
    assert!(matches!(filter_reply_of("bogus", "x".to_string(), None), FilterReply::Nothing));
}

#[test]
fn filter_lists_and_stops() {
    let fl = strings(&["a", "b"]);
    assert_eq!(filter_list_text("Grp", &fl), "<code>Filters in this group are</code>:\n- a\n- b");
    assert_eq!(filter_list_text("Grp", &Vec::new()), "No filters in Grp");
    assert_eq!(decide_remove_filter(&"b".to_string(), &fl), Ok("Filter <code>b</code> has been stopped.".to_string()));
    assert_eq!(
        decide_remove_filter(&"c".to_string(), &fl),
        Err("You haven't set any filter on that keyword".to_string())
    );
    assert!(contains_word(&fl, &"a".to_string()));
    assert!(!contains_word(&fl, &"A".to_string()));
    assert_eq!(first_arg(&fl, "ask"), Ok("a".to_string()));
    assert_eq!(first_arg(&Vec::new(), "ask"), Err("ask".to_string()));
}

#[test]
fn word_logs() {
    let admin = TgUser {
        id: 7,
        is_bot: false,
        first_name: "Ad".to_string(),
        last_name: None,
        username: None,
    };
    assert_eq!(
        word_log(WordEvent::BlacklistRemoved, "G", &admin, "w<"),
        "Chat title: <code>G</code>\n#BLACKLIST_REMOVED\nAdmin: <a href=\"tg://user?id=7\">Ad</a>\nWord: <code>w&lt;</code>"
    );
}

#[test]
fn blacklist_words() {
    let words = strings(&["x", "y"]);
    assert_eq!(blacklist_text(&words), "The blacklist words in the chat are\n <code>- x\n -y</code>");
    assert_eq!(blacklist_text(&Vec::new()), "No blacklist set in this chat");
    assert_eq!(
        blacklist_added_text("x", "kick"),
        "Added blacklist x. The blacklist mode in the chat is <code>kick</code>"
    );
    let b = decide_blacklist(-5, &"x".to_string());
    assert_eq!((b.chat_id, b.filter.as_str()), (-5, "x"));
    match decide_remove_blacklist(-5, &"y".to_string(), &words) {
        Ok((b, s)) => {
            assert_eq!(b.filter, "y");
            assert_eq!(s, "Blacklist y has been removed");
        }
        Err(_) => panic!("expected a removal"),
    }
    assert_eq!(
        decide_remove_blacklist(-5, &"z".to_string(), &words).err().unwrap(),
        "This word isn't blacklisted here!"
    );
    assert!(mode_needs_delete("delete"));
    assert!(!mode_needs_delete("ban"));
}

#[test]
fn blacklist_modes() {
    match decide_blacklist_mode(-5, "kick", &bot(true, false)) {
        ModeCmd::Store { record, reply } => {
            assert_eq!(record.kind, "kick");
            assert_eq!(reply, "The blacklist mode is set to <i>kick</i> that means if you use the blacklisted word you will be kicked from the group");
        }
        _ => panic!("expected a store"),
    }
    match decide_blacklist_mode(-5, "delete", &bot(true, false)) {
        ModeCmd::Reply(s) => assert_eq!(s, "I can't delete messages here please give me the permission to do so"),
        _ => panic!("expected a reply"),
    }
    match decide_blacklist_mode(-5, "ban", &bot(false, true)) {
        ModeCmd::Reply(s) => assert_eq!(s, "I can't restrict people here please give me the permission to do so"),
        _ => panic!("expected a reply"),
    }
    match decide_blacklist_mode(-5, "nuke", &bot(true, true)) {
        ModeCmd::Reply(s) => assert_eq!(s, "Invalid blacklist mode"),
        _ => panic!("expected a reply"),
    }
}

#[test]
fn blacklist_acts_on_members_only() {
    assert_eq!(blacklist_candidate(Some(5), true, 100), Some(5));
    assert_eq!(blacklist_candidate(Some(100), true, 100), None);
    assert_eq!(blacklist_candidate(Some(5), false, 100), None);
    assert_eq!(blacklist_candidate(None, true, 100), None);
    assert!(blacklist_applies(Some(5), true, 100, false));
    assert!(!blacklist_applies(Some(5), true, 100, true));
}

#[test]
fn blacklist_actions_per_mode() {
    let u = user(5, "Eve", Some("eve"));
    let words = strings(&["bad", "worse"]);
    let acts = blacklist_actions(BlacklistMode::Ban, &bot(true, true), &u, &words);
    assert_eq!(acts.len(), 2);
    match &acts[0] {
        BlacklistAction::Ban { reply } => assert_eq!(reply, "User@eve has been banned for using blacklisted word <code>bad</code>"),
        _ => panic!("expected a ban"),
    }
    let acts = blacklist_actions(BlacklistMode::Kick, &bot(true, true), &u, &words);
    match &acts[1] {
        BlacklistAction::Kick { reply } => assert_eq!(reply, "User @eve has been kicked for using the blacklisted word worse"),
        _ => panic!("expected a kick"),
    }
    let acts = blacklist_actions(BlacklistMode::Warn, &bot(true, true), &u, &words);
    match &acts[0] {
        BlacklistAction::Warn { reason } => assert_eq!(reason, "Use of blacklisted word bad"),
        _ => panic!("expected a warn"),
    }
    assert_eq!(blacklist_actions(BlacklistMode::Delete, &bot(true, false), &u, &words).len(), 0);
    assert_eq!(blacklist_actions(BlacklistMode::Delete, &bot(false, true), &u, &words).len(), 2);
    assert_eq!(blacklist_actions(BlacklistMode::Error, &bot(true, true), &u, &words).len(), 0);
}

#[test]
fn disable_then_disabled_and_enable_undoes() {
    let list = strings(&["ud"]);
    match decide_disable(-5, &strings(&["PASTE"]), list) {
        DisableCmd::Store { record, reply } => {
            assert_eq!(record.disabled_commands, strings(&["ud", "paste"]));
            assert_eq!(reply, "Command paste has been disabled");
            assert!(is_command_disabled(&record.disabled_commands, "paste"));
            assert_eq!(
                check_command_disabled(true, &record.disabled_commands, "paste"),
                Err("This command is disabled".to_string())
            );
            assert_eq!(check_command_disabled(false, &record.disabled_commands, "paste"), Ok(()));
            match decide_enable(-5, &strings(&["paste"]), record.disabled_commands) {
                DisableCmd::Store { record, reply } => {
                    assert_eq!(record.disabled_commands, strings(&["ud"]));
                    assert_eq!(reply, "This command is enabled and ready to use here");
                }
                _ => panic!("expected a store"),
            }
        }
        _ => panic!("expected a store"),
    }
}

#[test]
fn disable_refusals() {
    match decide_disable(-5, &strings(&["ban"]), Vec::new()) {
        DisableCmd::Reply(s) => assert_eq!(s, "This command Can't be disabled!"),
        _ => panic!("expected a reply"),
    }
    match decide_disable(-5, &Vec::new(), Vec::new()) {
        DisableCmd::Reply(s) => assert_eq!(s, "What should I disable"),
        _ => panic!("expected a reply"),
    }
    match decide_enable(-5, &strings(&["ud"]), Vec::new()) {
        DisableCmd::Reply(s) => assert_eq!(s, "Try enabling something which was disabled"),
        _ => panic!("expected a reply"),
    }
    assert!(needs_disabled_list(true, "ud"));
    assert!(!needs_disabled_list(false, "ud"));
    assert!(!needs_disabled_list(true, "ban"));
}

#[test]
fn word_commands_ask_for_their_word() {
    assert_eq!(
        word_argument(&Vec::new(), WordCommand::Stop),
        Err("Mention some filter keyword to stop".to_string())
    );
    assert_eq!(
        word_argument(&Vec::new(), WordCommand::Blacklist),
        Err("What should I blacklist".to_string())
    );
    assert_eq!(
        word_argument(&Vec::new(), WordCommand::Unblacklist),
        Err("Mention some blacklist to remove".to_string())
    );
    assert_eq!(
        word_argument(&Vec::new(), WordCommand::BlacklistMode),
        Err("Mention a blacklist mode".to_string())
    );
    assert_eq!(
        word_argument(&strings(&["spam", "eggs"]), WordCommand::Blacklist),
        Ok("spam".to_string())
    );
}

fn stored(cmd: DisableCmd, list: Vec<String>) -> Vec<String> {
    match cmd {
        DisableCmd::Store { record, .. } => record.disabled_commands,
        DisableCmd::Reply(_) => list,
    }
}

#[test]
fn disabled_command_stays_disabled_until_enabled() {
    let mut list: Vec<String> = Vec::new();
    list = stored(decide_disable(-5, &strings(&["ud"]), list.clone()), list);
    list = stored(decide_disable(-5, &strings(&["paste"]), list.clone()), list);
    list = stored(decide_enable(-5, &strings(&["paste"]), list.clone()), list);
    list = stored(decide_disable(-5, &strings(&["kickme"]), list.clone()), list);
    list = stored(decide_enable(-5, &strings(&["start"]), list.clone()), list);
    assert_eq!(check_command_disabled(true, &list, "ud"), Err("This command is disabled".to_string()));
    assert_eq!(check_command_disabled(true, &list, "paste"), Ok(()));
    assert_eq!(check_command_disabled(false, &list, "ud"), Ok(()));
    list = stored(decide_enable(-5, &strings(&["UD"]), list.clone()), list);
    assert_eq!(check_command_disabled(true, &list, "ud"), Ok(()));
}
