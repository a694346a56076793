use grpmr::model::{Member, MemberStatus, TgUser};
use grpmr::patterns::{is_unwarn_request, matching_words, unwarn_data, word_pattern};
use grpmr::permissions::BotConfig;
use grpmr::settings::{
    blacklist_mode_setting, disabled_setting, gbanstat_setting, report_setting, softwarn_setting,
    warn_count_setting, warn_limit_setting,
};
use grpmr::warnings::{
    chat_limit_text, decide_reset_warns, decide_unwarn, decide_warn, decide_warn_limit,
    decide_warnmode, member_warns_text, unwarn_button, unwarn_label, warn_precheck, ResetOutcome, SettingCmd,
    UnwarnOutcome, WarnOutcome,
};

fn user(id: i64, first: &str, username: Option<&str>) -> TgUser {
    TgUser {
        id,
        is_bot: false,
        first_name: first.to_string(),
        last_name: None,
        username: username.map(String::from),
    }
}

fn member(id: i64, status: MemberStatus) -> Member {
    let admin = status == MemberStatus::Creator || status == MemberStatus::Administrator;
    Member {
        user: user(id, "Eve", Some("eve")),
        status,
        can_be_edited: false,
        can_manage_chat: admin,
        can_change_info: admin,
        can_post_messages: admin,
        can_delete_messages: admin,
        can_invite_users: admin,
        can_restrict_members: admin,
        can_pin_messages: admin,
        can_promote_members: admin,
        can_send_messages: true,
        can_send_media_messages: true,
        can_send_other_messages: true,
        can_add_web_page_previews: true,
    }
}

fn strings(v: &[&str]) -> Vec<String> {
    v.iter().map(|s| s.to_string()).collect()
}

#[test]
fn warn_below_limit_counts_one_more() {
    match decide_warn(-100, 50, "spam".to_string(), 1, 3, false, &Some(member(50, MemberStatus::Member))) {
        WarnOutcome::Warned { record, reply, button_data } => {
            assert_eq!(record.chat_id, -100);
            assert_eq!(record.user_id, 50);
            assert_eq!(record.reason, "spam");
            assert_eq!(record.count, 2);
            assert_eq!(reply, "Warned @eve(2\\3)\nReason:spam");
            assert_eq!(button_data, "rm_warn(-100,50)");
        }
        _ => panic!("expected a warn"),
    }
}

#[test]
fn warn_reaching_limit_still_counts() {
    match decide_warn(-100, 50, "x".to_string(), 2, 3, false, &Some(member(50, MemberStatus::Member))) {
        WarnOutcome::Warned { record, reply, .. } => {
            assert_eq!(record.count, 3);
            assert_eq!(reply, "Warned @eve(3\\3)\nReason:x");
        }
        _ => panic!("expected a warn"),
    }
}

#[test]
fn warn_over_limit_bans_or_kicks() {
    match decide_warn(-100, 50, "x".to_string(), 3, 3, false, &Some(member(50, MemberStatus::Member))) {
        WarnOutcome::LimitReached { user_id, unban, reply } => {
            assert_eq!(user_id, 50);
            assert!(!unban);
            assert_eq!(reply, "That's it get out (4\\3) warns, User has been banned!");
        }
        _ => panic!("expected the limit"),
    }
    match decide_warn(-100, 50, "x".to_string(), 5, 3, true, &Some(member(50, MemberStatus::Member))) {
        WarnOutcome::LimitReached { unban, reply, .. } => {
            assert!(unban);
            assert_eq!(reply, "That's it get out (6\\3) warns, User has been kicked!");
        }
        _ => panic!("expected the limit"),
    }
    match decide_warn(-100, 50, "x".to_string(), 0, 3, true, &None) {
        WarnOutcome::Reply(s) => assert_eq!(s, "Can't get info about the user"),
        _ => panic!("expected a reply"),
    }
}

#[test]
fn warn_prechecks() {
    let cfg = BotConfig { owner_id: 1, sudo_users: vec![] };
    assert_eq!(
        warn_precheck(&cfg, 100, 100, &None).unwrap(),
        "I am not gonna warn myself fella! Try using your brain next time!"
    );
    assert_eq!(
        warn_precheck(&cfg, 100, 1, &None).unwrap(),
        "I am not gonna warn an admin here!"
    );
    assert_eq!(
        warn_precheck(&cfg, 100, 50, &Some(member(50, MemberStatus::Administrator))).unwrap(),
        "I am not gonna warn an admin here!"
    );
    assert!(warn_precheck(&cfg, 100, 50, &Some(member(50, MemberStatus::Member))).is_none());
}

#[test]
fn unwarn_button_press() {
    let admin = user(7, "Ad", Some("ad"));
    match decide_unwarn(MemberStatus::Administrator, &admin, 2) {
        UnwarnOutcome::Remove { new_count, text } => {
            assert_eq!(new_count, 1);
            assert_eq!(text, "Warn Removed by @ad");
        }
        _ => panic!("expected a removal"),
    }
    match decide_unwarn(MemberStatus::Creator, &admin, 0) {
        UnwarnOutcome::AlreadyRemoved(s) => assert_eq!(s, "Warn is alredy removed"),
        _ => panic!("expected already removed"),
    }
    assert!(matches!(decide_unwarn(MemberStatus::Member, &admin, 2), UnwarnOutcome::Ignore));
}

#[test]
fn unwarn_after_warn_restores_count() {
    match decide_warn(-1, 50, "r".to_string(), 0, 3, false, &Some(member(50, MemberStatus::Member))) {
        WarnOutcome::Warned { record, .. } => {
            match decide_unwarn(MemberStatus::Creator, &user(7, "Ad", None), record.count as i64) {
                UnwarnOutcome::Remove { new_count, .. } => assert_eq!(new_count, 0),
                _ => panic!("expected a removal"),
            }
        }
        _ => panic!("expected a warn"),
    }
}

#[test]
fn unwarn_button_label() {
    assert_eq!(unwarn_label(), "Remove Warn");
}

#[test]
fn button_data_reads_back() {
    for (c, u) in [(-1001234567890i64, 42i64), (5, -6), (0, 0)] {
        let d = unwarn_button(c, u);
        assert_eq!(unwarn_data(&d), Some((c, u)));
        assert_eq!(is_unwarn_request(&d), Some(true));
    }
    assert_eq!(unwarn_data("rm_warn(a,1)"), None);
    assert_eq!(unwarn_data("nothing"), None);
    assert_eq!(is_unwarn_request("nothing"), Some(false));
}

#[test]
fn warn_settings_commands() {
    match decide_warn_limit(-5, &strings(&["4"])) {
        SettingCmd::Store { record, reply } => {
            assert_eq!(record.chat_id, -5);
            assert_eq!(record.limit, 4);
            assert_eq!(reply, "Warn limit set to 4");
        }
        _ => panic!("expected a store"),
    }
    match decide_warn_limit(-5, &strings(&["four"])) {
        SettingCmd::Reply(s) => assert_eq!(s, "Send a proper warn limit you idiot!"),
        _ => panic!("expected a reply"),
    }
    match decide_warn_limit(-5, &Vec::new()) {
        SettingCmd::Reply(s) => assert_eq!(s, "Send proper warn limit"),
        _ => panic!("expected a reply"),
    }
    match decide_warnmode(-5, &strings(&["SMOOTH"])) {
        SettingCmd::Store { record, .. } => assert!(record.softwarn),
        _ => panic!("expected a store"),
    }
    match decide_warnmode(-5, &strings(&["hard"])) {
        SettingCmd::Store { record, reply } => {
            assert!(!record.softwarn);
            assert_eq!(reply, "Warnmode is set to hard. I will ban the chat members when their warn exceeds the limit");
        }
        _ => panic!("expected a store"),
    }
    match decide_warnmode(-5, &strings(&["odd"])) {
        SettingCmd::Reply(s) => assert_eq!(s, "Invalid warnmode available one's are (soft/strong),(strong/hard)"),
        _ => panic!("expected a reply"),
    }
}

#[test]
fn reset_and_show_warns() {
    match decide_reset_warns(2, &Some(member(50, MemberStatus::Member))) {
        ResetOutcome::Reset(s) => assert_eq!(s, "Warns has been reset for the user @eve"),
        _ => panic!("expected a reset"),
    }
    match decide_reset_warns(0, &Some(member(50, MemberStatus::Member))) {
        ResetOutcome::Reply(s) => assert_eq!(s, "User was not warned even once"),
        _ => panic!("expected a reply"),
    }
    match decide_reset_warns(3, &None) {
        ResetOutcome::Reply(s) => assert_eq!(s, "This user is not in the chat I can't unwarn him "),
        _ => panic!("expected a reply"),
    }
    assert_eq!(
        chat_limit_text("Grp", 3),
        "The chat Grp has warn limit of 3 when the warns exceed the limit the user will be banned from the group"
    );
    assert_eq!(member_warns_text(50, &user(50, "Eve", None), 0, 3), "This user got no warnings");
    assert_eq!(
        member_warns_text(50, &user(50, "Eve", None), 2, 3),
        "User <a href=\"tg://user?id=50\">Eve</a> got 2/3 warnings"
    );
}

#[test]
fn settings_defaults() {
    let (on, rec) = gbanstat_setting(-5, None);
    assert!(on);
    assert!(rec.unwrap().is_on);
    assert_eq!(gbanstat_setting(-5, Some(false)).0, false);
    let (soft, rec) = softwarn_setting(-5, None);
    assert!(!soft);
    assert!(!rec.unwrap().softwarn);
    let (limit, rec) = warn_limit_setting(-5, None);
    assert_eq!(limit, 3);
    assert_eq!(rec.unwrap().limit, 3);
    assert_eq!(warn_limit_setting(-5, Some(7)).0, 7);
    assert_eq!(warn_count_setting(None), 0);
    assert_eq!(warn_count_setting(Some(4)), 4);
    let (mode, rec) = blacklist_mode_setting(-5, None);
    assert_eq!(mode, "delete");
    assert_eq!(rec.unwrap().kind, "delete");
    let (list, rec) = disabled_setting(-5, None);
    assert!(list.is_empty());
    assert!(rec.unwrap().disabled_commands.is_empty());
    assert!(report_setting(Some(true)));
    assert!(!report_setting(None));
}

#[test]
fn word_patterns_find_whole_words() {
    assert_eq!(word_pattern("a.b"), "( |^|[^\\w])a\\.b( |$|[^\\w])");
    let words = strings(&["spam", "Eggs", "x+y"]);
    assert_eq!(matching_words(&words, "no SPAM here"), Some(strings(&["spam"])));
    assert_eq!(matching_words(&words, "spammer eggs"), Some(strings(&["Eggs"])));
    assert_eq!(matching_words(&words, "so x+y!"), Some(strings(&["x+y"])));
    assert_eq!(matching_words(&words, "nothing"), Some(Vec::new()));
}
