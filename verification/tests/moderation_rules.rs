use grpmr::custom_types::TimeUnit;
use grpmr::extract::{
    after_chat_check, after_username_lookup, extract_id_from_reply, plan_target, Entity,
    ReplyInfo, Target, TargetStep,
};
use grpmr::model::{Member, MemberStatus, TgUser};
use grpmr::moderation::{
    decide_ban, decide_kick, decide_kickme, decide_mute, decide_temp_ban, decide_temp_mute,
    decide_unban, decide_unmute, kickme_log, mod_log, required_target, LogEvent, ModAction,
};
use grpmr::permissions::{
    can_send_text, can_user_restrict, is_group, is_user_admin, is_user_restricted, owner_filter,
    require_admin_right, sudo_or_owner_filter, user_should_be_admin, user_should_be_creator,
    user_should_restrict, AdminRight, BotConfig,
};

const BOT: i64 = 100;

fn cfg() -> BotConfig {
    BotConfig { owner_id: 1, sudo_users: vec![2] }
}

fn user(id: i64, first: &str, username: Option<&str>) -> TgUser {
    TgUser {
        id,
        is_bot: false,
        first_name: first.to_string(),
        last_name: None,
        username: username.map(String::from),
    }
}

fn member(id: i64, status: MemberStatus) -> Member {
    let admin_rights = status == MemberStatus::Creator;
    let can_send = status == MemberStatus::Member || status == MemberStatus::Administrator
        || status == MemberStatus::Creator;
    Member {
        user: user(id, "Eve", Some("eve")),
        status,
        can_be_edited: false,
        can_manage_chat: admin_rights,
        can_change_info: admin_rights,
        can_post_messages: admin_rights,
        can_delete_messages: admin_rights,
        can_invite_users: admin_rights,
        can_restrict_members: admin_rights,
        can_pin_messages: admin_rights,
        can_promote_members: admin_rights,
        can_send_messages: can_send,
        can_send_media_messages: can_send,
        can_send_other_messages: can_send,
        can_add_web_page_previews: can_send,
    }
}

fn target(id: Option<i64>, text: Option<&str>) -> Target {
    Target { user_id: id, text: text.map(String::from) }
}

fn reply_text(a: ModAction) -> String {
    match a {
        ModAction::Reply(s) => s,
        _ => panic!("expected a reply"),
    }
}

#[test]
fn ban_plain_member() {
    match decide_ban(&cfg(), BOT, &target(Some(50), Some("spam")), &Some(member(50, MemberStatus::Member))) {
        ModAction::Ban { user_id, until, reply } => {
            assert_eq!(user_id, 50);
            assert_eq!(until, None);
            assert_eq!(reply, "<b>Banned</b>\n<b>User:</b>@eve\n\n<i>Reason:</i> spam");
        }
        _ => panic!("expected a ban"),
    }
    match decide_ban(&cfg(), BOT, &target(Some(50), None), &Some(member(50, MemberStatus::Member))) {
        ModAction::Ban { reply, .. } => {
            assert_eq!(reply, "<b>Banned</b>\n<b>User:</b>@eve\n\n<i>Reason:</i> None")
        }
        _ => panic!("expected a ban"),
    }
}

#[test]
fn ban_refusals() {
    let c = cfg();
    let m = Some(member(50, MemberStatus::Member));
    assert_eq!(reply_text(decide_ban(&c, BOT, &target(None, None), &m)), "No user was targeted");
    assert_eq!(
        reply_text(decide_ban(&c, BOT, &target(Some(BOT), None), &m)),
        "I am not gonna ban myself fella! Try using your brain next time!"
    );
    assert_eq!(
        reply_text(decide_ban(&c, BOT, &target(Some(2), None), &m)),
        "I am not gonna ban my owner or my sudo users"
    );
    assert_eq!(
        reply_text(decide_ban(&c, BOT, &target(Some(50), None), &None)),
        "I can't seem to get info for this user"
    );
    assert_eq!(
        reply_text(decide_ban(&c, BOT, &target(Some(50), None), &Some(member(50, MemberStatus::Kicked)))),
        "This user is already banned here!"
    );
    assert_eq!(
        reply_text(decide_ban(&c, BOT, &target(Some(50), None), &Some(member(50, MemberStatus::Creator)))),
        "I am not gonna ban an Admin Here!"
    );
}

#[test]
fn untouchable_targets_only_get_replies() {
    let c = cfg();
    for id in [BOT, 1, 2] {
        let t = target(Some(id), Some("1h"));
        let m = Some(member(id, MemberStatus::Member));
        assert!(matches!(decide_ban(&c, BOT, &t, &m), ModAction::Reply(_)));
        assert!(matches!(decide_temp_ban(&c, BOT, &t, &m, 1000), ModAction::Reply(_)));
        assert!(matches!(decide_mute(&c, BOT, &t, &m), ModAction::Reply(_)));
        assert!(matches!(decide_temp_mute(&c, BOT, &t, &m, 1000), ModAction::Reply(_)));
        assert!(matches!(decide_kick(&c, BOT, &t, &m), ModAction::Reply(_)));
    }
    let t = target(Some(60), Some("1h"));
    let creator = Some(member(60, MemberStatus::Creator));
    assert!(matches!(decide_kick(&c, BOT, &t, &creator), ModAction::Reply(_)));
    assert!(matches!(decide_temp_mute(&c, BOT, &t, &creator, 0), ModAction::Reply(_)));
}

#[test]
fn temp_ban_and_mute_times() {
    let c = cfg();
    let m = Some(member(50, MemberStatus::Member));
    match decide_temp_ban(&c, BOT, &target(Some(50), Some("2h")), &m, 1000) {
        ModAction::Ban { user_id, until, reply } => {
            assert_eq!(user_id, 50);
            assert_eq!(until, Some(1000 + 7200));
            assert_eq!(reply, "<b>Banned for <i>2 hours</i></b> ");
        }
        _ => panic!("expected a ban"),
    }
    match decide_temp_mute(&c, BOT, &target(Some(50), Some("30s")), &m, 5) {
        ModAction::Restrict { user_id, until, reply } => {
            assert_eq!(user_id, 50);
            assert_eq!(until, Some(35));
            assert_eq!(reply, "<b>Muted for <i>30 seconds</i></b> ");
        }
        _ => panic!("expected a restriction"),
    }
    assert_eq!(
        reply_text(decide_temp_ban(&c, BOT, &target(Some(50), Some("2y")), &m, 0)),
        "Please specify with proper unit: s,m,h,d"
    );
    assert_eq!(
        reply_text(decide_temp_ban(&c, BOT, &target(Some(50), None), &m, 0)),
        "Mention muting time in s,m,h,d"
    );
    assert!(matches!(
        decide_temp_ban(&c, BOT, &target(Some(50), Some("1d")), &m, u64::MAX),
        ModAction::TimeOverflow
    ));
    assert_eq!(
        reply_text(decide_temp_mute(&c, BOT, &target(Some(50), Some("1m")), &Some(member(50, MemberStatus::Left)), 0)),
        "This user is either left of banned from here there's no point of muting him"
    );
}

#[test]
fn mute_kick_unban_unmute() {
    let c = cfg();
    match decide_mute(&c, BOT, &target(Some(50), Some("flood")), &Some(member(50, MemberStatus::Member))) {
        ModAction::Restrict { user_id, until, reply } => {
            assert_eq!(user_id, 50);
            assert_eq!(until, None);
            assert_eq!(reply, "<b>Muted</b>\n<b>User:</b>@eve\n\n<i>Reason:</i> flood");
        }
        _ => panic!("expected a restriction"),
    }
    assert_eq!(
        reply_text(decide_mute(&c, BOT, &target(Some(50), None), &Some(member(50, MemberStatus::Restricted)))),
        "User is already restricted"
    );
    match decide_kick(&c, BOT, &target(Some(50), None), &Some(member(50, MemberStatus::Member))) {
        ModAction::Kick { user_id, reply } => {
            assert_eq!(user_id, 50);
            assert_eq!(reply, "<b>Kicked</b>\n<b>User:</b>@eve\n\n<i>Reason:</i> None");
        }
        _ => panic!("expected a kick"),
    }
    assert_eq!(
        reply_text(decide_kick(&c, BOT, &target(Some(50), None), &Some(member(50, MemberStatus::Left)))),
        "This user is already gone mate!"
    );
    match decide_unban(&target(Some(50), None), &Some(member(50, MemberStatus::Kicked))) {
        ModAction::Unban { user_id, reply } => {
            assert_eq!(user_id, 50);
            assert_eq!(reply, "<b>Unbanned!</b>");
        }
        _ => panic!("expected an unban"),
    }
    assert_eq!(
        reply_text(decide_unban(&target(Some(50), None), &Some(member(50, MemberStatus::Member)))),
        "This user is already unbanned!"
    );
    match decide_unmute(50, &member(50, MemberStatus::Restricted)) {
        ModAction::Unrestrict { user_id, reply } => {
            assert_eq!(user_id, 50);
            assert_eq!(reply, "<b>Unmuted</b>");
        }
        _ => panic!("expected an unmute"),
    }
    assert_eq!(reply_text(decide_unmute(50, &member(50, MemberStatus::Member))), "This user can already talk!");
}

#[test]
fn kickme_rules() {
    let c = cfg();
    let me = Some(user(50, "Eve", None));
    match decide_kickme(&c, &me, &Some(member(50, MemberStatus::Member))) {
        ModAction::Kick { user_id, reply } => {
            assert_eq!(user_id, 50);
            assert_eq!(reply, "<b>Piss off <a href=\"tg://user/?id=50\">Eve</a></b>");
        }
        _ => panic!("expected a kick"),
    }
    assert_eq!(
        reply_text(decide_kickme(&c, &Some(user(1, "Own", None)), &None)),
        "You are my owner or one of my sudo users mate I can't kick you"
    );
    assert_eq!(reply_text(decide_kickme(&c, &None, &None)), "Can't get the info about the user");
}

#[test]
fn logs_of_moderation() {
    let admin = TgUser {
        id: 7,
        is_bot: false,
        first_name: "Ad".to_string(),
        last_name: Some("Min".to_string()),
        username: None,
    };
    let u = user(50, "Eve", None);
    assert_eq!(
        mod_log(LogEvent::Banned, "Grp", &admin, 50, &u, &None),
        "Chat Title: <code>Grp</code>\n#BANNED\nAdmin: <a href=\"tg://user?id=7\">Ad Min</a>\nUser: <a href=\"tg://user?id=50\">Eve</a>"
    );
    assert_eq!(
        mod_log(LogEvent::TempMuted, "G&P", &admin, 50, &u, &Some(TimeUnit::Minutes(5))),
        "Chat title: <code>G&amp;P</code>\n#TEMP_MUTED\nAdmin: <a href=\"tg://user?id=7\">Ad Min</a>\nUser: <a href=\"tg://user?id=50\">Eve</a>\n For: <code>5 minutes</code>\n"
    );
    assert_eq!(
        kickme_log("Grp", 50, &u),
        "Chat id: <code>Grp</code>\n#KICKME\nUser: <a href=\"tg://user?id=50\">Eve</a>"
    );
}

#[test]
fn permission_checks() {
    let c = cfg();
    assert!(can_user_restrict(&c, 1, &None));
    assert!(!can_user_restrict(&c, 50, &Some(member(50, MemberStatus::Administrator))));
    assert!(can_user_restrict(&c, 50, &Some(member(50, MemberStatus::Creator))));
    assert!(is_user_admin(&c, 50, &Some(member(50, MemberStatus::Administrator))));
    assert!(!is_user_admin(&c, 50, &Some(member(50, MemberStatus::Member))));
    match user_should_restrict(&c, BOT, BOT, &Some(member(BOT, MemberStatus::Member))) {
        Err(d) => {
            assert_eq!(d.reply.unwrap(), "I can't restrict people here make sure you gave me proper rights to do so!!");
            assert_eq!(d.error, "User don't have the permission to restrict");
        }
        Ok(()) => panic!("expected a refusal"),
    }
    match user_should_be_admin(&c, BOT, 50, &None) {
        Err(d) => assert_eq!(d.reply.unwrap(), "You are not an admin here!"),
        Ok(()) => panic!("expected a refusal"),
    }
    match require_admin_right(&c, BOT, 50, &member(50, MemberStatus::Administrator), AdminRight::PinMessages) {
        Err(d) => {
            assert_eq!(d.reply.unwrap(), "You can't pin messages here! Missing can_pin_messages permissions");
            assert_eq!(d.error, "Can't pin messages because missing can_pin_messages permissions");
        }
        Ok(()) => panic!("expected a refusal"),
    }
    assert!(require_admin_right(&c, BOT, 2, &member(2, MemberStatus::Member), AdminRight::DeleteMessages).is_ok());
    assert!(user_should_be_creator(&member(5, MemberStatus::Creator)).is_ok());
    assert_eq!(
        user_should_be_creator(&member(5, MemberStatus::Administrator)).unwrap_err().reply.unwrap(),
        "This command can only be used by the chat creator"
    );
    assert_eq!(is_group(false).unwrap_err().reply.unwrap(), "This command can't be used in private");
    assert!(is_group(true).is_ok());
    assert!(owner_filter(&c, 1).is_ok());
    assert_eq!(owner_filter(&c, 2).unwrap_err().error, "This command only works for owner");
    assert!(sudo_or_owner_filter(&c, 2).is_ok());
    assert!(sudo_or_owner_filter(&c, 3).unwrap_err().reply.is_none());
    assert!(can_send_text(false, &member(5, MemberStatus::Restricted)));
    assert!(!can_send_text(true, &member(5, MemberStatus::Restricted)));
    assert!(is_user_restricted(false, &member(5, MemberStatus::Restricted)));
    assert!(!is_user_restricted(false, &member(5, MemberStatus::Member)));
}

#[test]
fn target_from_reply() {
    let t = extract_id_from_reply(&Some(ReplyInfo { from_id: Some(9), has_text: true }));
    assert_eq!(t.user_id, Some(9));
    assert_eq!(t.text, Some(String::new()));
    let t = extract_id_from_reply(&None);
    assert_eq!(t.user_id, None);
}

#[test]
fn target_plans() {
    let text = Some("/ban @Alice spamming a lot".to_string());
    match plan_target(&text, &Some(Vec::new()), &None) {
        TargetStep::LookupUsername { username, text } => {
            assert_eq!(username, "alice");
            assert_eq!(text, Some("spamming a lot".to_string()));
        }
        _ => panic!("expected a lookup"),
    }
    match plan_target(&Some("/ban 42 flood".to_string()), &Some(Vec::new()), &None) {
        TargetStep::CheckChat { user_id, text } => {
            assert_eq!(user_id, 42);
            assert_eq!(text, Some("flood".to_string()));
        }
        _ => panic!("expected a check"),
    }
    match plan_target(&Some("/ban".to_string()), &None, &Some(ReplyInfo { from_id: Some(8), has_text: false })) {
        TargetStep::Done(t) => {
            assert_eq!(t.user_id, Some(8));
            assert_eq!(t.text, None);
        }
        _ => panic!("expected a target"),
    }
    let mention = Entity { offset: 5, length: 3, mention_user: Some(77) };
    match plan_target(&Some("/ban Bob rude".to_string()), &Some(vec![mention]), &None) {
        TargetStep::CheckChat { user_id, text } => {
            assert_eq!(user_id, 77);
            assert_eq!(text, Some(" rude".to_string()));
        }
        _ => panic!("expected a check"),
    }
    let command = Entity { offset: 0, length: 4, mention_user: None };
    match plan_target(&Some("/ban Bob rude".to_string()), &Some(vec![command, mention]), &None) {
        TargetStep::CheckChat { user_id, text } => {
            assert_eq!(user_id, 77);
            assert_eq!(text, Some(" rude".to_string()));
        }
        _ => panic!("expected the mention after the command entity to be the target"),
    }
    let far = Entity { offset: 5, length: 30, mention_user: Some(77) };
    assert!(matches!(
        plan_target(&Some("/ban Bob rude".to_string()), &Some(vec![far]), &None),
        TargetStep::MentionOutOfRange
    ));
}

#[test]
fn target_lookups() {
    let (step, reply) = after_username_lookup(None, Some("x".to_string()));
    assert!(matches!(step, TargetStep::Done(Target { user_id: None, .. })));
    assert_eq!(reply.unwrap(), "Could not find a user by this name; are you sure I've seen them before?");
    let (step, reply) = after_username_lookup(Some(Some(5)), None);
    assert!(matches!(step, TargetStep::CheckChat { user_id: 5, .. }));
    assert!(reply.is_none());
    let (t, reply) = after_chat_check(false, 5, None);
    assert_eq!(t.user_id, None);
    assert!(reply.unwrap().starts_with("I don't seem to have interacted with this user before"));
    let (t, reply) = after_chat_check(true, 5, Some("r".to_string()));
    assert_eq!(t.user_id, Some(5));
    assert_eq!(t.text, Some("r".to_string()));
    assert!(reply.is_none());
}

#[test]
fn required_target_or_reply() {
    assert_eq!(required_target(&target(Some(4), None)), Ok(4));
    assert_eq!(required_target(&target(None, None)), Err("No user was targeted".to_string()));
}

#[test]
fn owner_and_sudo_pass_admin_checks() {
    let c = cfg();
    for id in [1, 2] {
        let m = member(id, MemberStatus::Left);
        assert!(is_user_admin(&c, id, &None));
        assert!(can_user_restrict(&c, id, &Some(member(id, MemberStatus::Member))));
        for right in [AdminRight::PinMessages, AdminRight::DeleteMessages, AdminRight::PromoteMembers, AdminRight::ChangeInfo] {
            assert!(require_admin_right(&c, BOT, id, &m, right).is_ok());
        }
    }
}
