use grpmr::admin::{
    adminlist_text, decide_invitelink, decide_pin, decide_report, decide_report_set,
    exported_link_reply, report_recipients, report_text, reported_reply, unpin_reply, InviteCmd,
    PinCmd, ReportCmd, ReportSetCmd,
};
use grpmr::chat::{
    chatpic_done_reply, chatpic_path, decide_chat_title, decide_chatpic, decide_chatpic_with,
    ChatPicStep, TitleOutcome,
};
use grpmr::custom_types::LockType;
use grpmr::deletion::{
    delete_command_failed_text, delete_failed_text, delete_target, purge_command_failed_text,
    purge_failed_text, purge_plan, purged_text,
};
use grpmr::extract::Target;
use grpmr::files::file_url;
use grpmr::locks::{
    decide_lock, lock_kind, locktypes_reply, needs_current, unmuted_permissions, LockOutcome,
    Permissions,
};
use grpmr::logs::{
    after_channel_check, decide_remove_log, log_failure_text, plan_log_channel, LogChannelStep,
};
use grpmr::misc::{
    invalid_file_reply, paste_api_url, paste_reply, plan_paste, plan_paste_with, ud_button_label,
    ud_no_result, ud_query, ud_reply, ud_reply_from, PasteStep,
};
use grpmr::model::{Member, MemberStatus, MessageContent, TgUser};
use grpmr::permissions::BotConfig;
use grpmr::sudo::{
    chatlist_text, decide_gban, decide_gbanstat, decide_ungban, gban_applies, gban_notice,
    gban_target, leavechat_target, sweep_bans, sweep_unbans, ungban_target, users_to_check,
    GbanCmd, GbanStatCmd, UngbanCmd,
};
use grpmr::user::{decide_id, info_not_found, info_source, Forward, IdStep, InfoSource, RepliedMessage};

fn strings(v: &[&str]) -> Vec<String> {
    v.iter().map(|s| s.to_string()).collect()
}

fn user(id: i64, first: &str, username: Option<&str>) -> TgUser {
    TgUser {
        id,
        is_bot: false,
        first_name: first.to_string(),
        last_name: None,
        username: username.map(String::from),
    }
}

fn member(id: i64, status: MemberStatus, post: bool) -> Member {
    Member {
        user: user(id, "Eve", Some("eve")),
        status,
        can_be_edited: false,
        can_manage_chat: false,
        can_change_info: false,
        can_post_messages: post,
        can_delete_messages: false,
        can_invite_users: false,
        can_restrict_members: false,
        can_pin_messages: false,
        can_promote_members: false,
        can_send_messages: true,
        can_send_media_messages: true,
        can_send_other_messages: true,
        can_add_web_page_previews: true,
    }
}

fn content() -> MessageContent {
    MessageContent {
        text: None,
        caption: None,
        audio: None,
        document: None,
        document_mime: None,
        photo: None,
        video: None,
        animation: None,
        voice: None,
        sticker: None,
        sticker_emoji: None,
    }
}

fn perms() -> Permissions {
    Permissions {
        can_send_messages: Some(true),
        can_send_media_messages: Some(true),
        can_send_polls: Some(true),
        can_send_other_messages: Some(true),
        can_add_web_page_previews: Some(true),
        can_change_info: Some(false),
        can_invite_users: Some(true),
        can_pin_messages: None,
    }
}

#[test]
fn lock_kind_from_arguments() {
    assert_eq!(lock_kind(&strings(&["GIF"]), true), Ok(LockType::Other));
    assert_eq!(lock_kind(&strings(&["poll"]), false), Ok(LockType::Poll));
    assert_eq!(lock_kind(&strings(&["x"]), true), Ok(LockType::Error));
    assert_eq!(lock_kind(&Vec::new(), true), Err("What should I lock?".to_string()));
    assert_eq!(lock_kind(&Vec::new(), false), Err("What should I unlock?".to_string()));
}

#[test]
fn lock_denies_and_unlock_grants() {
    match decide_lock(LockType::Media, true, &Some(Some(perms()))) {
        LockOutcome::Apply { perms: p, reply } => {
            assert_eq!(p.can_send_media_messages, Some(false));
            assert_eq!(p.can_send_other_messages, Some(false));
            assert_eq!(p.can_add_web_page_previews, Some(false));
            assert_eq!(p.can_send_messages, Some(true));
            assert_eq!(p.can_change_info, Some(false));
            assert_eq!(reply, "<b>Locked</b> media for non-admins");
            match decide_lock(LockType::Media, false, &Some(Some(p))) {
                LockOutcome::Apply { perms: q, reply } => {
                    assert_eq!(q.can_send_media_messages, Some(true));
                    assert_eq!(q.can_send_other_messages, Some(false));
                    assert_eq!(reply, "<b>Unlocked</b> media for non-admins");
                }
                _ => panic!("expected an unlock"),
            }
        }
        _ => panic!("expected a lock"),
    }
}

#[test]
fn lock_text_unsets_everything() {
    match decide_lock(LockType::Text, true, &Some(None)) {
        LockOutcome::Apply { perms: p, .. } => assert_eq!(p, Permissions::unset()),
        _ => panic!("expected a lock"),
    }
    let mut closed = Permissions::unset();
    closed.can_invite_users = Some(false);
    match decide_lock(LockType::Text, false, &Some(Some(closed))) {
        LockOutcome::Apply { perms: p, reply } => {
            assert_eq!(p.can_send_messages, Some(true));
            assert_eq!(p.can_send_polls, Some(true));
            assert_eq!(p.can_invite_users, Some(false));
            assert_eq!(reply, "<b>Unlocked</b> all messages for non-admins");
        }
        _ => panic!("expected an unlock"),
    }
}

#[test]
fn lock_refusals() {
    match decide_lock(LockType::Web, true, &None) {
        LockOutcome::Reply(s) => assert_eq!(s, "Can't get info about the chat"),
        _ => panic!("expected a reply"),
    }
    match decide_lock(LockType::Error, true, &Some(None)) {
        LockOutcome::Reply(s) => assert_eq!(s, "Invalid locktype, send /locktypes to see the available ones"),
        _ => panic!("expected a reply"),
    }
    assert_eq!(
        locktypes_reply(),
        "Following Locktypes are available: \n<code>all\ntext\nsticker\ngif\nurl\nweb\nmedia\npoll\n</code>"
    );
}

#[test]
fn chat_title_from_arguments_or_reply() {
    match decide_chat_title(&strings(&["New", "title"]), &None) {
        TitleOutcome::SetTitle { title, notice, reply } => {
            assert_eq!(title, "New title");
            assert!(notice.is_none());
            assert_eq!(reply, "Successfully set the chat title to '<code>New title</code>'");
        }
        _ => panic!("expected a title"),
    }
    let mut m = content();
    m.caption = Some("From caption".to_string());
    match decide_chat_title(&Vec::new(), &Some(m)) {
        TitleOutcome::SetTitle { title, .. } => assert_eq!(title, "From caption"),
        _ => panic!("expected a title"),
    }
    match decide_chat_title(&Vec::new(), &Some(content())) {
        TitleOutcome::Reply(s) => assert_eq!(s, "Title can't be empty"),
        _ => panic!("expected a reply"),
    }
    match decide_chat_title(&Vec::new(), &None) {
        TitleOutcome::Reply(s) => assert_eq!(s, "Provide me a title to set"),
        _ => panic!("expected a reply"),
    }
}

#[test]
fn chat_title_cut_to_limit() {
    let long = "a".repeat(300);
    match decide_chat_title(&vec![long], &None) {
        TitleOutcome::SetTitle { title, notice, .. } => {
            assert_eq!(title.len(), 255);
            assert_eq!(
                notice.unwrap(),
                "The text has more than 255 characters so truncating it to 255 characters"
            );
        }
        _ => panic!("expected a title"),
    }
}

#[test]
fn chat_title_counts_characters() {
    let wide = "é".repeat(200);
    match decide_chat_title(&vec![wide.clone()], &None) {
        TitleOutcome::SetTitle { title, notice, .. } => {
            assert_eq!(title, wide);
            assert!(notice.is_none());
        }
        _ => panic!("expected a title"),
    }
    let long = "é".repeat(300);
    match decide_chat_title(&vec![long], &None) {
        TitleOutcome::SetTitle { title, notice, .. } => {
            assert_eq!(title, "é".repeat(255));
            assert_eq!(
                notice.unwrap(),
                "The text has more than 255 characters so truncating it to 255 characters"
            );
        }
        _ => panic!("expected a title"),
    }
}

#[test]
fn chat_picture_steps() {
    let title = Some("Grp".to_string());
    let mut doc = content();
    doc.document = Some("DOC".to_string());
    doc.document_mime = Some("image/png".to_string());
    match decide_chatpic(&Some(doc), &title) {
        ChatPicStep::Download { file_id } => assert_eq!(file_id, "DOC"),
        _ => panic!("expected a download"),
    }
    let mut pdf = content();
    pdf.document = Some("DOC".to_string());
    pdf.document_mime = Some("application/pdf".to_string());
    match decide_chatpic(&Some(pdf), &title) {
        ChatPicStep::Reply(s) => assert_eq!(s, "This type is not supported"),
        _ => panic!("expected a reply"),
    }
    let mut photo = content();
    photo.photo = Some("PH".to_string());
    match decide_chatpic_with(&Some(photo), &title, &None) {
        ChatPicStep::Download { file_id } => assert_eq!(file_id, "PH"),
        _ => panic!("expected a download"),
    }
    let mut text = content();
    text.text = Some("t".to_string());
    match decide_chatpic(&Some(text), &title) {
        ChatPicStep::Reply(s) => assert_eq!(s, "Reply to an image to set it as chat picture"),
        _ => panic!("expected a reply"),
    }
    match decide_chatpic(&Some(content()), &None) {
        ChatPicStep::Reply(s) => assert_eq!(s, "This command can only be used in a group"),
        _ => panic!("expected a reply"),
    }
    match decide_chatpic(&None, &title) {
        ChatPicStep::Reply(s) => assert_eq!(s, "Reply to a picture to set it as a chat picture"),
        _ => panic!("expected a reply"),
    }
    assert_eq!(chatpic_done_reply("Grp"), "Chat picture updated for chat Grp");
    assert_eq!(chatpic_path(-1001234), "1001234.png");
    assert_eq!(chatpic_path(55), "55.png");
}

#[test]
fn log_channel_setting() {
    match plan_log_channel(false, None) {
        LogChannelStep::Reply(s) => assert!(s.starts_with("Add the bot to the channel")),
        _ => panic!("expected a reply"),
    }
    match plan_log_channel(true, None) {
        LogChannelStep::Reply(s) => assert!(s.starts_with("This message was not forwarded from a channel")),
        _ => panic!("expected a reply"),
    }
    assert!(matches!(plan_log_channel(true, Some(-1009)), LogChannelStep::CheckChannel(-1009)));
    let out = after_channel_check(-5, -1009, &Some(member(100, MemberStatus::Administrator, true)));
    let rec = out.record.unwrap();
    assert_eq!((rec.chat_id, rec.channel), (-5, -1009));
    assert_eq!(out.reply, "Added log channel for this chat\nThe channel id of the log channel is:<code>-1009</code>");
    let out = after_channel_check(-5, -1009, &Some(member(100, MemberStatus::Administrator, false)));
    assert!(out.record.is_none());
    assert_eq!(out.reply, "I can't post messages in the mentioned channel please give me permissions to do so");
    let out = after_channel_check(-5, -1009, &None);
    assert!(out.record.is_none());
    assert_eq!(out.reply, "Seems like I am not in the channel where the message was forwardeed from!");
    assert_eq!(decide_remove_log(&None).0, false);
    assert_eq!(log_failure_text("Bad <x>"), "Can't send the message into the log channel because of\n<code>Bad &lt;x&gt;</code>");
}

#[test]
fn deleting_and_purging() {
    assert_eq!(delete_target(Some(5)), Ok(5));
    assert_eq!(delete_target(None), Err("Reply to some message to delete it".to_string()));
    assert_eq!(purge_plan(Some(10), 14), Ok(vec![13, 12, 11, 10]));
    assert_eq!(purge_plan(Some(14), 14), Ok(Vec::new()));
    assert_eq!(purge_plan(None, 14), Err("Reply to some message to purge".to_string()));
    assert_eq!(purged_text(4), "Purged 4 messages");
    assert_eq!(delete_failed_text("e"), "Can't delete the message for the following reason\n<code>e</code>");
    assert_eq!(delete_command_failed_text("e"), "Can't delete the message for the following reason<code>e</code>");
    assert!(purge_failed_text("e").ends_with("Error Message: <code>e</code>"));
    assert_eq!(purge_command_failed_text("e"), "Error while deleting messages\n Error Message:<code>e</code>");
}

#[test]
fn dictionary_lookup() {
    let q = ud_query(&strings(&["big", "deal"])).unwrap();
    assert_eq!(q.term, "bigdeal");
    assert_eq!(q.url, "http://api.urbandictionary.com/v0/define?term=bigdeal");
    assert_eq!(ud_query(&Vec::new()).err().unwrap(), "Please enter a keyword to search");
    assert_eq!(
        ud_reply("yo", "a [greeting]", "[yo] man").unwrap(),
        "<b>Word:</b> yo\n<b>Definition:</b>\na greeting\n\n<i>Example:\nyo man</i>"
    );
    let long = "x".repeat(5000);
    assert_eq!(ud_reply("w", &long, "e").unwrap().len(), 4096);
    let wide = "é".repeat(5000);
    let cut = ud_reply("w", &wide, "e").unwrap();
    assert_eq!(cut.chars().count(), 4096);
    assert!(cut.starts_with("<b>Word:</b> w"));
    assert_eq!(ud_reply_from(&"€".repeat(4100)), "€".repeat(4096));
    assert_eq!(ud_reply_from("short"), "short");
    assert_eq!(ud_no_result(), "No result found for the keyword");
    assert_eq!(ud_button_label(), "Know More");
}

#[test]
fn paste_steps() {
    match plan_paste(&strings(&["a", "b"]), &None) {
        PasteStep::Paste(t) => assert_eq!(t, "a b"),
        _ => panic!("expected a paste"),
    }
    let mut txt = content();
    txt.text = Some("body".to_string());
    match plan_paste(&Vec::new(), &Some(txt)) {
        PasteStep::Paste(t) => assert_eq!(t, "body"),
        _ => panic!("expected a paste"),
    }
    let mut doc = content();
    doc.document = Some("F".to_string());
    doc.document_mime = Some("text/plain".to_string());
    match plan_paste(&Vec::new(), &Some(doc)) {
        PasteStep::Fetch { file_id, download } => {
            assert_eq!(file_id, "F");
            assert!(download);
        }
        _ => panic!("expected a fetch"),
    }
    let mut img = content();
    img.document = Some("F".to_string());
    img.document_mime = Some("image/jpeg".to_string());
    match plan_paste(&Vec::new(), &Some(img)) {
        PasteStep::Fetch { download, .. } => assert!(!download),
        _ => panic!("expected a fetch"),
    }
    let mut bin = content();
    bin.document = Some("F".to_string());
    match plan_paste_with(&Vec::new(), &Some(bin), &Some("octet-stream".to_string())) {
        PasteStep::Fetch { download, .. } => assert!(download),
        _ => panic!("expected a fetch"),
    }
    let mut photo = content();
    photo.photo = Some("P".to_string());
    match plan_paste(&Vec::new(), &Some(photo)) {
        PasteStep::Reply(s) => assert_eq!(s, "This file format is not supported"),
        _ => panic!("expected a reply"),
    }
    match plan_paste(&Vec::new(), &None) {
        PasteStep::Reply(s) => assert_eq!(s, "No data was provided to paste"),
        _ => panic!("expected a reply"),
    }
    assert_eq!(invalid_file_reply(), "Invalid file type");
    assert_eq!(paste_api_url(), "https://api.katb.in/api/paste");
    assert_eq!(
        paste_reply("Successfully created paste", &Some("abc".to_string())),
        Some(Ok("<b>I have pasted that for you</b>\n\nhttps://katb.in/abc".to_string()))
    );
    assert_eq!(paste_reply("Successfully created paste", &None), None);
    assert_eq!(paste_reply("Rate limited", &None), Some(Err("Rate limited".to_string())));
    assert_eq!(file_url("TOKEN", "docs/f.txt"), "https://api.telegram.org/file/botTOKEN/docs/f.txt");
}

#[test]
fn id_replies() {
    match decide_id(None, -100, &None) {
        IdStep::Reply { text, html } => {
            assert_eq!(text, "This chat has ID of <code>-100</code>");
            assert!(html);
        }
        _ => panic!("expected a reply"),
    }
    assert!(matches!(decide_id(Some(5), -100, &None), IdStep::LookupChat(5)));
    let fwd = RepliedMessage {
        from: Some(user(8, "Fwd", None)),
        forward: Some(Forward::User(user(9, "Orig", None))),
    };
    match decide_id(Some(8), -100, &Some(fwd)) {
        IdStep::Reply { text, .. } => assert_eq!(
            text,
            "The sender <a href=\"tg://user?id=9\">Orig</a> has ID <code>9</code> and the forwarder <a href=\"tg://user?id=8\">Orig</a> has ID <code>8</code>"
        ),
        _ => panic!("expected a reply"),
    }
    let hidden = RepliedMessage {
        from: Some(user(8, "Fwd", None)),
        forward: Some(Forward::SenderName("Ghost".to_string())),
    };
    match decide_id(Some(8), -100, &Some(hidden)) {
        IdStep::Reply { text, .. } => assert_eq!(text, "<a href=\"tg://user?id=8\">Fwd</a>'s ID is <code>8</code>"),
        _ => panic!("expected a reply"),
    }
    let gone = RepliedMessage { from: None, forward: None };
    match decide_id(Some(8), -100, &Some(gone)) {
        IdStep::Reply { text, html } => {
            assert_eq!(text, "This user's dead I can't get his ID");
            assert!(!html);
        }
        _ => panic!("expected a reply"),
    }
}

#[test]
fn info_sources() {
    assert!(matches!(info_source(Some(5), true, false, true, true), InfoSource::Member(5)));
    assert!(matches!(info_source(None, false, true, false, false), InfoSource::Sender));
    assert!(matches!(info_source(None, true, false, false, true), InfoSource::Sender));
    match info_source(None, true, false, true, true) {
        InfoSource::Reply(s) => assert_eq!(s, "This user is either dead or not in my database!"),
        _ => panic!("expected a reply"),
    }
    match info_source(Some(5), false, false, true, false) {
        InfoSource::Reply(s) => assert_eq!(s, "Can't seem to get info about the user"),
        _ => panic!("expected a reply"),
    }
    assert_eq!(info_not_found(), "Can't seem to get info about the user");
}

#[test]
fn pinning() {
    match decide_pin(&strings(&["Silent"]), Some((7, "https://t.me/c/1/7".to_string()))) {
        PinCmd::Pin { message_id, silent, reply } => {
            assert_eq!(message_id, 7);
            assert!(silent);
            assert_eq!(reply, "Pinned <a href=\"https://t.me/c/1/7\">this message</a> Silently");
        }
        _ => panic!("expected a pin"),
    }
    match decide_pin(&Vec::new(), None) {
        PinCmd::Reply(s) => assert_eq!(s, "Reply to some message to pin"),
        _ => panic!("expected a reply"),
    }
    match decide_pin(&strings(&["odd"]), Some((7, "u".to_string()))) {
        PinCmd::Reply(s) => assert_eq!(s, "Invalid PinMode! Available pinmodes are loud,hard,violent,silent"),
        _ => panic!("expected a reply"),
    }
    assert_eq!(unpin_reply(None, true), "Unpinned all chat messages");
    assert_eq!(unpin_reply(Some("u".to_string()), false), "The mentioned message was never pinned");
}

#[test]
fn invite_links_and_admin_list() {
    match decide_invitelink(true, &Some("https://t.me/x".to_string())) {
        InviteCmd::Reply(s) => assert_eq!(s, "<b>Here's the invite link of the chat</b>\nhttps://t.me/x"),
        _ => panic!("expected a reply"),
    }
    assert!(matches!(decide_invitelink(true, &None), InviteCmd::Export));
    match decide_invitelink(false, &None) {
        InviteCmd::Reply(s) => assert_eq!(s, "I can only create invite links for chats or channels"),
        _ => panic!("expected a reply"),
    }
    assert_eq!(exported_link_reply(None), "I don't have enough rights to access the invite link");
    let admins = vec![user(1, "A", None), user(2, "B", None)];
    assert_eq!(
        adminlist_text(&admins),
        "<b>Admin's in this group:</b>\n- <a href=\"tg://user?id=1\">A</a>\n- <a href=\"tg://user?id=2\">B</a>"
    );
}

#[test]
fn reports() {
    match decide_report(100, 5, 100, false) {
        ReportCmd::Reply(s) => assert_eq!(s, "I am not reporting myself you cretin"),
        _ => panic!("expected a reply"),
    }
    match decide_report(100, 5, 5, false) {
        ReportCmd::Reply(s) => assert_eq!(s, "Why are you reporting yourself"),
        _ => panic!("expected a reply"),
    }
    assert!(matches!(decide_report(100, 5, 6, true), ReportCmd::Ignore));
    assert!(matches!(decide_report(100, 5, 6, false), ReportCmd::Report));
    let mut robot = user(3, "R", None);
    robot.is_bot = true;
    assert_eq!(report_recipients(&vec![user(1, "A", None), robot, user(2, "B", None)]), vec![1, 2]);
    assert_eq!(
        report_text("G", "u", &user(6, "C", None), &user(5, "S", None)),
        "Chat Title: <code>G</code>\nReport Message: <a href=\"u\">this message</a>\nUser: <a href=\"tg://user?id=6\">C</a>\nReported User: <a href=\"tg://user?id=5\">S</a>"
    );
    assert_eq!(reported_reply(&user(6, "C", None)), "Reported <a href=\"tg://user?id=6\">C</a> to admins");
    match decide_report_set(-5, &strings(&["yes"])) {
        ReportSetCmd::Store { record, .. } => assert!(record.allowed),
        _ => panic!("expected a store"),
    }
    match decide_report_set(-5, &strings(&["off"])) {
        ReportSetCmd::Store { record, reply } => {
            assert!(!record.allowed);
            assert_eq!(reply, "Reporting has been turned on for this chat now user's can report any users by sending /report");
        }
        _ => panic!("expected a store"),
    }
    match decide_report_set(-5, &Vec::new()) {
        ReportSetCmd::Reply(s) => assert_eq!(s, "Invalid option!\nUsage: <code>/reports on/off/yes/no</code>"),
        _ => panic!("expected a reply"),
    }
}

#[test]
fn global_bans() {
    let cfg = BotConfig { owner_id: 1, sudo_users: vec![2] };
    let t = |id: Option<i64>, text: Option<&str>| Target { user_id: id, text: text.map(String::from) };
    assert_eq!(gban_target(&cfg, 100, &t(Some(9), Some("scam"))), Ok((9, "scam".to_string())));
    assert_eq!(gban_target(&cfg, 100, &t(Some(9), None)), Ok((9, String::new())));
    assert_eq!(gban_target(&cfg, 100, &t(Some(2), None)), Err("I am not gonna ban a sudo user".to_string()));
    assert_eq!(gban_target(&cfg, 100, &t(Some(1), None)), Err("I am not gonna gban my owner of all people".to_string()));
    assert_eq!(gban_target(&cfg, 100, &t(Some(100), None)), Err("Haha I am not gonna ban myself fuck off!".to_string()));
    assert_eq!(gban_target(&cfg, 100, &t(None, None)), Err("Specify someone to gban".to_string()));
    assert_eq!(ungban_target(&cfg, 100, &t(Some(9), None)), Ok(9));
    assert_eq!(ungban_target(&cfg, 100, &t(None, None)), Err("Refer someone to gban".to_string()));
    match decide_gban(9, "scam".to_string(), false) {
        GbanCmd::Gban { record, progress, done } => {
            assert_eq!((record.user_id, record.reason.as_str()), (9, "scam"));
            assert_eq!(progress, "Gbanning the user...");
            assert_eq!(done, "Gbanned the fucker");
        }
        _ => panic!("expected a gban"),
    }
    match decide_gban(9, "new".to_string(), true) {
        GbanCmd::UpdateReason(g) => assert_eq!(g.reason, "new"),
        _ => panic!("expected an update"),
    }
    assert!(matches!(decide_gban(9, String::new(), true), GbanCmd::Reply(_)));
    assert!(sweep_bans(&Some(member(9, MemberStatus::Member, false))));
    assert!(!sweep_bans(&Some(member(9, MemberStatus::Administrator, false))));
    assert!(!sweep_bans(&Some(member(9, MemberStatus::Kicked, false))));
    assert!(!sweep_bans(&None));
    assert!(sweep_unbans(&Some(member(9, MemberStatus::Kicked, false))));
    assert!(!sweep_unbans(&Some(member(9, MemberStatus::Member, false))));
    assert_eq!(users_to_check(Some(4), &vec![5, 6]), vec![4]);
    assert_eq!(users_to_check(None, &vec![5, 6]), vec![5, 6]);
    assert!(gban_applies(true, true));
    assert!(!gban_applies(true, false));
    match decide_gbanstat(-5, &strings(&["ON"])) {
        GbanStatCmd::Store { record, .. } => assert!(record.is_on),
        _ => panic!("expected a store"),
    }
    match decide_gbanstat(-5, &strings(&["meh"])) {
        GbanStatCmd::Reply(s) => assert_eq!(s, "That's an invalid gbanstat input valid one's are (yes/on),(no,off)"),
        _ => panic!("expected a reply"),
    }
    assert_eq!(leavechat_target(&strings(&["-100"])), Ok(-100));
    assert_eq!(leavechat_target(&strings(&["abc"])), Ok(0));
    assert_eq!(leavechat_target(&Vec::new()), Err("Mention a chat id to leave".to_string()));
    assert_eq!(
        chatlist_text(&vec![("A".to_string(), -1), ("B".to_string(), -2)]),
        "The chat id's of the chats I am in \n <code>- <code>A : -1</code>\n- <code>B : -2</code>\n</code> ".to_string()
    );
}

#[test]
fn ungban_and_notice() {
    match decide_ungban(true) {
        UngbanCmd::Ungban { progress, done } => {
            assert_eq!(progress, "Ungbanning the poor fucker");
            assert_eq!(done, "Ungban Completed");
        }
        _ => panic!("expected an ungban"),
    }
    match decide_ungban(false) {
        UngbanCmd::Reply(s) => assert_eq!(s, "Why are you trying to ungban the user who's not even gbanned"),
        _ => panic!("expected a reply"),
    }
    assert!(gban_notice().starts_with("This is a Gbanned user"));
}

#[test]
fn unmute_and_lock_reads() {
    let p = unmuted_permissions();
    assert_eq!(p.can_send_messages, Some(true));
    assert_eq!(p.can_send_polls, Some(true));
    assert_eq!(p.can_change_info, None);
    assert!(!needs_current(LockType::Text, true));
    assert!(needs_current(LockType::Text, false));
    assert!(needs_current(LockType::Poll, true));
    assert!(!needs_current(LockType::Error, false));
}
