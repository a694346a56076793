//! Filters (a keyword and what the bot replies when it appears) and
//! blacklists (words the bot acts against when a member uses them).
use vstd::prelude::*;
use crate::custom_types::{spec_parse_blacklist_mode, spec_parse_filter_type, BlacklistMode, FilterType};
use crate::database::{BlacklistFilter, BlacklistKind, Filters};
use crate::html::{
    code_inline, full_name, mention_or_link, spec_code_inline, spec_full_name,
    spec_mention_or_link, spec_user_mention, user_mention,
};
use crate::model::{Member, MessageContent, TgUser};
use crate::text::{join, seq_join, string_of, views};

verus! {

pub open spec fn ov(o: Option<String>) -> Option<Seq<char>> {
    match o {
        Some(s) => Some(s@),
        None => None,
    }
}

/// `get_filter_type`: the first kind the message holds, in the order audio,
/// text, document, photo, video, animation, voice, sticker; empty if none.
pub open spec fn spec_filter_type(m: MessageContent) -> Seq<char> {
    if m.audio is Some {
        "audio"@
    } else if m.text is Some {
        "text"@
    } else if m.document is Some {
        "document"@
    } else if m.photo is Some {
        "photo"@
    } else if m.video is Some {
        "video"@
    } else if m.animation is Some {
        "animation"@
    } else if m.voice is Some {
        "voice"@
    } else if m.sticker is Some {
        "sticker"@
    } else {
        Seq::empty()
    }
}

pub fn get_filter_type(m: &MessageContent) -> (r: String)
    ensures
        r@ == spec_filter_type(*m),
{
    if m.audio.is_some() {
        string_of("audio")
    } else if m.text.is_some() {
        string_of("text")
    } else if m.document.is_some() {
        string_of("document")
    } else if m.photo.is_some() {
        string_of("photo")
    } else if m.video.is_some() {
        string_of("video")
    } else if m.animation.is_some() {
        string_of("animation")
    } else if m.voice.is_some() {
        string_of("voice")
    } else if m.sticker.is_some() {
        string_of("sticker")
    } else {
        String::new()
    }
}

/// `extract_filter_text`: the caption, else the text, else the sticker's
/// emoji. Reading the emoji of a sticker that has none fails: `requires`
/// leaves that message out.
pub fn extract_filter_text(m: &MessageContent) -> (r: Option<String>)
    requires
        !(m.caption is None && m.text is None && m.sticker is Some && m.sticker_emoji is None),
    ensures
        ov(r) == if m.caption is Some {
            ov(m.caption)
        } else if m.text is Some {
            ov(m.text)
        } else if m.sticker is Some {
            ov(m.sticker_emoji)
        } else {
            None
        },
{
    if m.caption.is_some() {
        m.caption.clone()
    } else if m.text.is_some() {
        m.text.clone()
    } else if m.sticker.is_some() {
        m.sticker_emoji.clone()
    } else {
        None
    }
}

/// The kind of the first media a message holds, as `get_filter_type` then
/// `FilterType::parse` find it.
pub open spec fn spec_filter_kind(m: MessageContent) -> FilterType {
    if m.audio is Some {
        FilterType::Audio
    } else if m.text is Some {
        FilterType::Text
    } else if m.document is Some {
        FilterType::Document
    } else if m.photo is Some {
        FilterType::Photos
    } else if m.video is Some {
        FilterType::Video
    } else if m.animation is Some {
        FilterType::Animation
    } else if m.voice is Some {
        FilterType::Voice
    } else if m.sticker is Some {
        FilterType::Sticker
    } else {
        FilterType::Error
    }
}

pub proof fn lemma_filter_kind(m: MessageContent)
    ensures
        spec_parse_filter_type(spec_filter_type(m)) == spec_filter_kind(m),
{
    reveal_strlit("audio");
    reveal_strlit("animation");
    reveal_strlit("document");
    reveal_strlit("photo");
    reveal_strlit("sticker");
    reveal_strlit("text");
    reveal_strlit("video");
    reveal_strlit("voice");
    assert("audio"@.len() != "animation"@.len());
    assert("audio"@ != "animation"@);
    assert("audio"@.len() != "document"@.len());
    assert("audio"@ != "document"@);
    assert("audio"@[0] != "photo"@[0]);
    assert("audio"@ != "photo"@);
    assert("audio"@.len() != "sticker"@.len());
    assert("audio"@ != "sticker"@);
    assert("audio"@.len() != "text"@.len());
    assert("audio"@ != "text"@);
    assert("audio"@[0] != "video"@[0]);
    assert("audio"@ != "video"@);
    assert("audio"@[0] != "voice"@[0]);
    assert("audio"@ != "voice"@);
    assert("audio"@ != Seq::<char>::empty());
    assert("animation"@.len() != "document"@.len());
    assert("animation"@ != "document"@);
    assert("animation"@.len() != "photo"@.len());
    assert("animation"@ != "photo"@);
    assert("animation"@.len() != "sticker"@.len());
    assert("animation"@ != "sticker"@);
    assert("animation"@.len() != "text"@.len());
    assert("animation"@ != "text"@);
    assert("animation"@.len() != "video"@.len());
    assert("animation"@ != "video"@);
    assert("animation"@.len() != "voice"@.len());
    assert("animation"@ != "voice"@);
    assert("animation"@ != Seq::<char>::empty());
    assert("document"@.len() != "photo"@.len());
    assert("document"@ != "photo"@);
    assert("document"@.len() != "sticker"@.len());
    assert("document"@ != "sticker"@);
    assert("document"@.len() != "text"@.len());
    assert("document"@ != "text"@);
    assert("document"@.len() != "video"@.len());
    assert("document"@ != "video"@);
    assert("document"@.len() != "voice"@.len());
    assert("document"@ != "voice"@);
    assert("document"@ != Seq::<char>::empty());
    assert("photo"@.len() != "sticker"@.len());
    assert("photo"@ != "sticker"@);
    assert("photo"@.len() != "text"@.len());
    assert("photo"@ != "text"@);
    assert("photo"@[0] != "video"@[0]);
    assert("photo"@ != "video"@);
    assert("photo"@[0] != "voice"@[0]);
    assert("photo"@ != "voice"@);
    assert("photo"@ != Seq::<char>::empty());
    assert("sticker"@.len() != "text"@.len());
    assert("sticker"@ != "text"@);
    assert("sticker"@.len() != "video"@.len());
    assert("sticker"@ != "video"@);
    assert("sticker"@.len() != "voice"@.len());
    assert("sticker"@ != "voice"@);
    assert("sticker"@ != Seq::<char>::empty());
    assert("text"@.len() != "video"@.len());
    assert("text"@ != "video"@);
    assert("text"@.len() != "voice"@.len());
    assert("text"@ != "voice"@);
    assert("text"@ != Seq::<char>::empty());
    assert("video"@[1] != "voice"@[1]);
    assert("video"@ != "voice"@);
    assert("video"@ != Seq::<char>::empty());
    assert("voice"@ != Seq::<char>::empty());
}

/// A filter answers in the kind of content it was saved with: the type
/// `filter` stores for a replied-to message reads back as that message's
/// kind, and the type of a filter given as text reads back as text.
pub proof fn law_saved_type_reads_back(m: MessageContent)
    ensures
        spec_parse_filter_type(spec_filter_type(m)) == spec_filter_kind(m),
        spec_parse_filter_type("text"@) == FilterType::Text,
{
    lemma_filter_kind(m);
    reveal_strlit("text");
    reveal_strlit("audio");
    reveal_strlit("animation");
    reveal_strlit("document");
    reveal_strlit("photo");
    reveal_strlit("sticker");
    assert("text"@.len() != "audio"@.len());
    assert("text"@.len() != "animation"@.len());
    assert("text"@.len() != "document"@.len());
    assert("text"@.len() != "photo"@.len());
    assert("text"@.len() != "sticker"@.len());
}

/// What `/filter` does once the caller may use it.
pub enum FilterCmd {
    Reply(String),
    /// Store the filter, reply, and (when `log` holds) write to the log channel.
    Save { record: Filters, reply: String, log: bool },
}

/// The reply once a filter is saved.
pub open spec fn spec_saved_text(keyword: Seq<char>) -> Seq<char> {
    "Saved filter <code>'"@ + keyword + "'</code>"@
}

/// What a filter replies with, taken from a message of the given kind.
pub open spec fn spec_filter_content(m: MessageContent, kind: FilterType) -> Option<Seq<char>> {
    match kind {
        FilterType::Text => ov(m.text),
        FilterType::Animation => ov(m.animation),
        FilterType::Audio => ov(m.audio),
        FilterType::Document => ov(m.document),
        FilterType::Photos => ov(m.photo),
        FilterType::Sticker => ov(m.sticker),
        FilterType::Video => ov(m.video),
        FilterType::Voice => ov(m.voice),
        FilterType::Error => None,
    }
}

/// `/filter keyword reply...` stores the arguments after the keyword, joined
/// by single spaces, as a text reply; `/filter keyword` in reply to a message
/// stores that message (its text or media, and its caption).
pub fn decide_filter(chat_id: i64, args: &Vec<String>, replied: &Option<MessageContent>) -> (r:
    FilterCmd)
    ensures
        args@.len() == 0 ==> (r matches FilterCmd::Reply(s) && s@ == "Give me some keyword to filter"@),
        args@.len() == 1 && replied is None ==> (r matches FilterCmd::Reply(s) && s@
            == "Give me something to reply the filter with"@),
        args@.len() == 1 ==> (replied matches Some(m) ==> ({
            let kind = spec_parse_filter_type(spec_filter_type(*m));
            if kind == FilterType::Error {
                r matches FilterCmd::Reply(s) && s@ == "This filter type is not supported"@
            } else {
                r matches FilterCmd::Save { record, reply, log } && !log && record.chat_id == chat_id
                    && record.filter@ == args@[0]@ && Some(record.reply@) == spec_filter_content(
                    *m,
                    kind,
                ) && ov(record.caption) == ov(m.caption) && record.f_type@ == spec_filter_type(*m)
                    && reply@ == spec_saved_text(args@[0]@)
            }
        })),
        args@.len() >= 2 ==> (r matches FilterCmd::Save { record, reply, log } && log
            && record.chat_id == chat_id && record.filter@ == args@[0]@ && record.reply@ == seq_join(
            views(args@).drop_first(),
            " "@,
        ) && record.caption is None && record.f_type@ == "text"@ && reply@ == spec_saved_text(
            args@[0]@,
        )),
{
    if args.len() == 0 {
        return FilterCmd::Reply(string_of("Give me some keyword to filter"));
    }
    let keyword = args[0].clone();
    let mut saved = string_of("Saved filter <code>'");
    saved.append(keyword.as_str());
    saved.append("'</code>");
    if args.len() == 1 {
        let m = match replied {
            None => {
                return FilterCmd::Reply(string_of("Give me something to reply the filter with"));
            },
            Some(m) => m,
        };
        let f_type = get_filter_type(m);
        let kind = FilterType::parse(f_type.as_str());
        proof {
            lemma_filter_kind(*m);
        }
        let content = match kind {
            FilterType::Text => m.text.clone(),
            FilterType::Animation => m.animation.clone(),
            FilterType::Audio => m.audio.clone(),
            FilterType::Document => m.document.clone(),
            FilterType::Photos => m.photo.clone(),
            FilterType::Sticker => m.sticker.clone(),
            FilterType::Video => m.video.clone(),
            FilterType::Voice => m.voice.clone(),
            FilterType::Error => {
                return FilterCmd::Reply(string_of("This filter type is not supported"));
            },
        };
        // The kind is the first one the message holds, so its content is there.
        let reply = match content {
            Some(c) => c,
            None => {
                return FilterCmd::Reply(string_of("This filter type is not supported"));
            },
        };
        let record = Filters {
            chat_id,
            filter: keyword,
            reply,
            f_type,
            caption: m.caption.clone(),
        };
        return FilterCmd::Save { record, reply: saved, log: false };
    }
    let mut rest: Vec<String> = Vec::new();
    let mut i: usize = 1;
    while i < args.len()
        invariant
            1 <= i <= args.len(),
            views(rest@) == views(args@).subrange(1, i as int),
        decreases args.len() - i,
    {
        rest.push(args[i].clone());
        assert(views(args@).subrange(1, i + 1) == views(args@).subrange(1, i as int).push(
            args@[i as int]@,
        ));
        i = i + 1;
    }
    assert(views(args@).subrange(1, args.len() as int) == views(args@).drop_first());
    let text = join(&rest, " ");
    let record = Filters {
        chat_id,
        filter: keyword,
        reply: text,
        f_type: string_of("text"),
        caption: None,
    };
    FilterCmd::Save { record, reply: saved, log: true }
}

/// The first argument of a command, or the reply that asks for one.
pub fn first_arg(args: &Vec<String>, ask: &str) -> (r: Result<String, String>)
    ensures
        args@.len() == 0 ==> (r matches Err(s) && s@ == ask@),
        args@.len() > 0 ==> (r matches Ok(a) && a@ == args@[0]@),
{
    if args.len() == 0 {
        Err(string_of(ask))
    } else {
        Ok(args[0].clone())
    }
}

/// The commands that take a word as their first argument.
#[derive(PartialEq, Eq, Structural, Clone, Copy, Debug)]
pub enum WordCommand {
    /// Stopping a filter.
    Stop,
    /// Blacklisting a word.
    Blacklist,
    /// Removing a word from the blacklist.
    Unblacklist,
    /// Setting the blacklist mode.
    BlacklistMode,
}

/// What a word command asks for when it has no argument.
pub open spec fn word_prompt(c: WordCommand) -> Seq<char> {
    match c {
        WordCommand::Stop => "Mention some filter keyword to stop"@,
        WordCommand::Blacklist => "What should I blacklist"@,
        WordCommand::Unblacklist => "Mention some blacklist to remove"@,
        WordCommand::BlacklistMode => "Mention a blacklist mode"@,
    }
}

/// The word a command acts on, or the reply asking for one.
pub fn word_argument(args: &Vec<String>, c: WordCommand) -> (r: Result<String, String>)
    ensures
        args@.len() == 0 ==> (r matches Err(s) && s@ == word_prompt(c)),
        args@.len() > 0 ==> (r matches Ok(a) && a@ == args@[0]@),
{
    let ask = match c {
        WordCommand::Stop => "Mention some filter keyword to stop",
        WordCommand::Blacklist => "What should I blacklist",
        WordCommand::Unblacklist => "Mention some blacklist to remove",
        WordCommand::BlacklistMode => "Mention a blacklist mode",
    };
    first_arg(args, ask)
}

/// Whether `list` holds `word`.
pub fn contains_word(list: &Vec<String>, word: &String) -> (r: bool)
    ensures
        r == views(list@).contains(word@),
{
    let mut i: usize = 0;
    while i < list.len()
        invariant
            i <= list.len(),
            forall|k: int| 0 <= k < i ==> list@[k]@ != word@,
        decreases list.len() - i,
    {
        if crate::text::str_eq(list[i].as_str(), word.as_str()) {
            assert(views(list@)[i as int] == word@);
            return true;
        }
        i = i + 1;
    }
    assert(forall|k: int| 0 <= k < views(list@).len() ==> views(list@)[k] != word@);
    false
}

/// `/stop keyword`: stops a filter that is set.
pub fn decide_remove_filter(keyword: &String, filters: &Vec<String>) -> (r: Result<String, String>)
    ensures
        views(filters@).contains(keyword@) ==> (r matches Ok(s) && s@ == "Filter <code>"@ + keyword@
            + "</code> has been stopped."@),
        !views(filters@).contains(keyword@) ==> (r matches Err(s) && s@
            == "You haven't set any filter on that keyword"@),
{
    if !contains_word(filters, keyword) {
        return Err(string_of("You haven't set any filter on that keyword"));
    }
    let mut s = string_of("Filter <code>");
    s.append(keyword.as_str());
    s.append("</code> has been stopped.");
    Ok(s)
}

/// The reply to `/filters`.
pub fn filter_list_text(title: &str, filters: &Vec<String>) -> (r: String)
    ensures
        filters@.len() == 0 ==> r@ == "No filters in "@ + title@,
        filters@.len() > 0 ==> r@ == "<code>Filters in this group are</code>:\n- "@ + seq_join(
            views(filters@),
            "\n- "@,
        ),
{
    if filters.len() == 0 {
        let mut s = string_of("No filters in ");
        s.append(title);
        return s;
    }
    let mut s = string_of("<code>Filters in this group are</code>:\n- ");
    s.append(join(filters, "\n- ").as_str());
    s
}

/// The reply to `/blacklist` without a word: the chat's words.
pub fn blacklist_text(words: &Vec<String>) -> (r: String)
    ensures
        words@.len() == 0 ==> r@ == "No blacklist set in this chat"@,
        words@.len() > 0 ==> r@ == "The blacklist words in the chat are\n <code>- "@ + seq_join(
            views(words@),
            "\n -"@,
        ) + "</code>"@,
{
    if words.len() == 0 {
        return string_of("No blacklist set in this chat");
    }
    let mut s = string_of("The blacklist words in the chat are\n <code>- ");
    s.append(join(words, "\n -").as_str());
    s.append("</code>");
    s
}

/// The filter and blacklist events written to a chat's log channel.
#[derive(PartialEq, Eq, Structural, Clone, Copy, Debug)]
pub enum WordEvent {
    Filter,
    FilterStopped,
    Blacklist,
    BlacklistRemoved,
}

pub open spec fn word_tag(ev: WordEvent) -> Seq<char> {
    match ev {
        WordEvent::Filter => "\n#FILTER\nAdmin: "@,
        WordEvent::FilterStopped => "\n#FILTER_STOPPED\nAdmin: "@,
        WordEvent::Blacklist => "\n#BLACKLIST\nAdmin: "@,
        WordEvent::BlacklistRemoved => "\n#BLACKLIST_REMOVED\nAdmin: "@,
    }
}

/// The log entry of a filter or blacklist change.
pub open spec fn spec_word_log(ev: WordEvent, title: Seq<char>, admin: TgUser, word: Seq<char>) -> Seq<
    char,
> {
    "Chat title: "@ + spec_code_inline(title) + word_tag(ev) + spec_user_mention(
        admin.id,
        spec_full_name(admin),
    ) + "\nWord: "@ + spec_code_inline(word)
}

pub fn word_log(ev: WordEvent, title: &str, admin: &TgUser, word: &str) -> (r: String)
    ensures
        r@ == spec_word_log(ev, title@, *admin, word@),
{
    let mut s = string_of("Chat title: ");
    s.append(code_inline(title).as_str());
    let tag = match ev {
        WordEvent::Filter => "\n#FILTER\nAdmin: ",
        WordEvent::FilterStopped => "\n#FILTER_STOPPED\nAdmin: ",
        WordEvent::Blacklist => "\n#BLACKLIST\nAdmin: ",
        WordEvent::BlacklistRemoved => "\n#BLACKLIST_REMOVED\nAdmin: ",
    };
    s.append(tag);
    let n = full_name(admin);
    s.append(user_mention(admin.id, n.as_str()).as_str());
    s.append("\nWord: ");
    s.append(code_inline(word).as_str());
    s
}

/// How a matched filter answers.
pub enum FilterReply {
    Audio { file_id: String, caption: String },
    Animation { file_id: String, caption: String },
    Document { file_id: String, caption: String },
    Photo { file_id: String, caption: String },
    Sticker { file_id: String },
    Text(String),
    Video { file_id: String, caption: String },
    Voice { file_id: String, caption: String },
    Nothing,
}

/// `filter_reply` for one matched filter, from its stored kind, reply and
/// caption (an absent caption is empty).
pub fn filter_reply_of(f_type: &str, reply: String, caption: Option<String>) -> (r: FilterReply)
    ensures
        ({
            let cap = match caption {
                Some(c) => c@,
                None => Seq::empty(),
            };
            match spec_parse_filter_type(f_type@) {
                FilterType::Audio => r matches FilterReply::Audio { file_id, caption } && file_id@
                    == reply@ && caption@ == cap,
                FilterType::Animation => r matches FilterReply::Animation { file_id, caption }
                    && file_id@ == reply@ && caption@ == cap,
                FilterType::Document => r matches FilterReply::Document { file_id, caption }
                    && file_id@ == reply@ && caption@ == cap,
                FilterType::Photos => r matches FilterReply::Photo { file_id, caption } && file_id@
                    == reply@ && caption@ == cap,
                FilterType::Sticker => r matches FilterReply::Sticker { file_id } && file_id@
                    == reply@,
                FilterType::Text => r matches FilterReply::Text(t) && t@ == reply@,
                FilterType::Video => r matches FilterReply::Video { file_id, caption } && file_id@
                    == reply@ && caption@ == cap,
                FilterType::Voice => r matches FilterReply::Voice { file_id, caption } && file_id@
                    == reply@ && caption@ == cap,
                FilterType::Error => r is Nothing,
            }
        }),
{
    let cap = match caption {
        Some(c) => c,
        None => String::new(),
    };
    match FilterType::parse(f_type) {
        FilterType::Audio => FilterReply::Audio { file_id: reply, caption: cap },
        FilterType::Animation => FilterReply::Animation { file_id: reply, caption: cap },
        FilterType::Document => FilterReply::Document { file_id: reply, caption: cap },
        FilterType::Photos => FilterReply::Photo { file_id: reply, caption: cap },
        FilterType::Sticker => FilterReply::Sticker { file_id: reply },
        FilterType::Text => FilterReply::Text(reply),
        FilterType::Video => FilterReply::Video { file_id: reply, caption: cap },
        FilterType::Voice => FilterReply::Voice { file_id: reply, caption: cap },
        FilterType::Error => FilterReply::Nothing,
    }
}

/// The reply once a word is blacklisted.
pub fn blacklist_added_text(word: &str, mode: &str) -> (r: String)
    ensures
        r@ == "Added blacklist "@ + word@ + ". The blacklist mode in the chat is <code>"@ + mode@
            + "</code>"@,
{
    let mut s = string_of("Added blacklist ");
    s.append(word);
    s.append(". The blacklist mode in the chat is <code>");
    s.append(mode);
    s.append("</code>");
    s
}

/// `/blacklist word` stores the word; in delete mode the bot must be able to
/// delete messages.
pub fn decide_blacklist(chat_id: i64, word: &String) -> (r: BlacklistFilter)
    ensures
        r.chat_id == chat_id && r.filter@ == word@,
{
    BlacklistFilter { chat_id, filter: word.clone() }
}

/// Whether a stored mode asks the bot to delete messages.
pub fn mode_needs_delete(mode: &str) -> (r: bool)
    ensures
        r == (spec_parse_blacklist_mode(mode@) == BlacklistMode::Delete),
{
    BlacklistMode::parse(mode) == BlacklistMode::Delete
}

/// `/unblacklist word`: removes a word that is blacklisted.
pub fn decide_remove_blacklist(chat_id: i64, word: &String, words: &Vec<String>) -> (r: Result<
    (BlacklistFilter, String),
    String,
>)
    ensures
        views(words@).contains(word@) ==> (r matches Ok((b, s)) && b.chat_id == chat_id
            && b.filter@ == word@ && s@ == "Blacklist "@ + word@ + " has been removed"@),
        !views(words@).contains(word@) ==> (r matches Err(s) && s@
            == "This word isn't blacklisted here!"@),
{
    if !contains_word(words, word) {
        return Err(string_of("This word isn't blacklisted here!"));
    }
    let mut s = string_of("Blacklist ");
    s.append(word.as_str());
    s.append(" has been removed");
    Ok((BlacklistFilter { chat_id, filter: word.clone() }, s))
}

/// What `/blacklistmode` does.
pub enum ModeCmd {
    Reply(String),
    /// Store the mode, then reply.
    Store { record: BlacklistKind, reply: String },
}

pub open spec fn mode_reply(mode: BlacklistMode) -> Seq<char> {
    match mode {
        BlacklistMode::Warn => "The blacklist mode is set to <i>warn</i> that means if you use the blacklisted word you will be warned, when your warns exceed the warn limit you will be banned or kicked depending upon the warn mode"@,
        BlacklistMode::Kick => "The blacklist mode is set to <i>kick</i> that means if you use the blacklisted word you will be kicked from the group"@,
        BlacklistMode::Delete => "The blacklist mode is set to <i>delete</i> that means if you use the blacklisted word the message will be deleted"@,
        BlacklistMode::Ban => "The blacklist mode is set to <i>ban</i> that means if you use the blacklisted word you will be banned from the group"@,
        BlacklistMode::Error => "Invalid blacklist mode"@,
    }
}

/// `/blacklistmode mode`: the mode is stored when the bot holds the right it
/// needs (to delete messages for delete, to restrict members otherwise).
pub fn decide_blacklist_mode(chat_id: i64, arg: &str, bot: &Member) -> (r: ModeCmd)
    ensures
        ({
            let mode = spec_parse_blacklist_mode(arg@);
            if mode == BlacklistMode::Error {
                r matches ModeCmd::Reply(s) && s@ == "Invalid blacklist mode"@
            } else if mode == BlacklistMode::Delete && !bot.can_delete_messages {
                r matches ModeCmd::Reply(s) && s@
                    == "I can't delete messages here please give me the permission to do so"@
            } else if mode != BlacklistMode::Delete && !bot.can_restrict_members {
                r matches ModeCmd::Reply(s) && s@
                    == "I can't restrict people here please give me the permission to do so"@
            } else {
                r matches ModeCmd::Store { record, reply } && record.chat_id == chat_id
                    && record.kind@ == mode.spec_word() && reply@ == mode_reply(mode)
            }
        }),
{
    let mode = BlacklistMode::parse(arg);
    let ok = match mode {
        BlacklistMode::Error => {
            return ModeCmd::Reply(string_of("Invalid blacklist mode"));
        },
        BlacklistMode::Delete => bot.can_delete_messages,
        _ => bot.can_restrict_members,
    };
    if !ok {
        if mode == BlacklistMode::Delete {
            return ModeCmd::Reply(
                string_of("I can't delete messages here please give me the permission to do so"),
            );
        }
        return ModeCmd::Reply(
            string_of("I can't restrict people here please give me the permission to do so"),
        );
    }
    let reply = match mode {
        BlacklistMode::Warn => string_of(
            "The blacklist mode is set to <i>warn</i> that means if you use the blacklisted word you will be warned, when your warns exceed the warn limit you will be banned or kicked depending upon the warn mode",
        ),
        BlacklistMode::Kick => string_of(
            "The blacklist mode is set to <i>kick</i> that means if you use the blacklisted word you will be kicked from the group",
        ),
        BlacklistMode::Delete => string_of(
            "The blacklist mode is set to <i>delete</i> that means if you use the blacklisted word the message will be deleted",
        ),
        BlacklistMode::Ban => string_of(
            "The blacklist mode is set to <i>ban</i> that means if you use the blacklisted word you will be banned from the group",
        ),
        BlacklistMode::Error => string_of("Invalid blacklist mode"),
    };
    ModeCmd::Store { record: BlacklistKind { chat_id, kind: mode.word() }, reply }
}

/// `action_blacklist` looks at a message only when it has a sender and a
/// text, and the sender is neither the bot nor an admin.
pub open spec fn spec_blacklist_applies(sender: Option<i64>, has_text: bool, bot_id: i64, sender_is_admin: bool) -> bool {
    match sender {
        None => false,
        Some(id) => has_text && id != bot_id && !sender_is_admin,
    }
}

/// The sender whose message the blacklist looks at: one with a sender and a
/// text to match, that the bot did not send itself; whether the sender is
/// an admin is asked next.
pub fn blacklist_candidate(sender: Option<i64>, has_text: bool, bot_id: i64) -> (r: Option<i64>)
    ensures
        r == (match sender {
            Some(id) => if has_text && id != bot_id {
                Some(id)
            } else {
                None
            },
            None => None,
        }),
{
    match sender {
        Some(id) => if has_text && id != bot_id {
            Some(id)
        } else {
            None
        },
        None => None,
    }
}

/// Whether the blacklist acts on a message: it has a sender and a text,
/// the bot did not send it, and the sender is no admin.
pub fn blacklist_applies(sender: Option<i64>, has_text: bool, bot_id: i64, sender_is_admin: bool) -> (r: bool)
    ensures
        r == spec_blacklist_applies(sender, has_text, bot_id, sender_is_admin),
{
    match blacklist_candidate(sender, has_text, bot_id) {
        Some(_) => !sender_is_admin,
        None => false,
    }
}

/// What the bot does for one blacklisted word found in a message.
pub enum BlacklistAction {
    /// Ban the sender, then reply.
    Ban { reply: String },
    /// Delete the message.
    Delete,
    /// Ban and unban the sender, then reply.
    Kick { reply: String },
    /// Warn the sender with this reason.
    Warn { reason: String },
}

pub enum BlacklistActionV {
    Ban(Seq<char>),
    Delete,
    Kick(Seq<char>),
    Warn(Seq<char>),
}

impl BlacklistAction {
    pub open spec fn view(&self) -> BlacklistActionV {
        match self {
            BlacklistAction::Ban { reply } => BlacklistActionV::Ban(reply@),
            BlacklistAction::Delete => BlacklistActionV::Delete,
            BlacklistAction::Kick { reply } => BlacklistActionV::Kick(reply@),
            BlacklistAction::Warn { reason } => BlacklistActionV::Warn(reason@),
        }
    }
}

/// The action for one matched word, if the mode has one and the bot holds
/// the right it needs.
pub open spec fn spec_blacklist_action(mode: BlacklistMode, bot: Member, user: TgUser, word: Seq<char>) -> Option<BlacklistActionV> {
    match mode {
        BlacklistMode::Ban => if bot.can_restrict_members {
            Some(
                BlacklistActionV::Ban(
                    "User"@ + spec_mention_or_link(user)
                        + " has been banned for using blacklisted word <code>"@ + word
                        + "</code>"@,
                ),
            )
        } else {
            None
        },
        BlacklistMode::Delete => if bot.can_delete_messages {
            Some(BlacklistActionV::Delete)
        } else {
            None
        },
        BlacklistMode::Kick => if bot.can_restrict_members {
            Some(
                BlacklistActionV::Kick(
                    "User "@ + spec_mention_or_link(user)
                        + " has been kicked for using the blacklisted word "@ + word,
                ),
            )
        } else {
            None
        },
        BlacklistMode::Warn => if bot.can_restrict_members {
            Some(BlacklistActionV::Warn("Use of blacklisted word "@ + word))
        } else {
            None
        },
        BlacklistMode::Error => None,
    }
}

/// The actions for the matched words, in order.
pub open spec fn spec_blacklist_actions(mode: BlacklistMode, bot: Member, user: TgUser, words: Seq<Seq<char>>) -> Seq<BlacklistActionV>
    decreases words.len(),
{
    if words.len() == 0 {
        Seq::empty()
    } else {
        let rest = spec_blacklist_actions(mode, bot, user, words.drop_last());
        match spec_blacklist_action(mode, bot, user, words.last()) {
            Some(a) => rest.push(a),
            None => rest,
        }
    }
}

fn blacklist_action(mode: BlacklistMode, bot: &Member, user: &TgUser, word: &String) -> (r: Option<BlacklistAction>)
    ensures
        match r {
            Some(a) => spec_blacklist_action(mode, *bot, *user, word@) == Some(a.view()),
            None => spec_blacklist_action(mode, *bot, *user, word@) is None,
        },
{
    match mode {
        BlacklistMode::Ban => {
            if !bot.can_restrict_members {
                return None;
            }
            let mut s = string_of("User");
            s.append(mention_or_link(user).as_str());
            s.append(" has been banned for using blacklisted word <code>");
            s.append(word.as_str());
            s.append("</code>");
            Some(BlacklistAction::Ban { reply: s })
        },
        BlacklistMode::Delete => {
            if bot.can_delete_messages {
                Some(BlacklistAction::Delete)
            } else {
                None
            }
        },
        BlacklistMode::Kick => {
            if !bot.can_restrict_members {
                return None;
            }
            let mut s = string_of("User ");
            s.append(mention_or_link(user).as_str());
            s.append(" has been kicked for using the blacklisted word ");
            s.append(word.as_str());
            Some(BlacklistAction::Kick { reply: s })
        },
        BlacklistMode::Warn => {
            if !bot.can_restrict_members {
                return None;
            }
            let mut s = string_of("Use of blacklisted word ");
            s.append(word.as_str());
            Some(BlacklistAction::Warn { reason: s })
        },
        BlacklistMode::Error => None,
    }
}

pub open spec fn action_views(v: Seq<BlacklistAction>) -> Seq<BlacklistActionV> {
    v.map_values(|a: BlacklistAction| a.view())
}

/// `action_blacklist` on the words of the blacklist found in the message.
pub fn blacklist_actions(mode: BlacklistMode, bot: &Member, user: &TgUser, matched: &Vec<String>) -> (r: Vec<BlacklistAction>)
    ensures
        action_views(r@) == spec_blacklist_actions(mode, *bot, *user, views(matched@)),
{
    let mut out: Vec<BlacklistAction> = Vec::new();
    let mut i: usize = 0;
    let ghost ws = views(matched@);
    assert(ws.take(0) == Seq::<Seq<char>>::empty());
    while i < matched.len()
        invariant
            i <= matched.len(),
            ws == views(matched@),
            action_views(out@) == spec_blacklist_actions(mode, *bot, *user, ws.take(i as int)),
        decreases matched.len() - i,
    {
        assert(ws.take(i + 1).drop_last() == ws.take(i as int));
        assert(ws.take(i + 1).last() == matched@[i as int]@);
        match blacklist_action(mode, bot, user, &matched[i]) {
            Some(a) => {
                let ghost old_out = out@;
                out.push(a);
                assert(action_views(out@) == action_views(old_out).push(out@.last().view()));
            },
            None => {},
        }
        i = i + 1;
    }
    assert(ws.take(matched.len() as int) == ws);
    out
}

/// Whether an action is the one a blacklist mode takes.
pub open spec fn action_of_mode(a: BlacklistActionV, mode: BlacklistMode) -> bool {
    match a {
        BlacklistActionV::Ban(_) => mode == BlacklistMode::Ban,
        BlacklistActionV::Delete => mode == BlacklistMode::Delete,
        BlacklistActionV::Kick(_) => mode == BlacklistMode::Kick,
        BlacklistActionV::Warn(_) => mode == BlacklistMode::Warn,
    }
}

/// Whether the bot holds the right that a blacklist mode needs: deleting
/// messages for the delete mode, restricting members for the others.
pub open spec fn bot_can_enforce(mode: BlacklistMode, bot: Member) -> bool {
    match mode {
        BlacklistMode::Delete => bot.can_delete_messages,
        BlacklistMode::Error => false,
        _ => bot.can_restrict_members,
    }
}

/// Each blacklisted word found in a message gets one action, the one the
/// chat's mode names, when the bot holds the right that mode needs; with
/// the right missing, or an unknown mode, nothing is done.
pub proof fn law_one_action_per_word(mode: BlacklistMode, bot: Member, user: TgUser, words: Seq<Seq<char>>)
    ensures
        bot_can_enforce(mode, bot) ==> spec_blacklist_actions(mode, bot, user, words).len()
            == words.len(),
        !bot_can_enforce(mode, bot) ==> spec_blacklist_actions(mode, bot, user, words).len() == 0,
        forall|i: int|
            0 <= i < spec_blacklist_actions(mode, bot, user, words).len() ==> action_of_mode(
                #[trigger] spec_blacklist_actions(mode, bot, user, words)[i],
                mode,
            ),
    decreases words.len(),
{
    if words.len() > 0 {
        law_one_action_per_word(mode, bot, user, words.drop_last());
        let rest = spec_blacklist_actions(mode, bot, user, words.drop_last());
        assert forall|i: int|
            0 <= i < spec_blacklist_actions(mode, bot, user, words).len() implies action_of_mode(
            #[trigger] spec_blacklist_actions(mode, bot, user, words)[i],
            mode,
        ) by {
            if i < rest.len() {
                assert(action_of_mode(rest[i], mode));
            }
        }
    }
}

} // verus!
