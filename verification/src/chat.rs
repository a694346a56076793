//! Changing a chat's title and picture.
use vstd::prelude::*;
use crate::custom_types::FilterType;
use crate::files::{mime_top_type, spec_mime_top_type};
use crate::filters::{get_filter_type, lemma_filter_kind, spec_filter_kind};
use crate::html::{code_inline, spec_code_inline};
use crate::model::MessageContent;
use crate::numparse::{dec, fmt_u64};
use crate::text::{join, seq_join, str_eq, string_of, take_chars, truncate_chars, views};

verus! {

/// The title asked for: the arguments joined by spaces, else the text of
/// the replied-to message, else its caption, else nothing.
pub open spec fn spec_title_candidate(args: Seq<Seq<char>>, reply: Option<MessageContent>) -> Option<Seq<char>> {
    if args.len() > 0 {
        Some(seq_join(args, " "@))
    } else {
        match reply {
            None => None,
            Some(m) => Some(
                match m.text {
                    Some(t) => t@,
                    None => match m.caption {
                        Some(c) => c@,
                        None => Seq::empty(),
                    },
                },
            ),
        }
    }
}

/// The reply once the title is set.
pub open spec fn spec_title_set_reply(title: Seq<char>) -> Seq<char> {
    "Successfully set the chat title to '"@ + spec_code_inline(title) + "'"@
}

/// Telegram's limit on a chat title, in characters.
pub const TITLE_LIMIT: usize = 255;

/// What setting the title does.
pub enum TitleOutcome {
    /// Only reply.
    Reply(String),
    /// Set the title; first send `notice` when there is one, and `reply`
    /// once the title is set.
    SetTitle { title: String, notice: Option<String>, reply: String },
}

pub open spec fn title_notice() -> Seq<char> {
    "The text has more than 255 characters so truncating it to 255 characters"@
}

/// The decision of `set_chat_title`: a title longer than the limit is cut
/// to its first 255 characters (with a notice), and an empty title is
/// refused.
pub fn decide_chat_title(args: &Vec<String>, reply: &Option<MessageContent>) -> (r: TitleOutcome)
    ensures
        spec_title_candidate(views(args@), *reply) is None ==> (r matches TitleOutcome::Reply(s)
            && s@ == "Provide me a title to set"@),
        spec_title_candidate(views(args@), *reply) matches Some(t) ==> (t.len() == 0 ==> (
        r matches TitleOutcome::Reply(s) && s@ == "Title can't be empty"@)),
        spec_title_candidate(views(args@), *reply) matches Some(t) ==> (t.len() > 0 ==> (
        r matches TitleOutcome::SetTitle { title, notice, reply } && title@ == take_chars(
            t,
            TITLE_LIMIT as nat,
        ) && (notice is Some <==> t.len() > TITLE_LIMIT) && (notice matches Some(n) ==> n@
            == title_notice()) && reply@ == spec_title_set_reply(title@))),
{
    let candidate: String = if args.len() > 0 {
        join(args, " ")
    } else {
        match reply {
            None => {
                return TitleOutcome::Reply(string_of("Provide me a title to set"));
            },
            Some(m) => match &m.text {
                Some(t) => t.clone(),
                None => match &m.caption {
                    Some(c) => c.clone(),
                    None => String::new(),
                },
            },
        }
    };
    let (title, over) = truncate_chars(candidate.as_str(), TITLE_LIMIT);
    if title.unicode_len() == 0 {
        return TitleOutcome::Reply(string_of("Title can't be empty"));
    }
    let notice = if over {
        Some(string_of("The text has more than 255 characters so truncating it to 255 characters"))
    } else {
        None
    };
    let mut reply_text = string_of("Successfully set the chat title to '");
    reply_text.append(code_inline(title.as_str()).as_str());
    reply_text.append("'");
    TitleOutcome::SetTitle { title, notice, reply: reply_text }
}

/// What setting the chat picture does.
pub enum ChatPicStep {
    /// Only reply.
    Reply(String),
    /// Download the file of this id and make it the chat's picture.
    Download { file_id: String },
}

pub open spec fn spec_chatpic_step(reply: Option<MessageContent>, public_title: Option<Seq<char>>, doc_type: Option<Seq<char>>) -> Result<Seq<char>, Seq<char>> {
    match reply {
        None => Err("Reply to a picture to set it as a chat picture"@),
        Some(m) => match public_title {
            None => Err("This command can only be used in a group"@),
            Some(_) => match spec_filter_kind(m) {
                FilterType::Document => if doc_type == Some("image"@) {
                    Ok(m.document.unwrap()@)
                } else {
                    Err("This type is not supported"@)
                },
                FilterType::Photos => Ok(m.photo.unwrap()@),
                _ => Err("Reply to an image to set it as chat picture"@),
            },
        },
    }
}

pub open spec fn chatpic_view(s: ChatPicStep) -> Result<Seq<char>, Seq<char>> {
    match s {
        ChatPicStep::Reply(t) => Err(t@),
        ChatPicStep::Download { file_id } => Ok(file_id@),
    }
}

/// The decision of `set_chatpic`, given the top-level MIME type of the
/// replied-to document (`doc_type`): a document picture or a photo is
/// downloaded, anything else refused. `public_title` is the title of the
/// chat when it is a group, `None` for any other chat.
pub fn decide_chatpic_with(reply: &Option<MessageContent>, public_title: &Option<String>, doc_type: &Option<String>) -> (r: ChatPicStep)
    ensures
        chatpic_view(r) == spec_chatpic_step(*reply, match public_title {
            Some(t) => Some(t@),
            None => None,
        }, match doc_type {
            Some(t) => Some(t@),
            None => None,
        }),
{
    match reply {
        None => ChatPicStep::Reply(string_of("Reply to a picture to set it as a chat picture")),
        Some(m) => {
            if public_title.is_none() {
                return ChatPicStep::Reply(string_of("This command can only be used in a group"));
            }
            let kind = FilterType::parse(get_filter_type(m).as_str());
            proof {
                lemma_filter_kind(*m);
            }
            match kind {
                FilterType::Document => {
                    let is_image = match doc_type {
                        Some(t) => str_eq(t.as_str(), "image"),
                        None => false,
                    };
                    if is_image {
                        ChatPicStep::Download { file_id: m.document.as_ref().unwrap().clone() }
                    } else {
                        ChatPicStep::Reply(string_of("This type is not supported"))
                    }
                },
                FilterType::Photos => ChatPicStep::Download { file_id: m.photo.as_ref().unwrap().clone() },
                _ => ChatPicStep::Reply(string_of("Reply to an image to set it as chat picture")),
            }
        },
    }
}

/// The decision of `set_chatpic`: reads the MIME type of a replied-to
/// document, then decides as `decide_chatpic_with`.
pub fn decide_chatpic(reply: &Option<MessageContent>, public_title: &Option<String>) -> (r: ChatPicStep)
    requires
        reply matches Some(m) ==> (m.document is Some ==> m.document_mime is Some),
    ensures
        reply is None ==> chatpic_view(r) == spec_chatpic_step(*reply, None, None),
        reply matches Some(m) ==> (public_title is None ==> chatpic_view(r) == spec_chatpic_step(
            *reply,
            None,
            None,
        )),
        reply matches Some(m) ==> (public_title matches Some(t) ==> (
        spec_filter_kind(*m) == FilterType::Document ==> chatpic_view(r)
            == spec_chatpic_step(*reply, Some(t@), spec_mime_top_type(m.document_mime.unwrap()@)))),
        reply matches Some(m) ==> (public_title matches Some(t) ==> (
        spec_filter_kind(*m) != FilterType::Document ==> chatpic_view(r)
            == spec_chatpic_step(*reply, Some(t@), None))),
{
    let doc_type = match reply {
        Some(m) => {
            if m.document.is_some() && public_title.is_some() {
                let mt = m.document_mime.as_ref().unwrap();
                mime_top_type(mt.as_str())
            } else {
                None
            }
        },
        None => None,
    };
    decide_chatpic_with(reply, public_title, &doc_type)
}

/// The reply once the chat's picture is set.
pub fn chatpic_done_reply(title: &str) -> (r: String)
    ensures
        r@ == "Chat picture updated for chat "@ + title@,
{
    let mut out = string_of("Chat picture updated for chat ");
    out.append(title);
    out
}

/// The file the picture is downloaded to: the chat id without its sign,
/// then `.png`.
pub fn chatpic_path(chat_id: i64) -> (r: String)
    requires
        chat_id != i64::MIN,
    ensures
        r@ == dec((if chat_id < 0 {
            -chat_id
        } else {
            chat_id as int
        }) as nat) + ".png"@,
{
    let a: u64 = if chat_id < 0 {
        (-chat_id) as u64
    } else {
        chat_id as u64
    };
    let mut out = fmt_u64(a);
    out.append(".png");
    out
}

} // verus!
