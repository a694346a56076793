//! Looking a word up in Urban Dictionary, and pasting text to katbin.
use vstd::prelude::*;
use crate::files::{mime_top_type, spec_mime_top_type};
use crate::model::MessageContent;
use crate::patterns::{regex_replace_all, spec_regex_replace_all};
use crate::text::{join, seq_join, str_eq, string_of, take_chars, truncate_chars, views};

verus! {

/// Telegram's limit on a message, in characters.
pub const MESSAGE_LIMIT: usize = 4096;

/// A dictionary lookup: the term, and the address it is asked at.
pub struct UdQuery {
    pub term: String,
    pub url: String,
}

/// The term of `ud`, the arguments joined with nothing between them, and
/// the address of its lookup; or the reply when no term was given.
pub fn ud_query(args: &Vec<String>) -> (r: Result<UdQuery, String>)
    ensures
        args.len() == 0 ==> (r matches Err(s) && s@ == "Please enter a keyword to search"@),
        args.len() > 0 ==> (r matches Ok(q) && q.term@ == seq_join(views(args@), ""@) && q.url@
            == "http://api.urbandictionary.com/v0/define?term="@ + q.term@),
{
    if args.len() == 0 {
        return Err(string_of("Please enter a keyword to search"));
    }
    let term = join(args, "");
    let mut url = string_of("http://api.urbandictionary.com/v0/define?term=");
    url.append(term.as_str());
    Ok(UdQuery { term, url })
}

/// The reply when the dictionary has no entry.
pub fn ud_no_result() -> (r: String)
    ensures
        r@ == "No result found for the keyword"@,
{
    string_of("No result found for the keyword")
}

/// The label of the button that leads to the entry's page.
pub fn ud_button_label() -> (r: String)
    ensures
        r@ == "Know More"@,
{
    string_of("Know More")
}

/// The entry as the reply shows it, before its brackets are taken out.
pub open spec fn spec_ud_text(term: Seq<char>, definition: Seq<char>, example: Seq<char>) -> Seq<char> {
    "<b>Word:</b> "@ + term + "\n<b>Definition:</b>\n"@ + definition + "\n\n<i>Example:\n"@
        + example + "</i>"@
}

/// The pattern of the characters taken out of an entry: square brackets.
pub open spec fn bracket_pattern() -> Seq<char> {
    "[\\[\\]]"@
}

/// The reply once the brackets are out: cut to Telegram's limit.
pub fn ud_reply_from(cleaned: &str) -> (r: String)
    ensures
        r@ == take_chars(cleaned@, MESSAGE_LIMIT as nat),
{
    let (t, _) = truncate_chars(cleaned, MESSAGE_LIMIT);
    t
}

/// The reply of `ud` for an entry: its text with the square brackets taken
/// out (by the bracket pattern), cut to Telegram's limit of characters.
/// `None` only when the pattern does not compile.
pub fn ud_reply(term: &str, definition: &str, example: &str) -> (r: Option<String>)
    ensures
        r is Some <==> spec_regex_replace_all(
            bracket_pattern(),
            spec_ud_text(term@, definition@, example@),
            ""@,
        ) is Some,
        r matches Some(s) ==> s@ == take_chars(
            spec_regex_replace_all(
                bracket_pattern(),
                spec_ud_text(term@, definition@, example@),
                ""@,
            ).unwrap(),
            MESSAGE_LIMIT as nat,
        ),
{
    let mut text = string_of("<b>Word:</b> ");
    text.append(term);
    text.append("\n<b>Definition:</b>\n");
    text.append(definition);
    text.append("\n\n<i>Example:\n");
    text.append(example);
    text.append("</i>");
    match regex_replace_all("[\\[\\]]", text.as_str(), "") {
        None => None,
        Some(c) => Some(ud_reply_from(c.as_str())),
    }
}

/// What `paste` does.
pub enum PasteStep {
    /// Paste this text.
    Paste(String),
    /// Fetch the file of this id; when `download`, paste its contents, else
    /// reply with `invalid_file_reply`.
    Fetch { file_id: String, download: bool },
    /// Only reply.
    Reply(String),
}

pub enum SpecPaste {
    Paste(Seq<char>),
    Fetch(Seq<char>, bool),
    Reply(Seq<char>),
}

pub open spec fn paste_view(p: PasteStep) -> SpecPaste {
    match p {
        PasteStep::Paste(t) => SpecPaste::Paste(t@),
        PasteStep::Fetch { file_id, download } => SpecPaste::Fetch(file_id@, download),
        PasteStep::Reply(t) => SpecPaste::Reply(t@),
    }
}

/// Whether a file of this top-level MIME type is pasted: text, or the
/// `octet-stream` name.
pub open spec fn pastable(doc_type: Option<Seq<char>>) -> bool {
    doc_type == Some("text"@) || doc_type == Some("octet-stream"@)
}

pub open spec fn spec_plan_paste(args: Seq<Seq<char>>, reply: Option<MessageContent>, doc_type: Option<Seq<char>>) -> SpecPaste {
    if args.len() > 0 {
        SpecPaste::Paste(seq_join(args, " "@))
    } else {
        match reply {
            None => SpecPaste::Reply("No data was provided to paste"@),
            Some(m) => match m.text {
                Some(t) => SpecPaste::Paste(t@),
                None => match m.document {
                    Some(d) => SpecPaste::Fetch(d@, pastable(doc_type)),
                    None => SpecPaste::Reply("This file format is not supported"@),
                },
            },
        }
    }
}

/// The decision of `paste`, given the top-level MIME type of the replied-to
/// document: the arguments joined by single spaces, else the replied-to
/// text, else the replied-to document when it is text.
pub fn plan_paste_with(args: &Vec<String>, reply: &Option<MessageContent>, doc_type: &Option<String>) -> (r: PasteStep)
    ensures
        paste_view(r) == spec_plan_paste(views(args@), *reply, match doc_type {
            Some(t) => Some(t@),
            None => None,
        }),
{
    if args.len() > 0 {
        return PasteStep::Paste(join(args, " "));
    }
    match reply {
        None => PasteStep::Reply(string_of("No data was provided to paste")),
        Some(m) => match &m.text {
            Some(t) => PasteStep::Paste(t.clone()),
            None => match &m.document {
                Some(d) => {
                    let download = match doc_type {
                        Some(t) => str_eq(t.as_str(), "text") || str_eq(t.as_str(), "octet-stream"),
                        None => false,
                    };
                    PasteStep::Fetch { file_id: d.clone(), download }
                },
                None => PasteStep::Reply(string_of("This file format is not supported")),
            },
        },
    }
}

/// The MIME type that `paste` reads: that of the replied-to document.
pub open spec fn paste_doc_type(reply: Option<MessageContent>) -> Option<Seq<char>> {
    match reply {
        Some(m) => match m.document_mime {
            Some(t) => spec_mime_top_type(t@),
            None => None,
        },
        None => None,
    }
}

/// The decision of `paste`: reads the MIME type of a replied-to document,
/// then decides as `plan_paste_with`. A replied-to document that `paste`
/// would fetch must declare its MIME type.
pub fn plan_paste(args: &Vec<String>, reply: &Option<MessageContent>) -> (r: PasteStep)
    requires
        args.len() == 0 ==> (reply matches Some(m) ==> (m.text is None ==> (m.document is Some
            ==> m.document_mime is Some))),
    ensures
        paste_view(r) == spec_plan_paste(views(args@), *reply, paste_doc_type(*reply)),
{
    let doc_type: Option<String> = match reply {
        Some(m) => match &m.document_mime {
            Some(t) => mime_top_type(t.as_str()),
            None => None,
        },
        None => None,
    };
    plan_paste_with(args, reply, &doc_type)
}

/// The reply when a replied-to document is not text.
pub fn invalid_file_reply() -> (r: String)
    ensures
        r@ == "Invalid file type"@,
{
    string_of("Invalid file type")
}

/// Where pastes are sent.
pub fn paste_api_url() -> (r: String)
    ensures
        r@ == "https://api.katb.in/api/paste"@,
{
    string_of("https://api.katb.in/api/paste")
}

/// The reply to katbin's answer: the link to the paste when it says it
/// created one (`None` when it then gives no id), else its message itself.
pub fn paste_reply(msg: &str, paste_id: &Option<String>) -> (r: Option<Result<String, String>>)
    ensures
        msg@ != "Successfully created paste"@ ==> (r matches Some(Err(e)) && e@ == msg@),
        msg@ == "Successfully created paste"@ ==> match paste_id {
            Some(k) => (r matches Some(Ok(t)) && t@ == "<b>I have pasted that for you</b>\n\nhttps://katb.in/"@ + k@),
            None => r is None,
        },
{
    if !str_eq(msg, "Successfully created paste") {
        return Some(Err(string_of(msg)));
    }
    match paste_id {
        Some(k) => {
            let mut t = string_of("<b>I have pasted that for you</b>\n\nhttps://katb.in/");
            t.append(k.as_str());
            Some(Ok(t))
        },
        None => None,
    }
}

} // verus!
