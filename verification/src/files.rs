//! Files sent to the bot: the type their MIME declaration names, and the
//! address a file is downloaded from.
use vstd::prelude::*;
use crate::text::string_of;

verus! {

/// What the `mime` crate reads as the top-level type (`image` in
/// `image/png`) of a MIME declaration, or `None` when it cannot read it.
pub uninterp spec fn spec_mime_top_type(s: Seq<char>) -> Option<Seq<char>>;

/// Calls `s.parse::<mime::Mime>()`, then `type_()` of the result. The
/// contract claims only that the result is `spec_mime_top_type` of the text;
/// what that is on a given text is not stated.
#[verifier::external_body]
pub(crate) fn mime_top_type(s: &str) -> (r: Option<String>)
    ensures
        match r {
            Some(t) => spec_mime_top_type(s@) == Some(t@),
            None => spec_mime_top_type(s@) is None,
        },
{
    s.parse::<mime::Mime>().ok().map(|m| m.type_().as_str().to_string())
}

/// The address of a file of the Bot API: the bot's token and the file's
/// path on Telegram's server.
pub open spec fn spec_file_url(token: Seq<char>, path: Seq<char>) -> Seq<char> {
    "https://api.telegram.org/file/bot"@ + token + "/"@ + path
}

pub fn file_url(token: &str, path: &str) -> (r: String)
    ensures
        r@ == spec_file_url(token@, path@),
{
    let mut out = string_of("https://api.telegram.org/file/bot");
    out.append(token);
    out.append("/");
    out.append(path);
    out
}

} // verus!
