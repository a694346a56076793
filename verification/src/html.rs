//! Telegram HTML helpers of `teloxide::utils::html`, and the parsing of a
//! command line by `teloxide::utils::command::parse_command`.
use vstd::prelude::*;
use crate::model::TgUser;
use crate::numparse::dec_i64;
use crate::text::{views, words};

verus! {

/// What `html::escape` makes of one character.
pub open spec fn escape_char(c: char) -> Seq<char> {
    if c == '&' {
        "&amp;"@
    } else if c == '<' {
        "&lt;"@
    } else if c == '>' {
        "&gt;"@
    } else {
        seq![c]
    }
}

/// `html::escape`: `&`, `<` and `>` replaced by their entities.
pub open spec fn spec_escape(s: Seq<char>) -> Seq<char>
    decreases s.len(),
{
    if s.len() == 0 {
        Seq::empty()
    } else {
        escape_char(s[0]) + spec_escape(s.drop_first())
    }
}

/// `html::link`.
pub open spec fn spec_link(url: Seq<char>, text: Seq<char>) -> Seq<char> {
    "<a href=\""@ + spec_escape(url) + "\">"@ + spec_escape(text) + "</a>"@
}

/// `html::user_mention`.
pub open spec fn spec_user_mention(id: i64, text: Seq<char>) -> Seq<char> {
    spec_link("tg://user?id="@ + dec_i64(id), text)
}

/// `html::code_inline`.
pub open spec fn spec_code_inline(s: Seq<char>) -> Seq<char> {
    "<code>"@ + spec_escape(s) + "</code>"@
}

/// `User::full_name`: the first name, then a space and the last name if any.
pub open spec fn spec_full_name(u: TgUser) -> Seq<char> {
    match u.last_name {
        Some(l) => u.first_name@ + " "@ + l@,
        None => u.first_name@,
    }
}

/// `html::user_mention_or_link`: `@username` when the user has one, else a
/// link to the user's `tg://user/?id=` address with the full name.
pub open spec fn spec_mention_or_link(u: TgUser) -> Seq<char> {
    match u.username {
        Some(n) => "@"@ + n@,
        None => spec_link("tg://user/?id="@ + dec_i64(u.id), spec_full_name(u)),
    }
}

/// Calls `teloxide::utils::html::escape`. The contract claims what its chain
/// of `replace` calls gives: `&`, `<` and `>` become `&amp;`, `&lt;` and
/// `&gt;`, every other character stays.
#[verifier::external_body]
pub(crate) fn escape(s: &str) -> (r: String)
    ensures
        r@ == spec_escape(s@),
{
    teloxide::utils::html::escape(s)
}

/// Calls `teloxide::utils::html::link`. The contract claims the anchor it
/// formats: `<a href="url">text</a>`, both escaped.
#[verifier::external_body]
pub(crate) fn link(url: &str, text: &str) -> (r: String)
    ensures
        r@ == spec_link(url@, text@),
{
    teloxide::utils::html::link(url, text)
}

/// Calls `teloxide::utils::html::user_mention`. The contract claims a link to
/// `tg://user?id=` and the id in decimal, with the escaped text.
#[verifier::external_body]
pub(crate) fn user_mention(id: i64, text: &str) -> (r: String)
    ensures
        r@ == spec_user_mention(id, text@),
{
    teloxide::utils::html::user_mention(id, text)
}

/// Calls `teloxide::utils::html::code_inline`. The contract claims the
/// escaped text between `<code>` and `</code>`.
#[verifier::external_body]
pub(crate) fn code_inline(s: &str) -> (r: String)
    ensures
        r@ == spec_code_inline(s@),
{
    teloxide::utils::html::code_inline(s)
}

/// Calls `teloxide::utils::html::user_mention_or_link` on a `User` built from
/// `u` (with no language code, which it does not read). The contract claims
/// `@username` when the user has one, else a link to `tg://user/?id=` and the
/// id with the user's full name.
#[verifier::external_body]
pub(crate) fn mention_or_link(u: &TgUser) -> (r: String)
    ensures
        r@ == spec_mention_or_link(*u),
{
    let user = teloxide::types::User {
        id: u.id,
        is_bot: u.is_bot,
        first_name: u.first_name.clone(),
        last_name: u.last_name.clone(),
        username: u.username.clone(),
        language_code: None,
    };
    teloxide::utils::html::user_mention_or_link(&user)
}

/// Calls `User::full_name` on a `User` built from `u`. The contract claims
/// the first name, then a space and the last name when there is one.
#[verifier::external_body]
pub(crate) fn full_name(u: &TgUser) -> (r: String)
    ensures
        r@ == spec_full_name(*u),
{
    let user = teloxide::types::User {
        id: u.id,
        is_bot: u.is_bot,
        first_name: u.first_name.clone(),
        last_name: u.last_name.clone(),
        username: u.username.clone(),
        language_code: None,
    };
    user.full_name()
}

/// Index of the first `c` in `s`, or `s.len()`.
pub open spec fn find_char(s: Seq<char>, c: char) -> int
    decreases s.len(),
{
    if s.len() == 0 {
        0
    } else if s[0] == c {
        0
    } else {
        1 + find_char(s.drop_first(), c)
    }
}

pub proof fn lemma_find_char(s: Seq<char>, c: char)
    ensures
        0 <= find_char(s, c) <= s.len(),
        find_char(s, c) < s.len() ==> s[find_char(s, c)] == c,
        forall|k: int| 0 <= k < find_char(s, c) ==> s[k] != c,
    decreases s.len(),
{
    if s.len() > 0 && s[0] != c {
        lemma_find_char(s.drop_first(), c);
        assert forall|k: int| 0 <= k < find_char(s, c) implies s[k] != c by {
            if k > 0 {
                assert(s[k] == s.drop_first()[k - 1]);
            }
        }
    }
}

/// Index of the first `c` in `s`, or its length.
pub fn char_index(s: &str, c: char) -> (r: usize)
    ensures
        r == find_char(s@, c),
        r <= s@.len(),
{
    let n = s.unicode_len();
    let mut i: usize = 0;
    while i < n && s.get_char(i) != c
        invariant
            n == s@.len(),
            i <= n,
            forall|k: int| 0 <= k < i ==> s@[k] != c,
        decreases n - i,
    {
        i = i + 1;
    }
    proof {
        lemma_find_char(s@, c);
    }
    i
}

/// `parse_command(text, bot_name)`: a text starting with `/` gives the
/// command (the first word without the slash, up to the first `@`) and the
/// other words; when an `@name` follows the command, `name` must be the bot's.
pub open spec fn spec_parse_command(text: Seq<char>, bot_name: Seq<char>) -> Option<
    (Seq<char>, Seq<Seq<char>>),
> {
    if text.len() == 0 || text[0] != '/' {
        None
    } else {
        let w = words(text);
        let first = w[0].drop_first();
        let at = find_char(first, '@');
        let command = first.take(at);
        if at >= first.len() {
            Some((command, w.drop_first()))
        } else {
            let after = first.skip(at + 1);
            let name = after.take(find_char(after, '@'));
            if name == bot_name {
                Some((command, w.drop_first()))
            } else {
                None
            }
        }
    }
}

/// A command and its arguments.
pub struct CommandLine {
    pub command: String,
    pub args: Vec<String>,
}

/// Calls `teloxide::utils::command::parse_command`. The contract claims what
/// its source does: `None` unless the text starts with `/`; else the first
/// whitespace-separated word without the `/`, cut at `@`, as the command,
/// provided the name after the `@` (up to a further `@`), if any, is
/// `bot_name`; and the other words as the arguments.
#[verifier::external_body]
pub(crate) fn parse_command(text: &str, bot_name: &str) -> (r: Option<CommandLine>)
    ensures
        r is Some <==> spec_parse_command(text@, bot_name@) is Some,
        r matches Some(c) ==> spec_parse_command(text@, bot_name@) == Some(
            (c.command@, views(c.args@)),
        ),
{
    teloxide::utils::command::parse_command(text, bot_name).map(
        |(c, a)|
            CommandLine {
                command: c.to_string(),
                args: a.into_iter().map(|s| s.to_string()).collect(),
            },
    )
}

/// The name the bot answers to in commands.
pub open spec fn spec_bot_name() -> Seq<char> {
    "grpmr_bot"@
}

pub fn bot_name() -> (r: &'static str)
    ensures
        r@ == spec_bot_name(),
{
    "grpmr_bot"
}

/// The arguments of a command addressed to the bot named `name`, as
/// `parse_command` reads them; `None` when the text is no such command.
pub fn command_args(text: &str, name: &str) -> (r: Option<Vec<String>>)
    ensures
        match spec_parse_command(text@, name@) {
            Some((_, args)) => r matches Some(v) && views(v@) == args,
            None => r is None,
        },
{
    match parse_command(text, name) {
        Some(c) => Some(c.args),
        None => None,
    }
}

} // verus!
