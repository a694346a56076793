//! Regular expressions of the `regex` crate, as filters, blacklists and
//! warn buttons use them.
use vstd::prelude::*;
use crate::numparse::{dec_i64, law_parse_i64_reads_dec, parse_i64, spec_parse_i64};
use crate::text::string_of;

verus! {

/// `regex_syntax::is_meta_character`.
pub open spec fn is_meta(c: char) -> bool {
    c == '\\' || c == '.' || c == '+' || c == '*' || c == '?' || c == '(' || c == ')' || c == '|'
        || c == '[' || c == ']' || c == '{' || c == '}' || c == '^' || c == '$' || c == '#' || c
        == '&' || c == '-' || c == '~'
}

/// `regex::escape`: a backslash before each meta character.
pub open spec fn spec_regex_escape(s: Seq<char>) -> Seq<char>
    decreases s.len(),
{
    if s.len() == 0 {
        Seq::empty()
    } else {
        (if is_meta(s[0]) {
            seq!['\\', s[0]]
        } else {
            seq![s[0]]
        }) + spec_regex_escape(s.drop_first())
    }
}

/// Calls `regex::escape`. The contract claims what its loop does: a
/// backslash before each character that `is_meta_character` lists, every
/// character kept in order.
#[verifier::external_body]
pub(crate) fn regex_escape(s: &str) -> (r: String)
    ensures
        r@ == spec_regex_escape(s@),
{
    regex::escape(s)
}

/// Whether `text` holds a match of `pattern` (compiled case-insensitively
/// or not), or `None` when `pattern` does not compile.
pub uninterp spec fn spec_regex_is_match(
    pattern: Seq<char>,
    text: Seq<char>,
    case_insensitive: bool,
) -> Option<bool>;

/// Calls `regex::RegexBuilder::new(pattern).case_insensitive(..).build()`,
/// then `Regex::is_match(text)`. The contract claims only that the result
/// is `spec_regex_is_match` of the pattern, the text and the flag, `None`
/// when the pattern does not compile; what the pattern language means is
/// not stated.
#[verifier::external_body]
pub(crate) fn regex_is_match(pattern: &str, text: &str, case_insensitive: bool) -> (r: Option<bool>)
    ensures
        r == spec_regex_is_match(pattern@, text@, case_insensitive),
{
    regex::RegexBuilder::new(pattern).case_insensitive(case_insensitive).build().ok().map(
        |re| re.is_match(text),
    )
}

/// The first match of `pattern` in `text` (compiled case-sensitively), with
/// the texts of its first two groups; `None` when there is no match or the
/// pattern does not compile.
pub uninterp spec fn spec_regex_captures2(pattern: Seq<char>, text: Seq<char>) -> Option<
    (Option<Seq<char>>, Option<Seq<char>>),
>;

/// Calls `regex::Regex::new(pattern)`, then `Regex::captures(text)`, and
/// takes groups 1 and 2. The contract claims only that the result is
/// `spec_regex_captures2` of the pattern and the text.
#[verifier::external_body]
pub(crate) fn regex_captures2(pattern: &str, text: &str) -> (r: Option<(Option<String>, Option<String>)>)
    ensures
        match r {
            None => spec_regex_captures2(pattern@, text@) is None,
            Some((a, b)) => spec_regex_captures2(pattern@, text@) == Some(
                (
                    match a {
                        Some(x) => Some(x@),
                        None => None,
                    },
                    match b {
                        Some(x) => Some(x@),
                        None => None,
                    },
                ),
            ),
        },
{
    regex::Regex::new(pattern).ok().and_then(|re| re.captures(text)).map(
        |c| (c.get(1).map(|m| m.as_str().to_string()), c.get(2).map(|m| m.as_str().to_string())),
    )
}

/// `text` with every match of `pattern` replaced by `rep`, or `None` when
/// the pattern does not compile.
pub uninterp spec fn spec_regex_replace_all(pattern: Seq<char>, text: Seq<char>, rep: Seq<char>) -> Option<Seq<char>>;

/// Calls `regex::Regex::new(pattern)`, then `Regex::replace_all(text, rep)`.
/// The contract claims only that the result is `spec_regex_replace_all` of
/// the pattern, the text and the replacement.
#[verifier::external_body]
pub(crate) fn regex_replace_all(pattern: &str, text: &str, rep: &str) -> (r: Option<String>)
    ensures
        match r {
            None => spec_regex_replace_all(pattern@, text@, rep@) is None,
            Some(x) => spec_regex_replace_all(pattern@, text@, rep@) == Some(x@),
        },
{
    regex::Regex::new(pattern).ok().map(|re| re.replace_all(text, rep).into_owned())
}

/// The pattern that finds a word standing on its own: preceded by a space,
/// the start or a non-word character, and followed by a space, the end or a
/// non-word character.
pub open spec fn spec_word_pattern(word: Seq<char>) -> Seq<char> {
    "( |^|[^\\w])"@ + spec_regex_escape(word) + "( |$|[^\\w])"@
}

pub fn word_pattern(word: &str) -> (r: String)
    ensures
        r@ == spec_word_pattern(word@),
{
    let mut out = string_of("( |^|[^\\w])");
    out.append(regex_escape(word).as_str());
    out.append("( |$|[^\\w])");
    out
}

/// Whether `word` occurs on its own in `text`, letter case aside; `None` when
/// its pattern does not compile.
pub open spec fn spec_word_matches(word: Seq<char>, text: Seq<char>) -> Option<bool> {
    spec_regex_is_match(spec_word_pattern(word), text, true)
}

/// The words among `words` that occur on their own in `text`, in order;
/// `None` when one of their patterns does not compile.
pub open spec fn spec_matching_words(words: Seq<Seq<char>>, text: Seq<char>) -> Option<
    Seq<Seq<char>>,
>
    decreases words.len(),
{
    if words.len() == 0 {
        Some(Seq::empty())
    } else {
        match spec_word_matches(words[0], text) {
            None => None,
            Some(hit) => match spec_matching_words(words.drop_first(), text) {
                None => None,
                Some(rest) => Some(
                    if hit {
                        seq![words[0]] + rest
                    } else {
                        rest
                    },
                ),
            },
        }
    }
}

/// Words of `ws[i..]` that match, as `spec_matching_words` gives them.
proof fn lemma_matching_step(ws: Seq<Seq<char>>, i: int, text: Seq<char>)
    requires
        0 <= i < ws.len(),
    ensures
        spec_matching_words(ws.skip(i), text) == match spec_word_matches(ws[i], text) {
            None => None,
            Some(hit) => match spec_matching_words(ws.skip(i + 1), text) {
                None => None,
                Some(rest) => Some(
                    if hit {
                        seq![ws[i]] + rest
                    } else {
                        rest
                    },
                ),
            },
        },
{
    assert(ws.skip(i).drop_first() == ws.skip(i + 1));
    assert(ws.skip(i)[0] == ws[i]);
}

/// A word whose pattern does not compile spoils the answer for every
/// suffix that holds it.
proof fn lemma_matching_none(ws: Seq<Seq<char>>, j: int, i: int, text: Seq<char>)
    requires
        0 <= j <= i <= ws.len(),
        spec_matching_words(ws.skip(i), text) is None,
    ensures
        spec_matching_words(ws.skip(j), text) is None,
    decreases i - j,
{
    if j < i {
        lemma_matching_none(ws, j + 1, i, text);
        lemma_matching_step(ws, j, text);
    }
}

pub fn matching_words(words: &Vec<String>, text: &str) -> (r: Option<Vec<String>>)
    ensures
        match r {
            None => spec_matching_words(crate::text::views(words@), text@) is None,
            Some(v) => spec_matching_words(crate::text::views(words@), text@) == Some(
                crate::text::views(v@),
            ),
        },
{
    let ghost ws = crate::text::views(words@);
    // Decide right to left so each step prepends to the answer for the rest.
    let mut i: usize = words.len();
    let mut acc: Vec<String> = Vec::new();
    assert(ws.skip(ws.len() as int) == Seq::<Seq<char>>::empty());
    while i > 0
        invariant
            i <= words.len(),
            ws == crate::text::views(words@),
            spec_matching_words(ws.skip(i as int), text@) == Some(crate::text::views(acc@)),
        decreases i,
    {
        i = i - 1;
        let pat = word_pattern(words[i].as_str());
        let hit = regex_is_match(pat.as_str(), text, true);
        proof {
            lemma_matching_step(ws, i as int, text@);
        }
        match hit {
            None => {
                proof {
                    lemma_matching_none(ws, 0, i as int, text@);
                    assert(ws.skip(0) == ws);
                }
                return None;
            },
            Some(h) => {
                if h {
                    let ghost old_acc = acc@;
                    acc.insert(0, words[i].clone());
                    assert(crate::text::views(acc@) == seq![ws[i as int]] + crate::text::views(
                        old_acc,
                    ));
                }
            },
        }
    }
    assert(ws.skip(0) == ws);
    Some(acc)
}

pub open spec fn opt_seq(o: Option<Seq<char>>) -> i64 {
    match o {
        Some(s) => match spec_parse_i64(s) {
            Some(v) => v,
            None => 0,
        },
        None => 0,
    }
}

/// The data of a "Remove Warn" button.
pub open spec fn spec_unwarn_pattern() -> Seq<char> {
    "rm_warn\\((.+?),(.+?)\\)"@
}

/// The chat and the warned user named by the data of a "Remove Warn" button:
/// the two groups of its match, each 0 when absent. `None` when there is no
/// match or a group is not a number: reading such data panics.
pub open spec fn spec_unwarn_data(d: Seq<char>) -> Option<(i64, i64)> {
    match spec_regex_captures2(spec_unwarn_pattern(), d) {
        None => None,
        Some((a, b)) => {
            let ok_a = match a {
                Some(s) => spec_parse_i64(s) is Some,
                None => true,
            };
            let ok_b = match b {
                Some(s) => spec_parse_i64(s) is Some,
                None => true,
            };
            if ok_a && ok_b {
                Some((opt_seq(a), opt_seq(b)))
            } else {
                None
            }
        },
    }
}

fn group_number(g: &Option<String>) -> (r: Option<i64>)
    ensures
        match g {
            Some(s) => r == spec_parse_i64(s@),
            None => r == Some(0i64),
        },
{
    match g {
        Some(s) => parse_i64(s.as_str()),
        None => Some(0),
    }
}

pub fn unwarn_data(d: &str) -> (r: Option<(i64, i64)>)
    ensures
        r == spec_unwarn_data(d@),
{
    let caps = regex_captures2("rm_warn\\((.+?),(.+?)\\)", d);
    match caps {
        None => None,
        Some((a, b)) => {
            let na = group_number(&a);
            let nb = group_number(&b);
            match (na, nb) {
                (Some(x), Some(y)) => Some((x, y)),
                _ => None,
            }
        },
    }
}

/// Whether callback data asks to remove a warn; `None` when the pattern does
/// not compile.
pub open spec fn spec_is_unwarn_request(d: Seq<char>) -> Option<bool> {
    spec_regex_is_match("rm_warn\\((.+?)\\)"@, d, false)
}

pub fn is_unwarn_request(d: &str) -> (r: Option<bool>)
    ensures
        r == spec_is_unwarn_request(d@),
{
    regex_is_match("rm_warn\\((.+?)\\)", d, false)
}

/// The data of a warn's "Remove Warn" button, read back by the unwarn
/// handler, names the chat and the user of the warn, wherever the pattern's
/// two groups match the two numbers it was written with.
pub proof fn law_unwarn_data_reads_back(chat_id: i64, user_id: i64)
    ensures
        spec_regex_captures2(
            spec_unwarn_pattern(),
            "rm_warn("@ + dec_i64(chat_id) + ","@ + dec_i64(user_id) + ")"@,
        ) == Some((Some(dec_i64(chat_id)), Some(dec_i64(user_id)))) ==> spec_unwarn_data(
            "rm_warn("@ + dec_i64(chat_id) + ","@ + dec_i64(user_id) + ")"@,
        ) == Some((chat_id, user_id)),
{
    law_parse_i64_reads_dec(chat_id);
    law_parse_i64_reads_dec(user_id);
}

} // verus!
