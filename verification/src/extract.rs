//! Finding the user a command is aimed at: a text mention, an `@username`,
//! a numeric id, or the author of the message replied to; and the text that
//! follows the target.
use vstd::prelude::*;
use vstd::utf8::{decode_utf8, encode_utf8};
use vstd::string::StringSliceAdditionalSpecFns;
use crate::numparse::{parse_i64, spec_parse_i64};
use crate::text::{
    push_char, split_once_whitespace, split_once_ws, split_whitespace, string_of, to_lowercase,
    spec_to_lowercase, views, words,
};

verus! {

/// An entity of a message: where it stands (as Telegram counts) and, for a
/// text mention, the user mentioned.
#[derive(PartialEq, Eq, Structural, Clone, Copy, Debug)]
pub struct Entity {
    pub offset: usize,
    pub length: usize,
    pub mention_user: Option<i64>,
}

/// The message a command replies to.
#[derive(PartialEq, Eq, Structural, Clone, Copy, Debug)]
pub struct ReplyInfo {
    pub from_id: Option<i64>,
    pub has_text: bool,
}

/// The user aimed at and the text that goes with it.
pub struct Target {
    pub user_id: Option<i64>,
    pub text: Option<String>,
}

/// A target as values.
pub struct SpecTarget {
    pub user_id: Option<i64>,
    pub text: Option<Seq<char>>,
}

impl Target {
    pub open spec fn view(&self) -> SpecTarget {
        SpecTarget {
            user_id: self.user_id,
            text: match self.text {
                Some(t) => Some(t@),
                None => None,
            },
        }
    }
}

/// `extract_id_from_reply`: the author of the message replied to, with an
/// empty text when that message has text.
pub open spec fn spec_reply_target(reply: Option<ReplyInfo>) -> SpecTarget {
    match reply {
        Some(r) => match r.from_id {
            Some(id) => SpecTarget {
                user_id: Some(id),
                text: if r.has_text {
                    Some(Seq::empty())
                } else {
                    None
                },
            },
            None => SpecTarget { user_id: None, text: None },
        },
        None => SpecTarget { user_id: None, text: None },
    }
}

pub fn extract_id_from_reply(reply: &Option<ReplyInfo>) -> (r: Target)
    ensures
        r.view() == spec_reply_target(*reply),
{
    match reply {
        Some(r) => match r.from_id {
            Some(id) => Target {
                user_id: Some(id),
                text: if r.has_text {
                    Some(String::new())
                } else {
                    None
                },
            },
            None => Target { user_id: None, text: None },
        },
        None => Target { user_id: None, text: None },
    }
}

/// What remains to be done to find the target.
pub enum TargetStep {
    /// The target is known.
    Done(Target),
    /// The `@username` must be looked up among the users the bot has seen.
    LookupUsername { username: String, text: Option<String> },
    /// The bot must check that it knows the chat of this user.
    CheckChat { user_id: i64, text: Option<String> },
    /// The text mention points past the text or inside a character; slicing
    /// the text there panics.
    MentionOutOfRange,
}

/// The steps as values.
pub enum SpecStep {
    Done(SpecTarget),
    Lookup(Seq<char>, Option<Seq<char>>),
    Check(i64, Option<Seq<char>>),
    OutOfRange,
}

pub open spec fn opt_view(o: Option<String>) -> Option<Seq<char>> {
    match o {
        Some(s) => Some(s@),
        None => None,
    }
}

impl TargetStep {
    pub open spec fn view(&self) -> SpecStep {
        match self {
            TargetStep::Done(t) => SpecStep::Done(t.view()),
            TargetStep::LookupUsername { username, text } => SpecStep::Lookup(
                username@,
                opt_view(*text),
            ),
            TargetStep::CheckChat { user_id, text } => SpecStep::Check(*user_id, opt_view(*text)),
            TargetStep::MentionOutOfRange => SpecStep::OutOfRange,
        }
    }
}

/// The first entity that is a text mention, if any.
pub open spec fn first_mention(es: Seq<Entity>) -> Option<Entity>
    decreases es.len(),
{
    if es.len() == 0 {
        None
    } else if es[0].mention_user is Some {
        Some(es[0])
    } else {
        first_mention(es.drop_first())
    }
}

/// `s` without its `@` characters.
pub open spec fn drop_at_signs(s: Seq<char>) -> Seq<char> {
    s.filter(|c: char| c != '@')
}

/// The text after the first two whitespace-separated pieces, as the third
/// piece of `splitn(3, char::is_whitespace)`.
pub open spec fn third_piece(t: Seq<char>) -> Option<Seq<char>> {
    match split_once_ws(t).1 {
        Some(rest) => split_once_ws(rest).1,
        None => None,
    }
}

/// When the command text names a user, that user must be a chat the bot knows.
pub open spec fn check_or_done(user_id: Option<i64>, text: Option<Seq<char>>) -> SpecStep {
    match user_id {
        Some(id) => SpecStep::Check(id, text),
        None => SpecStep::Done(SpecTarget { user_id: None, text }),
    }
}

/// The first text mention among the entities: it must start where the
/// arguments start; the text after it is the target's text.
pub open spec fn spec_plan_mention(t: Seq<char>, to_parse: Seq<char>, e: Entity) -> SpecStep {
    let bytes = encode_utf8(t);
    // `str::len` counts bytes as a `usize`.
    let total = bytes.len() as usize;
    let part = encode_utf8(to_parse).len() as usize;
    if part <= total && e.offset == total - part {
        let k = e.offset + e.length;
        if k <= usize::MAX && vstd::utf8::is_char_boundary(bytes, k) {
            check_or_done(e.mention_user, Some(decode_utf8(bytes.subrange(k, bytes.len() as int))))
        } else {
            SpecStep::OutOfRange
        }
    } else {
        SpecStep::Done(SpecTarget { user_id: None, text: None })
    }
}

/// No text mention: an `@username`, a numeric id, or the message replied to.
pub open spec fn spec_plan_args(t: Seq<char>, to_parse: Seq<char>, reply: Option<ReplyInfo>) -> SpecStep {
    let args = words(to_parse);
    let none = SpecTarget { user_id: None, text: None };
    if args.len() > 0 && args[0].len() > 0 && args[0][0] == '@' {
        SpecStep::Lookup(spec_to_lowercase(drop_at_signs(args[0])), third_piece(t))
    } else if args.len() > 0 {
        match spec_parse_i64(args[0]) {
            Some(id) => SpecStep::Check(id, third_piece(t)),
            None => match reply {
                Some(r) => check_or_done(r.from_id, Some(to_parse)),
                None => SpecStep::Done(none),
            },
        }
    } else {
        match reply {
            Some(_) => {
                let rt = spec_reply_target(reply);
                check_or_done(rt.user_id, rt.text)
            },
            None => SpecStep::Done(none),
        }
    }
}

/// The first step of `extract_text_id_from_reply` on the text of a command,
/// its entities and the message it replies to.
pub open spec fn spec_plan_target(
    text: Option<Seq<char>>,
    entities: Option<Seq<Entity>>,
    reply: Option<ReplyInfo>,
) -> SpecStep {
    let none = SpecTarget { user_id: None, text: None };
    match text {
        None => SpecStep::Done(none),
        Some(t) => match split_once_ws(t).1 {
            None => SpecStep::Done(spec_reply_target(reply)),
            Some(to_parse) => {
                let args = words(to_parse);
                match entities {
                    None => SpecStep::Done(none),
                    Some(es) => match first_mention(es) {
                        Some(e) => spec_plan_mention(t, to_parse, e),
                        None => spec_plan_args(t, to_parse, reply),
                    },
                }
            },
        },
    }
}

fn remove_at_signs(s: &str) -> (r: String)
    ensures
        r@ == drop_at_signs(s@),
{
    let n = s.unicode_len();
    let mut out = String::new();
    let mut i: usize = 0;
    while i < n
        invariant
            n == s@.len(),
            i <= n,
            out@ == drop_at_signs(s@.take(i as int)),
        decreases n - i,
    {
        let c = s.get_char(i);
        proof {
            assert(s@.take(i + 1).drop_last() == s@.take(i as int));
            vstd::seq_lib::lemma_seq_take_len(s@, i + 1);
        }
        assert(drop_at_signs(s@.take(i + 1)) == if c != '@' {
            drop_at_signs(s@.take(i as int)).push(c)
        } else {
            drop_at_signs(s@.take(i as int))
        }) by {
            reveal_with_fuel(Seq::filter, 1);
        }
        if c != '@' {
            push_char(&mut out, c);
        }
        i = i + 1;
    }
    assert(s@.take(n as int) == s@);
    out
}

fn third_piece_of(t: &str) -> (r: Option<String>)
    ensures
        opt_view(r) == third_piece(t@),
{
    let (_, rest) = split_once_whitespace(t);
    match rest {
        Some(rest) => {
            let (_, r) = split_once_whitespace(rest.as_str());
            r
        },
        None => None,
    }
}

fn check_or_done_exec(user_id: Option<i64>, text: Option<String>) -> (r: TargetStep)
    ensures
        r.view() == check_or_done(user_id, opt_view(text)),
{
    match user_id {
        Some(id) => TargetStep::CheckChat { user_id: id, text },
        None => TargetStep::Done(Target { user_id: None, text }),
    }
}

/// The first step of `extract_text_id_from_reply`.
pub fn plan_target(text: &Option<String>, entities: &Option<Vec<Entity>>, reply: &Option<ReplyInfo>) -> (r:
    TargetStep)
    ensures
        r.view() == spec_plan_target(
            opt_view(*text),
            match entities {
                Some(es) => Some(es@),
                None => None,
            },
            *reply,
        ),
{
    let t = match text {
        None => {
            return TargetStep::Done(Target { user_id: None, text: None });
        },
        Some(t) => t,
    };
    let (_, rest) = split_once_whitespace(t.as_str());
    let to_parse = match rest {
        None => {
            return TargetStep::Done(extract_id_from_reply(reply));
        },
        Some(p) => p,
    };
    let es = match entities {
        None => {
            return TargetStep::Done(Target { user_id: None, text: None });
        },
        Some(es) => es,
    };
    let mut i: usize = 0;
    assert(es@.skip(0) =~= es@);
    while i < es.len() && es[i].mention_user.is_none()
        invariant
            i <= es.len(),
            first_mention(es@) == first_mention(es@.skip(i as int)),
        decreases es.len() - i,
    {
        assert(es@.skip(i as int).drop_first() =~= es@.skip(i + 1));
        i = i + 1;
    }
    if i < es.len() {
        assert(es@.skip(i as int).len() > 0 && es@.skip(i as int)[0] == es@[i as int]);
        return plan_mention(t, &to_parse, es[i]);
    }
    assert(es@.skip(i as int).len() == 0);
    plan_args(t, &to_parse, reply)
}

fn plan_mention(t: &String, to_parse: &String, e: Entity) -> (r: TargetStep)
    ensures
        r.view() == spec_plan_mention(t@, to_parse@, e),
{
    let ts: &str = t.as_str();
    let total = ts.len();
    let part = to_parse.as_str().len();
    if part <= total && e.offset == total - part {
        match e.offset.checked_add(e.length) {
            None => TargetStep::MentionOutOfRange,
            Some(k) => {
                if ts.is_char_boundary(k) {
                    let (_, after) = ts.split_at(k);
                    let after_s = string_of(after);
                    proof {
                        vstd::utf8::encode_utf8_decode_utf8(after@);
                    }
                    check_or_done_exec(e.mention_user, Some(after_s))
                } else {
                    TargetStep::MentionOutOfRange
                }
            },
        }
    } else {
        TargetStep::Done(Target { user_id: None, text: None })
    }
}

fn plan_args(t: &String, to_parse: &String, reply: &Option<ReplyInfo>) -> (r: TargetStep)
    ensures
        r.view() == spec_plan_args(t@, to_parse@, *reply),
{
    let args = split_whitespace(to_parse.as_str());
    if args.len() > 0 && args[0].as_str().unicode_len() > 0 && args[0].as_str().get_char(0)
        == '@' {
        let stripped = remove_at_signs(args[0].as_str());
        let username = to_lowercase(stripped.as_str());
        TargetStep::LookupUsername { username, text: third_piece_of(t.as_str()) }
    } else if args.len() > 0 {
        match parse_i64(args[0].as_str()) {
            Some(id) => TargetStep::CheckChat { user_id: id, text: third_piece_of(t.as_str()) },
            None => match reply {
                Some(r) => check_or_done_exec(r.from_id, Some(to_parse.clone())),
                None => TargetStep::Done(Target { user_id: None, text: None }),
            },
        }
    } else {
        match reply {
            Some(_) => {
                let rt = extract_id_from_reply(reply);
                check_or_done_exec(rt.user_id, rt.text)
            },
            None => TargetStep::Done(Target { user_id: None, text: None }),
        }
    }
}

/// The reply when an `@username` is unknown.
pub open spec fn unknown_username_reply() -> Seq<char> {
    "Could not find a user by this name; are you sure I've seen them before?"@
}

/// The reply when the bot does not know the user's chat.
pub open spec fn unknown_chat_reply() -> Seq<char> {
    "I don't seem to have interacted with this user before - please forward a message from them to give me control! (like a voodoo doll, I need a piece of them to be able to execute certain commands...)"@
}

/// After the lookup of an `@username`: `found` is `None` when the lookup
/// failed, else the id stored for the name, if any.
pub fn after_username_lookup(found: Option<Option<i64>>, text: Option<String>) -> (r: (
    TargetStep,
    Option<String>,
))
    ensures
        ({
            let (step, reply) = r;
            match found {
                None => step.view() == SpecStep::Done(SpecTarget { user_id: None, text: None })
                    && reply is Some && reply->0@ == unknown_username_reply(),
                Some(uid) => step.view() == check_or_done(uid, opt_view(text)) && reply is None,
            }
        }),
{
    match found {
        None => (
            TargetStep::Done(Target { user_id: None, text: None }),
            Some(
                string_of(
                    "Could not find a user by this name; are you sure I've seen them before?",
                ),
            ),
        ),
        Some(uid) => (check_or_done_exec(uid, text), None),
    }
}

/// After checking the user's chat: the target stands when the bot knows the
/// chat, else there is none and the bot says why.
pub fn after_chat_check(known: bool, user_id: i64, text: Option<String>) -> (r: (
    Target,
    Option<String>,
))
    ensures
        known ==> r.0.view() == (SpecTarget { user_id: Some(user_id), text: opt_view(text) })
            && r.1 is None,
        !known ==> r.0.view() == (SpecTarget { user_id: None, text: None }) && r.1 is Some
            && r.1->0@ == unknown_chat_reply(),
{
    if known {
        (Target { user_id: Some(user_id), text }, None)
    } else {
        (
            Target { user_id: None, text: None },
            Some(
                string_of(
                    "I don't seem to have interacted with this user before - please forward a message from them to give me control! (like a voodoo doll, I need a piece of them to be able to execute certain commands...)",
                ),
            ),
        )
    }
}

proof fn lemma_no_mention(es: Seq<Entity>)
    requires
        forall|i: int| 0 <= i < es.len() ==> (#[trigger] es[i]).mention_user is None,
    ensures
        first_mention(es) is None,
    decreases es.len(),
{
    if es.len() > 0 {
        assert forall|i: int| 0 <= i < es.drop_first().len() implies (
        #[trigger] es.drop_first()[i]).mention_user is None by {
            assert(es.drop_first()[i] == es[i + 1]);
        }
        lemma_no_mention(es.drop_first());
    }
}

/// A command with arguments, none of them a text mention, whose first
/// argument is neither an `@username` nor a number, is aimed at the author of
/// the message it replies to (once the bot checks it knows that user), with
/// the text after the command word as the target's text; when it replies to
/// nothing it is aimed at no one. A numeric first argument is the target
/// itself, whatever the command replies to.
pub proof fn law_reply_author_is_target(
    t: Seq<char>,
    es: Seq<Entity>,
    reply: Option<ReplyInfo>,
)
    requires
        split_once_ws(t).1 is Some,
        words(split_once_ws(t).1->0).len() > 0,
        forall|i: int| 0 <= i < es.len() ==> (#[trigger] es[i]).mention_user is None,
    ensures
        ({
            let rest = split_once_ws(t).1->0;
            let first = words(rest)[0];
            let plan = spec_plan_target(Some(t), Some(es), reply);
            &&& !(first.len() > 0 && first[0] == '@') && spec_parse_i64(first) is None ==> match reply {
                Some(r) => match r.from_id {
                    Some(u) => plan == SpecStep::Check(u, Some(rest)),
                    None => plan == SpecStep::Done(SpecTarget { user_id: None, text: Some(rest) }),
                },
                None => plan == SpecStep::Done(SpecTarget { user_id: None, text: None }),
            }
            &&& !(first.len() > 0 && first[0] == '@') ==> (spec_parse_i64(first) matches Some(n)
                ==> plan matches SpecStep::Check(id, _) && id == n)
        }),
{
    lemma_no_mention(es);
}

} // verus!
