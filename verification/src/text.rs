//! Splitting command text into words, as `str::split_whitespace` and
//! `str::splitn(_, char::is_whitespace)` do, and a few string builders.
use vstd::prelude::*;

verus! {

/// The Unicode `White_Space` property, which `char::is_whitespace` tests.
pub open spec fn is_ws(c: char) -> bool {
    let n = c as u32;
    ||| 0x09 <= n <= 0x0D
    ||| n == 0x20
    ||| n == 0x85
    ||| n == 0xA0
    ||| n == 0x1680
    ||| 0x2000 <= n <= 0x200A
    ||| n == 0x2028
    ||| n == 0x2029
    ||| n == 0x202F
    ||| n == 0x205F
    ||| n == 0x3000
}

pub fn is_whitespace(c: char) -> (r: bool)
    ensures
        r == is_ws(c),
{
    let n = c as u32;
    (0x09 <= n && n <= 0x0D) || n == 0x20 || n == 0x85 || n == 0xA0 || n == 0x1680 || (0x2000
        <= n && n <= 0x200A) || n == 0x2028 || n == 0x2029 || n == 0x202F || n == 0x205F || n
        == 0x3000
}

/// The views of a sequence of strings.
pub open spec fn views(v: Seq<String>) -> Seq<Seq<char>> {
    v.map_values(|x: String| x@)
}

/// End of the run of non-whitespace characters that starts at `i`.
pub open spec fn word_end(s: Seq<char>, i: int) -> int
    decreases s.len() - i,
{
    if i < 0 || i >= s.len() || is_ws(s[i]) {
        i
    } else {
        word_end(s, i + 1)
    }
}

pub proof fn lemma_word_end(s: Seq<char>, i: int)
    requires
        0 <= i <= s.len(),
    ensures
        i <= word_end(s, i) <= s.len(),
        word_end(s, i) < s.len() ==> is_ws(s[word_end(s, i)]),
        forall|k: int| i <= k < word_end(s, i) ==> !is_ws(#[trigger] s[k]),
        i < s.len() && !is_ws(s[i]) ==> i < word_end(s, i),
    decreases s.len() - i,
{
    if i < s.len() && !is_ws(s[i]) {
        lemma_word_end(s, i + 1);
    }
}

/// The words of `s` from position `i` on: maximal runs of non-whitespace.
pub open spec fn words_from(s: Seq<char>, i: int) -> Seq<Seq<char>>
    decreases s.len() - i,
{
    if i < 0 || i >= s.len() {
        Seq::empty()
    } else if is_ws(s[i]) {
        words_from(s, i + 1)
    } else {
        let e = word_end(s, i);
        if e <= i || e > s.len() {
            Seq::empty()
        } else {
            seq![s.subrange(i, e)] + words_from(s, e)
        }
    }
}

/// What `str::split_whitespace` yields.
pub open spec fn words(s: Seq<char>) -> Seq<Seq<char>> {
    words_from(s, 0)
}

/// Index of the first whitespace character at or after `i`, or `s.len()`.
pub open spec fn first_ws_from(s: Seq<char>, i: int) -> int
    decreases s.len() - i,
{
    if i < 0 || i >= s.len() {
        s.len() as int
    } else if is_ws(s[i]) {
        i
    } else {
        first_ws_from(s, i + 1)
    }
}

pub proof fn lemma_first_ws_from(s: Seq<char>, i: int)
    requires
        0 <= i <= s.len(),
    ensures
        i <= first_ws_from(s, i) <= s.len(),
        first_ws_from(s, i) < s.len() ==> is_ws(s[first_ws_from(s, i)]),
        forall|k: int| i <= k < first_ws_from(s, i) ==> !is_ws(#[trigger] s[k]),
    decreases s.len() - i,
{
    if i < s.len() && !is_ws(s[i]) {
        lemma_first_ws_from(s, i + 1);
    }
}

/// What `s.splitn(2, char::is_whitespace)` yields: the text before the first
/// whitespace character and, when there is one, the text after it.
pub open spec fn split_once_ws(s: Seq<char>) -> (Seq<char>, Option<Seq<char>>) {
    let k = first_ws_from(s, 0);
    if k < s.len() {
        (s.take(k), Some(s.skip(k + 1)))
    } else {
        (s, None)
    }
}

/// `str::split_whitespace`, collected.
pub fn split_whitespace(s: &str) -> (res: Vec<String>)
    ensures
        views(res@) == words(s@),
{
    let n = s.unicode_len();
    let mut res: Vec<String> = Vec::new();
    let mut i: usize = 0;
    while i < n
        invariant
            n == s@.len(),
            i <= n,
            views(res@) + words_from(s@, i as int) == words(s@),
        decreases n - i,
    {
        let c = s.get_char(i);
        if is_whitespace(c) {
            assert(words_from(s@, i as int) == words_from(s@, i + 1));
            i = i + 1;
        } else {
            let mut j: usize = i + 1;
            proof {
                lemma_word_end(s@, i as int);
            }
            while j < n && !is_whitespace(s.get_char(j))
                invariant
                    n == s@.len(),
                    i < j <= n,
                    word_end(s@, i as int) == word_end(s@, j as int),
                decreases n - j,
            {
                j = j + 1;
            }
            proof {
                assert(word_end(s@, j as int) == j);
                lemma_word_end(s@, i as int);
            }
            let w = s.substring_char(i, j);
            let ws = w.to_owned();
            let ghost old_res = res@;
            res.push(ws);
            assert(views(res@) == views(old_res).push(s@.subrange(i as int, j as int)));
            assert(words_from(s@, i as int) == seq![s@.subrange(i as int, j as int)] + words_from(
                s@,
                j as int,
            ));
            assert(views(old_res) + words_from(s@, i as int) == views(res@) + words_from(
                s@,
                j as int,
            ));
            i = j;
        }
    }
    assert(views(res@) + words_from(s@, i as int) == views(res@));
    res
}

/// `s.splitn(2, char::is_whitespace)`, as a pair.
pub fn split_once_whitespace(s: &str) -> (res: (String, Option<String>))
    ensures
        res.0@ == split_once_ws(s@).0,
        res.1.is_some() == split_once_ws(s@).1.is_some(),
        res.1 matches Some(r) ==> r@ == split_once_ws(s@).1.unwrap(),
{
    let n = s.unicode_len();
    let mut k: usize = 0;
    while k < n && !is_whitespace(s.get_char(k))
        invariant
            n == s@.len(),
            k <= n,
            first_ws_from(s@, 0) == first_ws_from(s@, k as int),
        decreases n - k,
    {
        k = k + 1;
    }
    proof {
        lemma_first_ws_from(s@, 0);
    }
    if k < n {
        let a = s.substring_char(0, k).to_owned();
        let b = s.substring_char(k + 1, n).to_owned();
        assert(a@ == s@.take(k as int));
        assert(b@ == s@.skip(k + 1));
        (a, Some(b))
    } else {
        assert(s@.subrange(0, n as int) == s@);
        (s.substring_char(0, n).to_owned(), None)
    }
}

/// Equality of two texts.
pub fn str_eq(a: &str, b: &str) -> (r: bool)
    ensures
        r == (a@ == b@),
{
    let n = a.unicode_len();
    if n != b.unicode_len() {
        return false;
    }
    let mut i: usize = 0;
    while i < n
        invariant
            n == a@.len(),
            n == b@.len(),
            i <= n,
            forall|k: int| 0 <= k < i ==> a@[k] == b@[k],
        decreases n - i,
    {
        if a.get_char(i) != b.get_char(i) {
            return false;
        }
        i = i + 1;
    }
    assert(a@ == b@);
    true
}

/// Whether `c` occurs in `s`.
pub fn has_char(s: &str, c: char) -> (r: bool)
    ensures
        r == s@.contains(c),
{
    let n = s.unicode_len();
    let mut i: usize = 0;
    while i < n
        invariant
            n == s@.len(),
            i <= n,
            forall|k: int| 0 <= k < i ==> s@[k] != c,
        decreases n - i,
    {
        if s.get_char(i) == c {
            return true;
        }
        i = i + 1;
    }
    false
}

/// The lowercase mapping of Unicode that `str::to_lowercase` applies.
pub uninterp spec fn spec_to_lowercase(s: Seq<char>) -> Seq<char>;

/// Calls `str::to_lowercase`. The contract claims only that the result is
/// `spec_to_lowercase` of the text (the Unicode lowercase mapping, which
/// depends on the text alone); nothing is stated of what that is, in
/// particular not that ASCII letters map to ASCII letters.
#[verifier::external_body]
pub(crate) fn to_lowercase(s: &str) -> (r: String)
    ensures
        r@ == spec_to_lowercase(s@),
{
    s.to_lowercase()
}

/// The texts of `list` with `sep` between each two, as `[T]::join` gives them.
pub open spec fn seq_join(list: Seq<Seq<char>>, sep: Seq<char>) -> Seq<char>
    decreases list.len(),
{
    if list.len() == 0 {
        Seq::empty()
    } else if list.len() == 1 {
        list[0]
    } else {
        seq_join(list.drop_last(), sep) + sep + list.last()
    }
}

/// `[String]::join`.
pub fn join(list: &Vec<String>, sep: &str) -> (r: String)
    ensures
        r@ == seq_join(views(list@), sep@),
{
    let mut out = String::new();
    let mut i: usize = 0;
    let ghost vs = views(list@);
    assert(vs.take(0) == Seq::<Seq<char>>::empty());
    while i < list.len()
        invariant
            i <= list.len(),
            vs == views(list@),
            out@ == seq_join(vs.take(i as int), sep@),
        decreases list.len() - i,
    {
        assert(vs.take(i + 1).drop_last() == vs.take(i as int));
        assert(vs.take(i + 1).last() == list@[i as int]@);
        if i > 0 {
            out.append(sep);
        } else {
            assert(vs.take(1) == seq![list@[0]@]);
        }
        out.append(list[i].as_str());
        i = i + 1;
    }
    assert(vs.take(list.len() as int) == vs);
    out
}

/// Calls `String::push`. The contract claims what its documentation says:
/// the character is appended at the end.
#[verifier::external_body]
pub(crate) fn push_char(s: &mut String, c: char)
    ensures
        final(s)@ == old(s)@.push(c),
{
    s.push(c)
}

/// A `String` holding the given text.
pub fn string_of(s: &str) -> (r: String)
    ensures
        r@ == s@,
{
    s.to_owned()
}

/// Concatenation of two texts into a new `String`.
pub fn concat2(a: &str, b: &str) -> (r: String)
    ensures
        r@ == a@ + b@,
{
    let mut r = a.to_owned();
    r.append(b);
    r
}

/// The first `n` characters of `s`, or all of it when it is no longer.
pub open spec fn take_chars(s: Seq<char>, n: nat) -> Seq<char> {
    if s.len() <= n {
        s
    } else {
        s.take(n as int)
    }
}

/// The text cut to its first `n` characters, and whether it was longer.
pub fn truncate_chars(s: &str, n: usize) -> (r: (String, bool))
    ensures
        r.0@ == take_chars(s@, n as nat),
        r.1 == (s@.len() > n),
{
    let len = s.unicode_len();
    if len > n {
        (s.substring_char(0, n).to_owned(), true)
    } else {
        (s.to_owned(), false)
    }
}

} // verus!
