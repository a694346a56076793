//! Decimal integers in text, as `str::parse::<i64>`, `str::parse::<u64>` read
//! them and as `Display` writes them.
use vstd::prelude::*;
use crate::text::push_char;

verus! {

pub open spec fn is_digit(c: char) -> bool {
    '0' <= c <= '9'
}

pub open spec fn all_digits(s: Seq<char>) -> bool {
    forall|i: int| 0 <= i < s.len() ==> is_digit(#[trigger] s[i])
}

pub open spec fn digit_val(c: char) -> int {
    c as int - '0' as int
}

/// The value of a string of decimal digits.
pub open spec fn digits_val(s: Seq<char>) -> int
    decreases s.len(),
{
    if s.len() == 0 {
        0
    } else {
        digits_val(s.drop_last()) * 10 + digit_val(s.last())
    }
}

/// The digits after an optional sign character.
pub open spec fn unsigned_part(s: Seq<char>) -> Seq<char> {
    if s.len() > 0 && (s[0] == '+' || s[0] == '-') {
        s.drop_first()
    } else {
        s
    }
}

/// `str::parse::<u64>`: an optional `+`, then at least one decimal digit,
/// the value fitting in `u64`.
pub open spec fn spec_parse_u64(s: Seq<char>) -> Option<u64> {
    let d = if s.len() > 0 && s[0] == '+' {
        s.drop_first()
    } else {
        s
    };
    if d.len() > 0 && all_digits(d) && digits_val(d) <= u64::MAX {
        Some(digits_val(d) as u64)
    } else {
        None
    }
}

/// `str::parse::<i64>`: an optional `+` or `-`, then at least one decimal
/// digit, the value fitting in `i64`.
pub open spec fn spec_parse_i64(s: Seq<char>) -> Option<i64> {
    let d = unsigned_part(s);
    let neg = s.len() > 0 && s[0] == '-';
    let v = if neg {
        -digits_val(d)
    } else {
        digits_val(d)
    };
    if d.len() > 0 && all_digits(d) && i64::MIN <= v <= i64::MAX {
        Some(v as i64)
    } else {
        None
    }
}

proof fn lemma_digits_val_nonneg(s: Seq<char>)
    requires
        all_digits(s),
    ensures
        digits_val(s) >= 0,
    decreases s.len(),
{
    if s.len() > 0 {
        lemma_digits_val_nonneg(s.drop_last());
    }
}

proof fn lemma_digits_val_prefix(s: Seq<char>, i: int, j: int)
    requires
        all_digits(s),
        0 <= i <= j <= s.len(),
    ensures
        digits_val(s.take(i)) <= digits_val(s.take(j)),
    decreases j - i,
{
    if i < j {
        lemma_digits_val_prefix(s, i, j - 1);
        assert(s.take(j).drop_last() == s.take(j - 1));
        lemma_digits_val_nonneg(s.take(j - 1));
    }
}

proof fn lemma_prefix_exceeds(d: Seq<char>, k: int, bound: int)
    requires
        0 <= k <= d.len(),
        all_digits(d.take(k)),
        digits_val(d.take(k)) > bound,
    ensures
        !all_digits(d) || digits_val(d) > bound,
{
    if all_digits(d) {
        lemma_digits_val_prefix(d, k, d.len() as int);
        assert(d.take(d.len() as int) == d);
    }
}

/// Reads `s[start..]` as decimal digits, failing when one is not a digit or
/// the value passes `bound`.
fn read_digits(s: &str, start: usize, bound: u64) -> (r: Option<u64>)
    requires
        start <= s@.len(),
    ensures
        ({
            let d = s@.skip(start as int);
            match r {
                Some(v) => all_digits(d) && digits_val(d) == v && v <= bound,
                None => !all_digits(d) || digits_val(d) > bound,
            }
        }),
{
    let n = s.unicode_len();
    let ghost d = s@.skip(start as int);
    let mut acc: u64 = 0;
    let mut i: usize = start;
    assert(d.take(0) == Seq::<char>::empty());
    while i < n
        invariant
            n == s@.len(),
            start <= i <= n,
            d == s@.skip(start as int),
            all_digits(d.take(i - start)),
            digits_val(d.take(i - start)) == acc,
            acc <= bound,
        decreases n - i,
    {
        let c = s.get_char(i);
        assert(d[i - start] == c);
        if c < '0' || c > '9' {
            assert(!is_digit(d[i - start]));
            return None;
        }
        let dv: u64 = (c as u32 - '0' as u32) as u64;
        assert(d.take(i + 1 - start).drop_last() == d.take(i - start));
        assert(all_digits(d.take(i + 1 - start)));
        match acc.checked_mul(10) {
            Some(m) => match m.checked_add(dv) {
                Some(v) => {
                    if v > bound {
                        proof {
                            lemma_prefix_exceeds(d, i + 1 - start, bound as int);
                        }
                        return None;
                    }
                    acc = v;
                },
                None => {
                    proof {
                        lemma_prefix_exceeds(d, i + 1 - start, bound as int);
                    }
                    return None;
                },
            },
            None => {
                proof {
                    lemma_prefix_exceeds(d, i + 1 - start, bound as int);
                }
                return None;
            },
        }
        i = i + 1;
    }
    assert(d.take(i - start) == d);
    Some(acc)
}

/// `str::parse::<u64>`, `None` for its error.
pub fn parse_u64(s: &str) -> (r: Option<u64>)
    ensures
        r == spec_parse_u64(s@),
{
    let n = s.unicode_len();
    let start: usize = if n > 0 && s.get_char(0) == '+' {
        1
    } else {
        0
    };
    assert(s@.skip(start as int) == (if s@.len() > 0 && s@[0] == '+' {
        s@.drop_first()
    } else {
        s@
    }));
    if start >= n {
        return None;
    }
    read_digits(s, start, u64::MAX)
}

/// `str::parse::<i64>`, `None` for its error.
pub fn parse_i64(s: &str) -> (r: Option<i64>)
    ensures
        r == spec_parse_i64(s@),
{
    let n = s.unicode_len();
    let neg = n > 0 && s.get_char(0) == '-';
    let start: usize = if n > 0 && (s.get_char(0) == '+' || s.get_char(0) == '-') {
        1
    } else {
        0
    };
    assert(s@.skip(start as int) == unsigned_part(s@));
    if start >= n {
        return None;
    }
    let bound: u64 = if neg {
        0x8000_0000_0000_0000
    } else {
        0x7fff_ffff_ffff_ffff
    };
    match read_digits(s, start, bound) {
        None => None,
        Some(m) => {
            if neg {
                if m == 0x8000_0000_0000_0000 {
                    Some(i64::MIN)
                } else {
                    Some(-(m as i64))
                }
            } else {
                Some(m as i64)
            }
        },
    }
}

pub open spec fn digit_char(d: int) -> char {
    ('0' as int + d) as char
}

/// Decimal digits of a natural number, as `Display` writes it.
pub open spec fn dec(n: nat) -> Seq<char>
    decreases n,
{
    if n < 10 {
        seq![digit_char(n as int)]
    } else {
        dec(n / 10).push(digit_char(n as int % 10))
    }
}

/// How `Display` writes an `i64`.
pub open spec fn dec_i64(v: i64) -> Seq<char> {
    if v < 0 {
        seq!['-'] + dec((-(v as int)) as nat)
    } else {
        dec(v as nat)
    }
}

fn digit_of(d: u64) -> (c: char)
    requires
        d < 10,
    ensures
        c == digit_char(d as int),
{
    match d {
        0 => '0',
        1 => '1',
        2 => '2',
        3 => '3',
        4 => '4',
        5 => '5',
        6 => '6',
        7 => '7',
        8 => '8',
        _ => '9',
    }
}

/// Appends the decimal digits of `n`.
pub fn push_dec(out: &mut String, n: u64)
    ensures
        final(out)@ == old(out)@ + dec(n as nat),
    decreases n,
{
    if n >= 10 {
        push_dec(out, n / 10);
        push_char(out, digit_of(n % 10));
    } else {
        push_char(out, digit_of(n));
        assert(dec(n as nat) == seq![digit_char(n as int)]);
    }
}

/// `u64::to_string`.
pub fn fmt_u64(n: u64) -> (r: String)
    ensures
        r@ == dec(n as nat),
{
    let mut out = String::new();
    push_dec(&mut out, n);
    assert(out@ == Seq::<char>::empty() + dec(n as nat));
    out
}

/// `i64::to_string`.
pub fn fmt_i64(v: i64) -> (r: String)
    ensures
        r@ == dec_i64(v),
{
    let mut out = String::new();
    if v < 0 {
        push_char(&mut out, '-');
        let m: u64 = if v == i64::MIN {
            0x8000_0000_0000_0000
        } else {
            (-v) as u64
        };
        push_dec(&mut out, m);
    } else {
        push_dec(&mut out, v as u64);
        assert(out@ == Seq::<char>::empty() + dec(v as nat));
    }
    out
}

proof fn lemma_dec_digits(n: nat)
    ensures
        dec(n).len() > 0,
        all_digits(dec(n)),
        digits_val(dec(n)) == n,
    decreases n,
{
    let k = n as int % 10;
    assert(digit_val(digit_char(k)) == k);
    if n >= 10 {
        lemma_dec_digits(n / 10);
        let d = dec(n);
        assert(d.drop_last() == dec(n / 10));
        assert(d.last() == digit_char(k));
        let q: nat = n / 10;
        assert(q * 10 + k == n) by (nonlinear_arith)
            requires
                k == n as int % 10,
                q == n / 10,
        ;
        assert(digits_val(d) == digits_val(d.drop_last()) * 10 + digit_val(d.last()));
        assert(digits_val(d.drop_last()) == q);
        assert forall|i: int| 0 <= i < d.len() implies is_digit(#[trigger] d[i]) by {
            if i < d.len() - 1 {
                assert(d[i] == dec(n / 10)[i]);
            }
        }
    } else {
        assert(dec(n).drop_last() == Seq::<char>::empty());
        assert(digits_val(dec(n)) == digits_val(dec(n).drop_last()) * 10 + digit_val(dec(n).last()));
        assert(k == n);
    }
}

/// What `Display` writes of a `u64`, `str::parse::<u64>` reads back.
pub proof fn law_parse_u64_reads_dec(n: u64)
    ensures
        spec_parse_u64(dec(n as nat)) == Some(n),
{
    lemma_dec_digits(n as nat);
    assert(is_digit(dec(n as nat)[0]));
}

/// What `Display` writes of an `i64`, `str::parse::<i64>` reads back.
pub proof fn law_parse_i64_reads_dec(v: i64)
    ensures
        spec_parse_i64(dec_i64(v)) == Some(v),
{
    if v < 0 {
        let m = (-(v as int)) as nat;
        lemma_dec_digits(m);
        let s = dec_i64(v);
        assert(s[0] == '-');
        assert(unsigned_part(s) == dec(m));
    } else {
        lemma_dec_digits(v as nat);
        assert(is_digit(dec(v as nat)[0]));
    }
}

} // verus!
