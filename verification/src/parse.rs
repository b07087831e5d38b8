//! Parsing the environment-supplied timeout value.
//!
//! The process-wide configuration carries the timeout as a decimal count of
//! milliseconds. A value parses exactly when it is a non-empty run of ASCII
//! digits, optionally preceded by a single `+` sign, whose value fits in a
//! `u64`; anything else is rejected and the caller falls back to the default.

use vstd::prelude::*;
use vstd::string::StrSliceExecFns;

verus! {

/// An ASCII decimal digit.
pub open spec fn is_ascii_digit(c: char) -> bool {
    '0' <= c && c <= '9'
}

/// The numeric value of one digit.
pub open spec fn digit_value(c: char) -> nat
    recommends
        is_ascii_digit(c),
{
    (c as u32 - '0' as u32) as nat
}

/// Every character of `s` is a decimal digit.
pub open spec fn all_digits(s: Seq<char>) -> bool {
    forall|i: int| 0 <= i < s.len() ==> is_ascii_digit(#[trigger] s[i])
}

/// The value of a digit string read most-significant first.
pub open spec fn digits_value(s: Seq<char>) -> nat
    recommends
        all_digits(s),
    decreases s.len(),
{
    if s.len() == 0 {
        0
    } else {
        digits_value(s.drop_last()) * 10 + digit_value(s.last())
    }
}

/// The digit run of a candidate value: the whole string, or what follows a
/// single leading `+` sign.
pub open spec fn digit_run(s: Seq<char>) -> Seq<char> {
    if s.len() > 0 && s[0] == '+' {
        s.subrange(1, s.len() as int)
    } else {
        s
    }
}

/// What a candidate timeout value parses to: its digit run's value when that
/// run is non-empty, all digits, and fits in a `u64`; nothing otherwise.
pub open spec fn parse_millis_spec(s: Seq<char>) -> Option<u64> {
    let d = digit_run(s);
    if d.len() > 0 && all_digits(d) && digits_value(d) <= u64::MAX {
        Some(digits_value(d) as u64)
    } else {
        None
    }
}

/// Extending a digit string by one character multiplies its value by ten and
/// adds the new digit.
proof fn lemma_digits_value_step(s: Seq<char>, m: int)
    requires
        0 <= m < s.len(),
    ensures
        digits_value(s.subrange(0, m + 1)) == digits_value(s.subrange(0, m)) * 10 + digit_value(
            s[m],
        ),
{
    let t = s.subrange(0, m + 1);
    assert(t.drop_last() =~= s.subrange(0, m));
    assert(t.last() == s[m]);
}

/// A digit string is worth at least any of its prefixes.
proof fn lemma_digits_value_prefix_le(s: Seq<char>, m: int)
    requires
        0 <= m <= s.len(),
    ensures
        digits_value(s.subrange(0, m)) <= digits_value(s),
    decreases s.len() - m,
{
    if m == s.len() {
        assert(s.subrange(0, m) =~= s);
    } else {
        lemma_digits_value_step(s, m);
        lemma_digits_value_prefix_le(s, m + 1);
    }
}

/// Parse a decimal count of milliseconds: `Some` exactly on a non-empty digit
/// run (after at most one leading `+`) whose value fits in a `u64`.
pub fn parse_millis(s: &str) -> (r: Option<u64>)
    ensures
        r == parse_millis_spec(s@),
{
    let n = s.unicode_len();
    let mut i: usize = 0;
    if n > 0 && s.get_char(0) == '+' {
        i = 1;
    }
    let start = i;
    let ghost d = digit_run(s@);
    assert(d.len() == n - start);
    assert(forall|j: int| 0 <= j < d.len() ==> d[j] == s@[j + start]);
    if i == n {
        assert(d.len() == 0);
        return None;
    }
    let mut acc: u64 = 0;
    while i < n
        invariant
            n == s@.len(),
            start <= i <= n,
            start <= 1,
            d == digit_run(s@),
            d.len() == n - start,
            forall|j: int| 0 <= j < d.len() ==> d[j] == s@[j + start],
            forall|j: int| 0 <= j < i - start ==> is_ascii_digit(#[trigger] d[j]),
            acc == digits_value(d.subrange(0, i - start)),
        decreases n - i,
    {
        let c = s.get_char(i);
        assert(d[i - start] == c);
        if !('0' <= c && c <= '9') {
            assert(!is_ascii_digit(d[i - start]));
            return None;
        }
        let dv: u64 = (c as u32 - 48) as u64;
        assert(dv == digit_value(c)) by {
            assert('0' as u32 == 48);
        }
        if acc > (u64::MAX - dv) / 10 {
            proof {
                assert(acc * 10 + dv > u64::MAX) by (nonlinear_arith)
                    requires
                        acc > (u64::MAX - dv) / 10,
                        dv <= 9,
                ;
                lemma_digits_value_step(d, i - start);
                lemma_digits_value_prefix_le(d, i - start + 1);
                assert(digits_value(d) > u64::MAX);
            }
            return None;
        }
        proof {
            assert(acc * 10 + dv <= u64::MAX) by (nonlinear_arith)
                requires
                    acc <= (u64::MAX - dv) / 10,
                    dv <= 9,
            ;
            lemma_digits_value_step(d, i - start);
        }
        acc = acc * 10 + dv;
        i = i + 1;
    }
    assert(d.subrange(0, d.len() as int) =~= d);
    assert(all_digits(d));
    Some(acc)
}

} // verus!
