//! A verified reader of unsigned decimal numerals.
//!
//! Several scoring rules receive their choices as decimal strings. This
//! module reads such a numeral the way `str::parse::<u64>` does: an optional
//! leading `+`, then one or more ASCII digits, and the value must fit.

use vstd::prelude::*;
use vstd::string::StrSliceExecFns;

verus! {

/// Whether the character is an ASCII decimal digit.
pub open spec fn is_dec_digit(c: char) -> bool {
    48 <= c as int <= 57
}

/// The numeric value of a digit character.
pub open spec fn digit_val(c: char) -> int {
    c as int - 48
}

/// Whether every character of the sequence is a decimal digit.
pub open spec fn all_dec_digits(s: Seq<char>) -> bool {
    forall|i: int| 0 <= i < s.len() ==> is_dec_digit(#[trigger] s[i])
}

/// The value of a digit sequence read as a base-10 numeral.
pub open spec fn dec_value(s: Seq<char>) -> int
    decreases s.len(),
{
    if s.len() == 0 {
        0
    } else {
        dec_value(s.drop_last()) * 10 + digit_val(s.last())
    }
}

/// The digit portion of a numeral: everything after an optional leading `+`.
pub open spec fn dec_digits_of(s: Seq<char>) -> Seq<char> {
    if s.len() > 0 && s[0] == '+' {
        s.drop_first()
    } else {
        s
    }
}

/// What reading the string as an unsigned 64-bit numeral yields: its value,
/// or nothing when the digits are missing or malformed or the value does
/// not fit.
pub open spec fn parse_u64_of(s: Seq<char>) -> Option<u64> {
    let d = dec_digits_of(s);
    if d.len() > 0 && all_dec_digits(d) && dec_value(d) <= u64::MAX {
        Some(dec_value(d) as u64)
    } else {
        None
    }
}

/// A digit sequence has a non-negative value.
proof fn lemma_dec_value_nonneg(s: Seq<char>)
    requires
        all_dec_digits(s),
    ensures
        dec_value(s) >= 0,
    decreases s.len(),
{
    if s.len() > 0 {
        assert(all_dec_digits(s.drop_last())) by {
            assert(forall|i: int|
                0 <= i < s.len() - 1 ==> #[trigger] s.drop_last()[i] == s[i]);
        }
        lemma_dec_value_nonneg(s.drop_last());
    }
}

/// Reading more digits never shrinks the value: the value of a digit
/// sequence is at least the value of any of its prefixes.
proof fn lemma_dec_value_prefix_le(s: Seq<char>, m: int)
    requires
        all_dec_digits(s),
        0 <= m <= s.len(),
    ensures
        dec_value(s.take(m)) <= dec_value(s),
    decreases s.len() - m,
{
    assert(all_dec_digits(s.take(m))) by {
        assert(forall|i: int| 0 <= i < m ==> #[trigger] s.take(m)[i] == s[i]);
    }
    if m < s.len() {
        lemma_dec_value_prefix_le(s, m + 1);
        assert(s.take(m + 1).drop_last() =~= s.take(m));
        assert(dec_value(s.take(m + 1)) == dec_value(s.take(m)) * 10 + digit_val(s[m]));
        lemma_dec_value_nonneg(s.take(m));
        assert(dec_value(s.take(m)) * 10 >= dec_value(s.take(m))) by (nonlinear_arith)
            requires
                dec_value(s.take(m)) >= 0,
        ;
    } else {
        assert(s.take(m) =~= s);
    }
}

/// Read the string as an unsigned decimal numeral.
pub fn parse_u64(s: &str) -> (r: Option<u64>)
    ensures
        r == parse_u64_of(s@),
{
    let n = s.unicode_len();
    let ghost d = dec_digits_of(s@);
    let mut i: usize = 0;
    if n > 0 && s.get_char(0) == '+' {
        i = 1;
    }
    let start: usize = i;
    assert(d.len() == n - start);
    assert(forall|j: int| 0 <= j < d.len() ==> #[trigger] d[j] == s@[j + start]);
    if i >= n {
        return None;
    }
    let mut acc: u64 = 0;
    while i < n
        invariant
            start <= i <= n,
            n == s@.len(),
            start <= 1,
            d == dec_digits_of(s@),
            d.len() == n - start,
            forall|j: int| 0 <= j < d.len() ==> #[trigger] d[j] == s@[j + start],
            all_dec_digits(d.take(i - start)),
            acc == dec_value(d.take(i - start)),
        decreases n - i,
    {
        let c = s.get_char(i);
        let cv = c as u32;
        if cv < 48 || cv > 57 {
            assert(!is_dec_digit(d[i - start]));
            return None;
        }
        let digit = (cv - 48) as u64;
        assert(d.take(i + 1 - start).drop_last() =~= d.take(i - start));
        assert(dec_value(d.take(i + 1 - start)) == acc * 10 + digit);
        if acc > (u64::MAX - digit) / 10 {
            proof {
                assert(acc * 10 + digit > u64::MAX) by (nonlinear_arith)
                    requires
                        acc > (u64::MAX - digit) / 10,
                        0 <= digit <= 9,
                        acc >= 0,
                ;
                if all_dec_digits(d) {
                    lemma_dec_value_prefix_le(d, i + 1 - start);
                }
            }
            return None;
        }
        assert(acc * 10 + digit <= u64::MAX) by (nonlinear_arith)
            requires
                acc <= (u64::MAX - digit) / 10,
                0 <= digit <= 9,
                acc >= 0,
        ;
        acc = acc * 10 + digit;
        i = i + 1;
    }
    assert(d.take(i - start) =~= d);
    Some(acc)
}

} // verus!
