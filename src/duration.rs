use vstd::prelude::*;
use vstd::string::StrSliceExecFns;

verus! {

/// The number of seconds in one of the unit letters of an interval:
/// seconds, minutes, hours, days, weeks, months of 30 days, years of 365 days.
pub open spec fn unit_seconds(c: char) -> Option<u64> {
    if c == 's' {
        Some(1)
    } else if c == 'm' {
        Some(60)
    } else if c == 'h' {
        Some(3600)
    } else if c == 'd' {
        Some(86400)
    } else if c == 'w' {
        Some(604800)
    } else if c == 'M' {
        Some(2592000)
    } else if c == 'y' {
        Some(31536000)
    } else {
        None
    }
}

/// `c` is an ASCII decimal digit.
pub open spec fn is_digit(c: char) -> bool {
    '0' <= c && c <= '9'
}

/// Every character of `s` is a decimal digit.
pub open spec fn all_digits(s: Seq<char>) -> bool {
    forall|i: int| 0 <= i < s.len() ==> is_digit(#[trigger] s[i])
}

/// The number that the decimal digits `s` spell.
pub open spec fn digits_value(s: Seq<char>) -> nat
    decreases s.len(),
{
    if s.len() == 0 {
        0
    } else {
        digits_value(s.drop_last()) * 10 + ((s.last() as u32 - '0' as u32) as nat)
    }
}

/// The length in seconds of the interval that `s` writes as one or more
/// decimal digits followed by a unit letter (`10s`, `2w`), or `None` where `s`
/// has another shape or the length does not fit in a `u64`.
pub open spec fn interval_seconds(s: Seq<char>) -> Option<u64> {
    if s.len() >= 2 && all_digits(s.drop_last()) && unit_seconds(s.last()) is Some
        && digits_value(s.drop_last()) * unit_seconds(s.last())->Some_0 <= u64::MAX {
        Some((digits_value(s.drop_last()) * unit_seconds(s.last())->Some_0) as u64)
    } else {
        None
    }
}

proof fn lemma_digits_value_grows(s: Seq<char>, i: int, j: int)
    requires
        0 <= i <= j <= s.len(),
    ensures
        digits_value(s.take(i)) <= digits_value(s.take(j)),
    decreases j - i,
{
    if i < j {
        lemma_digits_value_grows(s, i, j - 1);
        assert(s.take(j).drop_last() =~= s.take(j - 1));
    }
}

fn unit_of(c: char) -> (r: Option<u64>)
    ensures
        r == unit_seconds(c),
{
    if c == 's' {
        Some(1)
    } else if c == 'm' {
        Some(60)
    } else if c == 'h' {
        Some(3600)
    } else if c == 'd' {
        Some(86400)
    } else if c == 'w' {
        Some(604800)
    } else if c == 'M' {
        Some(2592000)
    } else if c == 'y' {
        Some(31536000)
    } else {
        None
    }
}

/// Reads a revalidation interval such as `10s` or `1w` as a number of seconds.
pub fn parse_interval(s: &str) -> (r: Option<u64>)
    ensures
        r == interval_seconds(s@),
{
    let n = s.unicode_len();
    if n < 2 {
        return None;
    }
    let unit = match unit_of(s.get_char(n - 1)) {
        Some(u) => u,
        None => return None,
    };
    let ghost digits = s@.drop_last();
    let mut value: u64 = 0;
    let mut i: usize = 0;
    while i < n - 1
        invariant
            n == s@.len(),
            n >= 2,
            digits == s@.drop_last(),
            unit_seconds(s@.last()) == Some(unit),
            unit >= 1,
            0 <= i <= n - 1,
            all_digits(digits.take(i as int)),
            value as nat == digits_value(digits.take(i as int)),
        decreases n - 1 - i,
    {
        let c = s.get_char(i);
        assert(digits[i as int] == c);
        if !('0' <= c && c <= '9') {
            proof {
                assert(!all_digits(digits));
            }
            return None;
        }
        let d: u64 = (c as u32 - '0' as u32) as u64;
        assert(digits.take(i + 1).drop_last() =~= digits.take(i as int));
        if value > (u64::MAX - d) / 10 {
            proof {
                assert(digits_value(digits.take(i + 1)) > u64::MAX) by (nonlinear_arith)
                    requires
                        value > (u64::MAX - d) / 10,
                        digits_value(digits.take(i + 1)) == value * 10 + d,
                        d <= 9,
                ;
                lemma_digits_value_grows(digits, i + 1, digits.len() as int);
                assert(digits.take(digits.len() as int) =~= digits);
                assert(digits_value(digits) * unit >= digits_value(digits)) by (nonlinear_arith)
                    requires
                        unit >= 1,
                ;
            }
            return None;
        }
        value = value * 10 + d;
        i = i + 1;
    }
    assert(digits.take(i as int) =~= digits);
    match value.checked_mul(unit) {
        Some(v) => Some(v),
        None => None,
    }
}

} // verus!
