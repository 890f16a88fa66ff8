//! Parsing of time-to-live tokens of the form `<nonnegative-integer><unit>`,
//! where the unit is `s` (seconds), `m` (minutes), `h` (hours) or `d` (days).

use vstd::prelude::*;

verus! {

/// A character is a decimal digit.
pub open spec fn is_digit(c: char) -> bool {
    48 <= c as int && c as int <= 57
}

/// Numeric value of a decimal digit.
pub open spec fn digit_val(c: char) -> nat {
    (c as int - 48) as nat
}

/// Every character of the sequence is a decimal digit.
pub open spec fn all_digits(s: Seq<char>) -> bool {
    forall|i: int| 0 <= i < s.len() ==> is_digit(#[trigger] s[i])
}

/// Value of a sequence of decimal digits read in base ten.
/// The empty sequence has value zero.
pub open spec fn digits_value(s: Seq<char>) -> nat
    decreases s.len(),
{
    if s.len() == 0 {
        0
    } else {
        digits_value(s.drop_last()) * 10 + digit_val(s.last())
    }
}

/// A character is one of the accepted unit suffixes.
pub open spec fn is_unit(c: char) -> bool {
    c == 's' || c == 'm' || c == 'h' || c == 'd'
}

/// Seconds denoted by a unit suffix; zero for any other character.
pub open spec fn unit_secs(c: char) -> nat {
    if c == 's' {
        1
    } else if c == 'm' {
        60
    } else if c == 'h' {
        3600
    } else if c == 'd' {
        86400
    } else {
        0
    }
}

/// A token denotes a duration when it has a nonempty digit prefix whose
/// value fits in a `u64`, followed by a single unit suffix.
pub open spec fn is_duration_token(s: Seq<char>) -> bool {
    &&& s.len() >= 2
    &&& is_unit(s.last())
    &&& all_digits(s.drop_last())
    &&& digits_value(s.drop_last()) <= u64::MAX
}

/// Clamp a mathematical value into the `u64` range.
pub open spec fn sat64(n: nat) -> u64 {
    if n > u64::MAX {
        u64::MAX
    } else {
        n as u64
    }
}

/// The span of seconds denoted by a duration token, saturating at `u64::MAX`.
pub open spec fn duration_secs(s: Seq<char>) -> u64 {
    sat64(digits_value(s.drop_last()) * unit_secs(s.last()))
}

/// The value of a prefix of a digit sequence never exceeds the value of the
/// whole sequence.
proof fn lemma_digits_prefix_le(s: Seq<char>, i: int)
    requires
        0 <= i <= s.len(),
    ensures
        digits_value(s.subrange(0, i)) <= digits_value(s),
    decreases s.len() - i,
{
    if i == s.len() {
        assert(s.subrange(0, i) =~= s);
    } else {
        let p = s.subrange(0, i);
        let q = s.subrange(0, i + 1);
        assert(q.drop_last() =~= p);
        assert(digits_value(q) == digits_value(p) * 10 + digit_val(q.last()));
        lemma_digits_prefix_le(s, i + 1);
        assert(s.subrange(0, i + 1) == q);
    }
}

/// Parse a duration token into a span of seconds.
///
/// Returns `Some` exactly on tokens of the form `<digits><unit>`: the digit
/// prefix must be nonempty and fit in a `u64`, and the final multiplication
/// by the unit saturates at `u64::MAX`. Any other token, the empty token and
/// a bare unit letter included, yields `None`.
pub fn parse_duration(s: &str) -> (r: Option<u64>)
    ensures
        is_duration_token(s@) ==> r == Some(duration_secs(s@)),
        !is_duration_token(s@) ==> r is None,
{
    let len = s.unicode_len();
    if len < 2 {
        return None;
    }
    let ghost prefix = s@.drop_last();
    assert(prefix =~= s@.subrange(0, len - 1));
    let mut acc: u64 = 0;
    let mut i: usize = 0;
    while i < len - 1
        invariant
            2 <= len,
            len == s@.len(),
            i <= len - 1,
            prefix == s@.subrange(0, len - 1),
            all_digits(s@.subrange(0, i as int)),
            acc == digits_value(s@.subrange(0, i as int)),
        decreases len - i,
    {
        let c = s.get_char(i);
        let u = c as u32;
        if u < 48 || u > 57 {
            assert(!is_digit(prefix[i as int]));
            return None;
        }
        let d: u64 = (u - 48) as u64;
        let wide: u128 = (acc as u128) * 10 + (d as u128);
        proof {
            let p1 = s@.subrange(0, i + 1);
            assert(p1.drop_last() =~= s@.subrange(0, i as int));
            assert(digits_value(p1) == acc * 10 + d);
        }
        if wide > u64::MAX as u128 {
            proof {
                let p1 = prefix.subrange(0, i + 1);
                assert(p1 =~= s@.subrange(0, i + 1));
                lemma_digits_prefix_le(prefix, i + 1);
            }
            return None;
        }
        acc = wide as u64;
        i = i + 1;
    }
    assert(s@.subrange(0, len - 1) =~= prefix);
    let unit = s.get_char(len - 1);
    assert(unit == s@.last());
    let mult: u64 = if unit == 's' {
        1
    } else if unit == 'm' {
        60
    } else if unit == 'h' {
        3600
    } else if unit == 'd' {
        86400
    } else {
        return None;
    };
    assert((acc as int) * (mult as int) <= (u64::MAX as int) * 86400) by (nonlinear_arith)
        requires
            acc <= u64::MAX,
            mult <= 86400,
    ;
    let prod: u128 = (acc as u128) * (mult as u128);
    assert(prod == digits_value(prefix) * unit_secs(s@.last())) by (nonlinear_arith)
        requires
            acc == digits_value(prefix),
            mult == unit_secs(s@.last()),
            prod == (acc as u128) * (mult as u128),
            acc <= u64::MAX,
            mult <= 86400,
    ;
    let secs: u64 = if prod > u64::MAX as u128 {
        u64::MAX
    } else {
        prod as u64
    };
    Some(secs)
}

} // verus!
