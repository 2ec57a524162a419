//! Identifiers on the wire are ASCII decimal strings. The storage layer keys
//! rows by a signed 64-bit integer, so this module fixes the accepted shape:
//! one to eighteen decimal digits, which always fits.

use vstd::prelude::*;

verus! {

/// ASCII decimal digit.
pub open spec fn is_digit(b: u8) -> bool {
    48 <= b && b <= 57
}

/// Value of a digit string, most significant digit first.
pub open spec fn digits_value(s: Seq<u8>) -> nat
    decreases s.len(),
{
    if s.len() == 0 {
        0
    } else {
        digits_value(s.drop_last()) * 10 + (s.last() - 48) as nat
    }
}

pub open spec fn all_digits(s: Seq<u8>) -> bool {
    forall|i: int| 0 <= i < s.len() ==> is_digit(#[trigger] s[i])
}

pub open spec fn pow10(n: nat) -> nat
    decreases n,
{
    if n == 0 {
        1
    } else {
        10 * pow10((n - 1) as nat)
    }
}

/// An identifier this library accepts: 1 to 18 ASCII decimal digits.
/// Eighteen digits keep the value strictly below 10^18, within `i64`.
pub open spec fn valid_id(s: Seq<u8>) -> bool {
    1 <= s.len() <= 18 && all_digits(s)
}

pub open spec fn sp_parse_id(s: Seq<u8>) -> Option<i64> {
    if valid_id(s) {
        Some(digits_value(s) as i64)
    } else {
        None
    }
}

/// Parses an identifier string into its numeric value.
/// Returns `Some` exactly on the strings `valid_id` accepts.
pub fn parse_id(s: &Vec<u8>) -> (r: Option<i64>)
    ensures
        r == sp_parse_id(s@),
{
    if s.len() == 0 || s.len() > 18 {
        return None;
    }
    let mut acc: u64 = 0;
    let mut i: usize = 0;
    while i < s.len()
        invariant
            1 <= s@.len() <= 18,
            0 <= i <= s@.len(),
            forall|k: int| 0 <= k < i ==> is_digit(#[trigger] s@[k]),
            acc == digits_value(s@.take(i as int)),
            acc < pow10(i as nat),
        decreases s@.len() - i,
    {
        let b = s[i];
        if b < 48 || b > 57 {
            assert(!is_digit(s@[i as int]));
            return None;
        }
        proof {
            assert(s@.take(i + 1).drop_last() =~= s@.take(i as int));
            assert(s@.take(i + 1).last() == s@[i as int]);
            reveal_with_fuel(pow10, 19);
        }
        acc = acc * 10 + (b - 48) as u64;
        i = i + 1;
    }
    proof {
        assert(s@.take(s@.len() as int) =~= s@);
        reveal_with_fuel(pow10, 19);
    }
    Some(acc as i64)
}

} // verus!
