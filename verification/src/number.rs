//! Decimal integers written in byte text.

use vstd::prelude::*;
use vstd::slice::slice_subrange;

verus! {

/// The byte `+`.
pub const PLUS: u8 = 0x2b;

/// The byte `-`.
pub const MINUS: u8 = 0x2d;

/// The byte `0`.
pub const ZERO: u8 = 0x30;

/// The byte `9`.
pub const NINE: u8 = 0x39;

/// `b` is a decimal digit.
pub open spec fn is_digit(b: u8) -> bool {
    ZERO <= b <= NINE
}

/// Every byte of `s` is a decimal digit.
pub open spec fn all_digits(s: Seq<u8>) -> bool {
    forall|i: int| 0 <= i < s.len() ==> is_digit(#[trigger] s[i])
}

/// The number that the decimal digits `s` write, the most significant first.
pub open spec fn digits_value(s: Seq<u8>) -> nat
    decreases s.len(),
{
    if s.len() == 0 {
        0
    } else {
        10 * digits_value(s.drop_last()) + (s.last() - ZERO) as nat
    }
}

/// The number that `s` writes if `s` is one or more decimal digits.
pub open spec fn magnitude(s: Seq<u8>) -> Option<nat> {
    if s.len() > 0 && all_digits(s) {
        Some(digits_value(s))
    } else {
        None
    }
}

/// The integer that `s` writes: one or more decimal digits, after at most
/// one sign. A `+` is always taken as a sign, a `-` only where `signed`.
pub open spec fn decimal(s: Seq<u8>, signed: bool) -> Option<int> {
    if s.len() > 0 && s[0] == PLUS {
        match magnitude(s.skip(1)) {
            Some(v) => Some(v as int),
            None => None,
        }
    } else if signed && s.len() > 0 && s[0] == MINUS {
        match magnitude(s.skip(1)) {
            Some(v) => Some(-(v as int)),
            None => None,
        }
    } else {
        match magnitude(s) {
            Some(v) => Some(v as int),
            None => None,
        }
    }
}

/// The `u32` that `s` writes, if it writes an integer of that range.
pub open spec fn decimal_u32(s: Seq<u8>) -> Option<u32> {
    match decimal(s, false) {
        Some(v) => if v <= u32::MAX {
            Some(v as u32)
        } else {
            None
        },
        None => None,
    }
}

/// The `i32` that `s` writes, if it writes an integer of that range.
pub open spec fn decimal_i32(s: Seq<u8>) -> Option<i32> {
    match decimal(s, true) {
        Some(v) => if i32::MIN <= v <= i32::MAX {
            Some(v as i32)
        } else {
            None
        },
        None => None,
    }
}

/// Reading more digits never gives a smaller number.
pub proof fn lemma_digits_value_prefix(s: Seq<u8>, k: int)
    requires
        0 <= k <= s.len(),
    ensures
        digits_value(s.take(k)) <= digits_value(s),
    decreases s.len(),
{
    if k == s.len() {
        assert(s.take(k) =~= s);
    } else {
        assert(s.drop_last().take(k) =~= s.take(k));
        lemma_digits_value_prefix(s.drop_last(), k);
    }
}

/// Reads one or more decimal digits that write a number up to `limit`.
fn parse_magnitude(s: &[u8], limit: u64) -> (value: Option<u64>)
    requires
        limit <= 0x1_0000_0000,
    ensures
        value == match magnitude(s@) {
            Some(v) => if v <= limit {
                Some(v as u64)
            } else {
                None
            },
            None => None,
        },
{
    if s.len() == 0 {
        return None;
    }
    let mut acc: u64 = 0;
    let mut k: usize = 0;
    while k < s.len()
        invariant
            limit <= 0x1_0000_0000,
            k <= s@.len(),
            forall|j: int| 0 <= j < k ==> is_digit(#[trigger] s@[j]),
            acc == digits_value(s@.take(k as int)),
            acc <= limit,
        decreases s@.len() - k,
    {
        let b: u8 = s[k];
        if b < ZERO || b > NINE {
            return None;
        }
        assert(s@.take(k + 1).drop_last() =~= s@.take(k as int));
        acc = acc * 10 + (b - ZERO) as u64;
        if acc > limit {
            proof {
                lemma_digits_value_prefix(s@, k + 1);
            }
            return None;
        }
        k += 1;
    }
    assert(s@.take(k as int) =~= s@);
    Some(acc)
}

/// Reads a `u32` written in decimal, with an optional `+` before it.
pub fn parse_u32(s: &[u8]) -> (value: Option<u32>)
    ensures
        value == decimal_u32(s@),
{
    let body = if s.len() > 0 && s[0] == PLUS {
        slice_subrange(s, 1, s.len())
    } else {
        s
    };
    match parse_magnitude(body, 0xffff_ffff) {
        Some(v) => Some(v as u32),
        None => None,
    }
}

/// Reads an `i32` written in decimal, with an optional `+` or `-` before it.
pub fn parse_i32(s: &[u8]) -> (value: Option<i32>)
    ensures
        value == decimal_i32(s@),
{
    if s.len() > 0 && s[0] == MINUS {
        let body = slice_subrange(s, 1, s.len());
        match parse_magnitude(body, 0x8000_0000) {
            Some(v) => Some((0 - (v as i64)) as i32),
            None => None,
        }
    } else {
        let body = if s.len() > 0 && s[0] == PLUS {
            slice_subrange(s, 1, s.len())
        } else {
            s
        };
        match parse_magnitude(body, 0x7fff_ffff) {
            Some(v) => Some(v as i32),
            None => None,
        }
    }
}

} // verus!
