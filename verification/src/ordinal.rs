//! Order-preserving integer codes for IEEE 754 double-precision numbers.
//!
//! A double is handled here by its 64-bit pattern only. Patterns that are
//! numbers (everything but the not-a-number patterns) are totally ordered by
//! sign and magnitude, with the two zeros equal. `ordinal_of_bits` maps each
//! such pattern to a signed integer with the same order, so that comparisons
//! and box queries can be carried out on integers.

use vstd::prelude::*;

verus! {

/// The bit that holds the sign.
pub const SIGN_BIT: u64 = 0x8000_0000_0000_0000;

/// The pattern of positive infinity: the largest magnitude that is a number.
pub const INFINITY_BITS: u64 = 0x7ff0_0000_0000_0000;

/// The pattern without its sign bit.
pub open spec fn magnitude(bits: u64) -> int {
    if bits >= SIGN_BIT {
        bits - SIGN_BIT
    } else {
        bits as int
    }
}

/// The sign bit is set.
pub open spec fn is_negative(bits: u64) -> bool {
    bits >= SIGN_BIT
}

/// The pattern is not a number.
pub open spec fn is_nan(bits: u64) -> bool {
    magnitude(bits) > INFINITY_BITS
}

/// The position of a pattern in the order of the numbers: its magnitude,
/// negated where the sign bit is set.
pub open spec fn rank(bits: u64) -> int {
    if is_negative(bits) {
        -magnitude(bits)
    } else {
        magnitude(bits)
    }
}

/// An integer is the rank of some number.
pub open spec fn is_ordinal(ordinal: int) -> bool {
    -(INFINITY_BITS as int) <= ordinal <= INFINITY_BITS as int
}

/// The pattern with the given rank; of the two zeros, the positive one.
pub open spec fn pattern(ordinal: int) -> u64 {
    if ordinal >= 0 {
        ordinal as u64
    } else {
        (SIGN_BIT + (-ordinal)) as u64
    }
}

/// `a <= b` as IEEE 754 compares the two patterns: false as soon as one of
/// them is not a number.
pub open spec fn le_bits(a: u64, b: u64) -> bool {
    !is_nan(a) && !is_nan(b) && rank(a) <= rank(b)
}

/// `a <= b` on ordinals, where `None` stands for a pattern that is not a
/// number.
pub open spec fn le_ordinals(a: Option<i64>, b: Option<i64>) -> bool {
    a is Some && b is Some && a->0 <= b->0
}

/// The ordinal of a bit pattern, or `None` where the pattern is not a number.
pub fn ordinal_of_bits(bits: u64) -> (r: Option<i64>)
    ensures
        is_nan(bits) <==> r is None,
        r matches Some(k) ==> k as int == rank(bits) && is_ordinal(k as int),
{
    let negative = bits >= SIGN_BIT;
    let magnitude: u64 = if negative {
        bits - SIGN_BIT
    } else {
        bits
    };
    if magnitude > INFINITY_BITS {
        None
    } else {
        let m: i64 = magnitude as i64;
        if negative {
            Some(-m)
        } else {
            Some(m)
        }
    }
}

/// The bit pattern of an ordinal, or `None` where no number has that rank.
pub fn bits_of_ordinal(ordinal: i64) -> (r: Option<u64>)
    ensures
        is_ordinal(ordinal as int) <==> r is Some,
        r matches Some(bits) ==> bits == pattern(ordinal as int) && !is_nan(bits) && rank(bits)
            == ordinal,
{
    if ordinal > 0x7ff0_0000_0000_0000 || ordinal < -0x7ff0_0000_0000_0000 {
        None
    } else if ordinal >= 0 {
        Some(ordinal as u64)
    } else {
        let m: u64 = (-ordinal) as u64;
        Some(SIGN_BIT + m)
    }
}

/// Decides `le_ordinals`.
pub fn not_greater(a: Option<i64>, b: Option<i64>) -> (r: bool)
    ensures
        r == le_ordinals(a, b),
{
    match (a, b) {
        (Some(x), Some(y)) => x <= y,
        _ => false,
    }
}

/// Decoding an ordinal and encoding it again gives the ordinal back.
pub proof fn lemma_rank_of_pattern(ordinal: int)
    requires
        is_ordinal(ordinal),
    ensures
        !is_nan(pattern(ordinal)),
        rank(pattern(ordinal)) == ordinal,
{
}

/// Encoding a number and decoding it again gives the pattern back, except
/// that negative zero comes back as positive zero.
pub proof fn lemma_pattern_of_rank(bits: u64)
    requires
        !is_nan(bits),
    ensures
        is_ordinal(rank(bits)),
        pattern(rank(bits)) == (if bits == SIGN_BIT {
            0
        } else {
            bits
        }),
{
}

/// Two numbers have the same ordinal exactly when they are the same pattern
/// or both are a zero.
pub proof fn lemma_rank_injective(a: u64, b: u64)
    requires
        !is_nan(a),
        !is_nan(b),
    ensures
        rank(a) == rank(b) <==> (a == b || (magnitude(a) == 0 && magnitude(b) == 0)),
{
}

/// How the ordinals order the patterns: a negative number is below every
/// positive one; two positive numbers are ordered as their patterns are, two
/// negative numbers the other way round.
pub proof fn lemma_rank_orders(a: u64, b: u64)
    requires
        !is_nan(a),
        !is_nan(b),
    ensures
        is_negative(a) && !is_negative(b) ==> rank(a) <= rank(b),
        !is_negative(a) && !is_negative(b) ==> (rank(a) <= rank(b) <==> a <= b),
        is_negative(a) && is_negative(b) ==> (rank(a) <= rank(b) <==> a >= b),
{
}

/// The ordinals decide the comparison of two patterns.
pub proof fn lemma_le_bits_by_ordinals(a: u64, b: u64, x: Option<i64>, y: Option<i64>)
    requires
        is_nan(a) <==> x is None,
        x matches Some(k) ==> k as int == rank(a),
        is_nan(b) <==> y is None,
        y matches Some(k) ==> k as int == rank(b),
    ensures
        le_ordinals(x, y) == le_bits(a, b),
{
}

} // verus!
