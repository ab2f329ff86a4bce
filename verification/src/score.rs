//! Similarity scores and thresholds.
//!
//! Scores and thresholds travel as the bit patterns of IEEE-754
//! single-precision numbers. The comparisons below are the IEEE order on
//! those patterns: a NaN compares false with everything, and the two zeros
//! are equal.

use vstd::prelude::*;

verus! {

/// Bit pattern of `1.0`.
pub const ONE_BITS: u32 = 0x3f80_0000;

/// Bit pattern of `0.0`.
pub const ZERO_BITS: u32 = 0;

/// The sign bit of a single-precision pattern.
pub const SIGN_BIT: u32 = 0x8000_0000;

/// Bit pattern of positive infinity: the largest magnitude that is a number.
pub const INFINITY_BITS: u32 = 0x7f80_0000;

/// The pattern without its sign bit.
pub open spec fn magnitude(bits: u32) -> int {
    if bits >= SIGN_BIT {
        bits - SIGN_BIT
    } else {
        bits as int
    }
}

/// Whether the pattern encodes a NaN.
pub open spec fn is_nan(bits: u32) -> bool {
    magnitude(bits) > INFINITY_BITS
}

/// An integer that grows with the encoded number; both zeros map to 0.
pub open spec fn order_key(bits: u32) -> int {
    if bits >= SIGN_BIT {
        -magnitude(bits)
    } else {
        magnitude(bits)
    }
}

/// `a < b` as IEEE-754 defines it.
pub open spec fn less_than(a: u32, b: u32) -> bool {
    !is_nan(a) && !is_nan(b) && order_key(a) < order_key(b)
}

/// `a >= b` as IEEE-754 defines it.
pub open spec fn at_least(a: u32, b: u32) -> bool {
    !is_nan(a) && !is_nan(b) && order_key(a) >= order_key(b)
}

/// Whether the pattern encodes a number between 0 and 1, both included.
pub open spec fn in_unit_interval(bits: u32) -> bool {
    at_least(bits, ZERO_BITS) && at_least(ONE_BITS, bits)
}

fn key_of(bits: u32) -> (key: i64)
    ensures
        key == order_key(bits),
{
    if bits >= SIGN_BIT {
        let m: u32 = bits - SIGN_BIT;
        -(m as i64)
    } else {
        bits as i64
    }
}

/// Tells whether the pattern encodes a NaN.
pub fn is_not_a_number(bits: u32) -> (nan: bool)
    ensures
        nan == is_nan(bits),
{
    let m: u32 = if bits >= SIGN_BIT {
        bits - SIGN_BIT
    } else {
        bits
    };
    m > INFINITY_BITS
}

/// Decides `a < b` on two single-precision patterns.
pub fn is_less(a: u32, b: u32) -> (less: bool)
    ensures
        less == less_than(a, b),
{
    !is_not_a_number(a) && !is_not_a_number(b) && key_of(a) < key_of(b)
}

/// Decides `a >= b` on two single-precision patterns.
pub fn is_at_least(a: u32, b: u32) -> (holds: bool)
    ensures
        holds == at_least(a, b),
{
    !is_not_a_number(a) && !is_not_a_number(b) && key_of(a) >= key_of(b)
}

/// Of two numbers exactly one of `a < b` and `a >= b` holds; with a NaN
/// neither does.
pub proof fn lemma_order_is_total_on_numbers(a: u32, b: u32)
    ensures
        !(less_than(a, b) && at_least(a, b)),
        (less_than(a, b) || at_least(a, b)) <==> (!is_nan(a) && !is_nan(b)),
{
}

} // verus!
