//! The order of IEEE 754 binary64 values, read from their bit patterns.
//!
//! Distances and other real quantities are computed outside this library and
//! handed in as the 64-bit patterns of binary64 numbers. Every decision the
//! library makes on them is a comparison, and comparisons follow the IEEE
//! rules: a NaN is unordered with everything, and the two zeros are equal.
use vstd::prelude::*;

verus! {

pub const SIGN_MASK: u64 = 0x8000_0000_0000_0000;

pub const MAGNITUDE_MASK: u64 = 0x7FFF_FFFF_FFFF_FFFF;

pub const EXPONENT_MASK: u64 = 0x7FF0_0000_0000_0000;

pub const FRACTION_MASK: u64 = 0x000F_FFFF_FFFF_FFFF;

/// The bit pattern of `+0.0`.
pub const POSITIVE_ZERO: u64 = 0;

/// The bit pattern of `+infinity`.
pub const POSITIVE_INFINITY: u64 = 0x7FF0_0000_0000_0000;

/// A NaN: all exponent bits set and a nonzero fraction.
pub open spec fn is_nan(b: u64) -> bool {
    b & EXPONENT_MASK == EXPONENT_MASK && b & FRACTION_MASK != 0
}

/// The signed magnitude of a pattern. Binary64 encodes magnitudes so that
/// their order is the order of the unsigned integers below the sign bit, with
/// infinity above every finite value; on values that are not NaN this key
/// orders exactly as the numbers do, both zeros mapping to 0.
pub open spec fn order_key(b: u64) -> int {
    let mag = (b & MAGNITUDE_MASK) as int;
    if b & SIGN_MASK == 0 {
        mag
    } else {
        -mag
    }
}

/// IEEE `a < b`.
pub open spec fn lt(a: u64, b: u64) -> bool {
    !is_nan(a) && !is_nan(b) && order_key(a) < order_key(b)
}

/// IEEE `a <= b`.
pub open spec fn le(a: u64, b: u64) -> bool {
    !is_nan(a) && !is_nan(b) && order_key(a) <= order_key(b)
}

pub proof fn lemma_special_values()
    ensures
        !is_nan(POSITIVE_ZERO),
        order_key(POSITIVE_ZERO) == 0,
        !is_nan(POSITIVE_INFINITY),
        order_key(POSITIVE_INFINITY) == POSITIVE_INFINITY as int,
{
    assert(0u64 & 0x7FF0_0000_0000_0000u64 == 0u64) by (bit_vector);
    assert(0u64 & 0x7FFF_FFFF_FFFF_FFFFu64 == 0u64) by (bit_vector);
    assert(0u64 & 0x8000_0000_0000_0000u64 == 0u64) by (bit_vector);
    assert(0x7FF0_0000_0000_0000u64 & 0x000F_FFFF_FFFF_FFFFu64 == 0u64) by (bit_vector);
    assert(0x7FF0_0000_0000_0000u64 & 0x7FFF_FFFF_FFFF_FFFFu64 == 0x7FF0_0000_0000_0000u64)
        by (bit_vector);
    assert(0x7FF0_0000_0000_0000u64 & 0x8000_0000_0000_0000u64 == 0u64) by (bit_vector);
}

/// Whether the pattern is a NaN.
pub fn pattern_is_nan(b: u64) -> (r: bool)
    ensures
        r == is_nan(b),
{
    b & EXPONENT_MASK == EXPONENT_MASK && b & FRACTION_MASK != 0
}

fn key_of(b: u64) -> (r: i128)
    ensures
        r == order_key(b),
{
    let mag = b & MAGNITUDE_MASK;
    if b & SIGN_MASK == 0 {
        mag as i128
    } else {
        -(mag as i128)
    }
}

/// IEEE `a < b` on bit patterns.
pub fn less_than(a: u64, b: u64) -> (r: bool)
    ensures
        r == lt(a, b),
{
    !pattern_is_nan(a) && !pattern_is_nan(b) && key_of(a) < key_of(b)
}

/// IEEE `a <= b` on bit patterns.
pub fn less_or_equal(a: u64, b: u64) -> (r: bool)
    ensures
        r == le(a, b),
{
    !pattern_is_nan(a) && !pattern_is_nan(b) && key_of(a) <= key_of(b)
}

} // verus!
