//! Component values, held as IEEE 754 binary32 bit patterns.

use vstd::prelude::*;

verus! {

/// Bit pattern of positive zero.
pub const ZERO: u32 = 0;

/// Bit pattern of one.
pub const ONE: u32 = 0x3F80_0000;

/// Mask of the sign bit.
pub const SIGN: u32 = 0x8000_0000;

/// The pattern with the sign bit of `bits` flipped and every other bit kept.
pub open spec fn negated(bits: u32) -> u32 {
    bits ^ SIGN
}

/// Whether `bits` is positive or negative zero.
pub open spec fn is_zero_bits(bits: u32) -> bool {
    bits == ZERO || bits == SIGN
}

/// Negates a component by flipping its sign bit.
pub fn negate(bits: u32) -> (r: u32)
    ensures
        r == negated(bits),
{
    bits ^ SIGN
}

/// Tells whether a component is a zero of either sign.
pub fn is_zero(bits: u32) -> (r: bool)
    ensures
        r == is_zero_bits(bits),
{
    bits == ZERO || bits == SIGN
}

} // verus!
