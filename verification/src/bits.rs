//! Classifying IEEE-754 binary64 values by their bit patterns.
//!
//! An operand travels through the evaluator as the `u64` holding its
//! binary64 representation: bit 63 is the sign, bits 62..=52 the exponent,
//! bits 51..=0 the mantissa.  Every class the evaluator distinguishes —
//! zero, infinity, NaN, negative — is a plain predicate on that integer.

use vstd::prelude::*;

verus! {

/// Mask of every bit but the sign bit.
pub const ABS_MASK: u64 = 0x7FFF_FFFF_FFFF_FFFF;

/// Mask of the exponent bits; also the bit pattern of positive infinity.
pub const EXPONENT_MASK: u64 = 0x7FF0_0000_0000_0000;

/// The bit pattern with the sign cleared: the pattern of the absolute value.
pub open spec fn abs_bits(b: u64) -> u64 {
    b & ABS_MASK
}

/// An infinity of either sign: exponent all ones, mantissa zero.
pub open spec fn is_infinite_bits(b: u64) -> bool {
    abs_bits(b) == EXPONENT_MASK
}

/// A NaN: exponent all ones, mantissa nonzero.
pub open spec fn is_nan_bits(b: u64) -> bool {
    abs_bits(b) > EXPONENT_MASK
}

/// A zero of either sign.
pub open spec fn is_zero_bits(b: u64) -> bool {
    abs_bits(b) == 0
}

/// The sign bit is set.
pub open spec fn is_sign_negative_bits(b: u64) -> bool {
    b >= 0x8000_0000_0000_0000
}

/// Executable twin of [`abs_bits`].
pub fn abs_bits_of(b: u64) -> (r: u64)
    ensures
        r == abs_bits(b),
{
    b & ABS_MASK
}

/// Executable twin of [`is_infinite_bits`].
pub fn infinite_bits(b: u64) -> (r: bool)
    ensures
        r == is_infinite_bits(b),
{
    (b & ABS_MASK) == EXPONENT_MASK
}

/// Executable twin of [`is_nan_bits`].
pub fn nan_bits(b: u64) -> (r: bool)
    ensures
        r == is_nan_bits(b),
{
    (b & ABS_MASK) > EXPONENT_MASK
}

/// Executable twin of [`is_zero_bits`].
pub fn zero_bits(b: u64) -> (r: bool)
    ensures
        r == is_zero_bits(b),
{
    (b & ABS_MASK) == 0
}

/// Executable twin of [`is_sign_negative_bits`].
pub fn sign_negative_bits(b: u64) -> (r: bool)
    ensures
        r == is_sign_negative_bits(b),
{
    b >= 0x8000_0000_0000_0000
}

} // verus!
