//! Bit-level view of the 32-bit IEEE 754 scalars that run through the
//! pipeline.
//!
//! Every scalar the pipeline touches (matrix entries, projection bounds,
//! elapsed time) is carried as the raw bit pattern of a 32-bit binary
//! floating-point value.  This module defines what the classification bits
//! of such a pattern mean (sign, exponent, fraction) and gives executable
//! classifiers proved against those definitions.  Arithmetic on the
//! patterns lives in `arith`.

use vstd::prelude::*;

verus! {

/// Bit pattern of positive zero.
pub const ZERO_BITS: u32 = 0x0000_0000;

/// Bit pattern of one.
pub const ONE_BITS: u32 = 0x3F80_0000;

/// The sign bit of a scalar: 1 for negative patterns, 0 otherwise.
pub open spec fn sign_of(b: u32) -> u32 {
    b >> 31
}

/// The biased exponent field (8 bits).
pub open spec fn exponent_of(b: u32) -> u32 {
    (b >> 23) & 0xFF
}

/// The fraction (significand) field (23 bits).
pub open spec fn fraction_of(b: u32) -> u32 {
    b & 0x007F_FFFF
}

/// A pattern is a NaN when the exponent field is saturated and the
/// fraction is non-zero.
pub open spec fn is_nan_bits(b: u32) -> bool {
    exponent_of(b) == 0xFF && fraction_of(b) != 0
}

/// A pattern is finite (neither an infinity nor a NaN) when the exponent
/// field is not saturated.
pub open spec fn is_finite_bits(b: u32) -> bool {
    exponent_of(b) != 0xFF
}

/// A pattern represents zero (of either sign) when everything but the
/// sign bit is clear.
pub open spec fn is_zero_bits(b: u32) -> bool {
    b & 0x7FFF_FFFF == 0
}

/// Negation of a scalar flips exactly the sign bit.
pub open spec fn negated_bits(b: u32) -> u32 {
    b ^ 0x8000_0000
}

/// The value is strictly below zero: negative sign, not a NaN, not a
/// negative zero.
pub open spec fn is_below_zero_bits(b: u32) -> bool {
    sign_of(b) == 1 && !is_nan_bits(b) && !is_zero_bits(b)
}

/// The value compares greater than or equal to zero: not a NaN, and
/// either the sign is positive or the value is a zero.
pub open spec fn is_at_least_zero_bits(b: u32) -> bool {
    !is_nan_bits(b) && (sign_of(b) == 0 || is_zero_bits(b))
}

/// Executable finiteness classifier.
pub fn is_finite(b: u32) -> (r: bool)
    ensures
        r == is_finite_bits(b),
{
    ((b >> 23) & 0xFF) != 0xFF
}

/// Executable NaN classifier.
pub fn is_nan(b: u32) -> (r: bool)
    ensures
        r == is_nan_bits(b),
{
    ((b >> 23) & 0xFF) == 0xFF && (b & 0x007F_FFFF) != 0
}

/// Executable zero classifier.
pub fn is_zero(b: u32) -> (r: bool)
    ensures
        r == is_zero_bits(b),
{
    (b & 0x7FFF_FFFF) == 0
}

/// Executable negation: flips the sign bit and nothing else.
pub fn negate(b: u32) -> (r: u32)
    ensures
        r == negated_bits(b),
{
    b ^ 0x8000_0000
}

/// Executable strict below-zero test, matching `is_below_zero_bits`.
pub fn is_below_zero(b: u32) -> (r: bool)
    ensures
        r == is_below_zero_bits(b),
{
    (b >> 31) == 1 && !is_nan(b) && !is_zero(b)
}

/// Executable at-least-zero test, matching `is_at_least_zero_bits`.
pub fn is_at_least_zero(b: u32) -> (r: bool)
    ensures
        r == is_at_least_zero_bits(b),
{
    !is_nan(b) && ((b >> 31) == 0 || is_zero(b))
}

/// The strict order of two binary32 values, read off their bit
/// patterns: false when either is a NaN or both are zeros; otherwise a
/// negative value is below a non-negative one, two non-negative values
/// order as their bit patterns do, and two negative values order the
/// other way around.
pub open spec fn lt_bits(a: u32, b: u32) -> bool {
    if is_nan_bits(a) || is_nan_bits(b) {
        false
    } else if is_zero_bits(a) && is_zero_bits(b) {
        false
    } else if sign_of(a) == 1 && sign_of(b) == 0 {
        true
    } else if sign_of(a) == 0 && sign_of(b) == 1 {
        false
    } else if sign_of(a) == 0 {
        (a & 0x7FFF_FFFF) < (b & 0x7FFF_FFFF)
    } else {
        (a & 0x7FFF_FFFF) > (b & 0x7FFF_FFFF)
    }
}

/// Executable strict order, matching `lt_bits` on every input.
pub fn lt(a: u32, b: u32) -> (r: bool)
    ensures
        r == lt_bits(a, b),
{
    if is_nan(a) || is_nan(b) {
        false
    } else if is_zero(a) && is_zero(b) {
        false
    } else if (a >> 31) == 1 && (b >> 31) == 0 {
        true
    } else if (a >> 31) == 0 && (b >> 31) == 1 {
        false
    } else if (a >> 31) == 0 {
        (a & 0x7FFF_FFFF) < (b & 0x7FFF_FFFF)
    } else {
        (a & 0x7FFF_FFFF) > (b & 0x7FFF_FFFF)
    }
}

/// The sign-transfer rule the pipeline uses: keep `to` when its sign
/// class agrees with `from`'s, otherwise flip `to`'s sign bit.  A NaN in
/// either argument falls in neither sign class, so it forces the flip.
pub open spec fn copysign_bits(to: u32, from: u32) -> u32 {
    if (is_below_zero_bits(from) && is_below_zero_bits(to)) || (is_at_least_zero_bits(from)
        && is_at_least_zero_bits(to)) {
        to
    } else {
        negated_bits(to)
    }
}

/// Executable sign transfer, matching `copysign_bits` on every input.
pub fn copysign(to: u32, from: u32) -> (r: u32)
    ensures
        r == copysign_bits(to, from),
{
    if (is_below_zero(from) && is_below_zero(to)) || (is_at_least_zero(from) && is_at_least_zero(
        to,
    )) {
        to
    } else {
        negate(to)
    }
}

/// The two distinguished constants are finite and are not NaNs.
pub proof fn lemma_constants_are_finite()
    ensures
        is_finite_bits(ZERO_BITS),
        is_finite_bits(ONE_BITS),
        !is_nan_bits(ZERO_BITS),
        !is_nan_bits(ONE_BITS),
        is_zero_bits(ZERO_BITS),
        !is_zero_bits(ONE_BITS),
{
    assert((0x3F80_0000u32 >> 23) & 0xFF != 0xFF) by (bit_vector);
    assert((0x0000_0000u32 >> 23) & 0xFF != 0xFF) by (bit_vector);
    assert(0x3F80_0000u32 & 0x7FFF_FFFF != 0) by (bit_vector);
    assert(0x0000_0000u32 & 0x7FFF_FFFF == 0) by (bit_vector);
}

} // verus!
