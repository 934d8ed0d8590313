//! Trusted arithmetic on 32-bit scalar bit patterns.
//!
//! The pipeline cannot state a closed form for IEEE 754 binary32
//! arithmetic, so each operation's result is given a name: an
//! uninterpreted function of the argument bit patterns alone.  The
//! executable operations delegate to a software implementation of the
//! IEEE operations from an outside crate and are trusted to return the
//! named results.  Everything downstream speaks of the names.

use vstd::prelude::*;

verus! {

/// The bit pattern of the IEEE 754 binary32 sum of the two argument
/// patterns, rounded to nearest, ties to even.
pub uninterp spec fn sum_bits(a: u32, b: u32) -> u32;

/// The bit pattern of the IEEE 754 binary32 product of the two argument
/// patterns, rounded to nearest, ties to even.
pub uninterp spec fn prod_bits(a: u32, b: u32) -> u32;

/// The bit pattern of the IEEE 754 binary32 quotient of the two argument
/// patterns, rounded to nearest, ties to even.
pub uninterp spec fn quot_bits(a: u32, b: u32) -> u32;

/// The bit pattern of the IEEE 754 binary32 square root of the argument
/// pattern, rounded to nearest, ties to even.
pub uninterp spec fn sqrt_bits(a: u32) -> u32;

/// Relies on const_soft_float::soft_f32::SoftF32::add, a pure software
/// binary32 addition: the result depends on the two bit patterns alone.
#[verifier::external_body]
pub(crate) fn scalar_add(a: u32, b: u32) -> (r: u32)
    ensures
        r == sum_bits(a, b),
{
    const_soft_float::soft_f32::SoftF32::from_bits(a)
        .add(const_soft_float::soft_f32::SoftF32::from_bits(b))
        .to_bits()
}

/// Relies on const_soft_float::soft_f32::SoftF32::mul, a pure software
/// binary32 multiplication: the result depends on the two bit patterns
/// alone.
#[verifier::external_body]
pub(crate) fn scalar_mul(a: u32, b: u32) -> (r: u32)
    ensures
        r == prod_bits(a, b),
{
    const_soft_float::soft_f32::SoftF32::from_bits(a)
        .mul(const_soft_float::soft_f32::SoftF32::from_bits(b))
        .to_bits()
}

/// Relies on const_soft_float::soft_f32::SoftF32::div, a pure software
/// binary32 division: the result depends on the two bit patterns alone.
#[verifier::external_body]
pub(crate) fn scalar_div(a: u32, b: u32) -> (r: u32)
    ensures
        r == quot_bits(a, b),
{
    const_soft_float::soft_f32::SoftF32::from_bits(a)
        .div(const_soft_float::soft_f32::SoftF32::from_bits(b))
        .to_bits()
}

/// Relies on const_soft_float::soft_f32::SoftF32::sqrt, a pure software
/// binary32 square root: the result depends on the bit pattern alone.
#[verifier::external_body]
pub(crate) fn scalar_sqrt(a: u32) -> (r: u32)
    ensures
        r == sqrt_bits(a),
{
    const_soft_float::soft_f32::SoftF32::from_bits(a).sqrt().to_bits()
}

} // verus!
