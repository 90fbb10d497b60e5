//! The scaling arithmetic: IEEE-754 single-precision values as `u32` bit
//! patterns, a reciprocal taken once at construction, and a multiplication
//! applied to every stored coordinate.

use vstd::prelude::*;

use rustc_apfloat::Float;
use rustc_apfloat::ieee::Single;

verus! {

/// The IEEE-754 single-precision product of the two values whose bit
/// patterns are `a` and `b`, rounded to nearest even, as a bit pattern.
pub uninterp spec fn mul_bits(a: u32, b: u32) -> u32;

/// The IEEE-754 single-precision reciprocal (one divided by the value whose
/// bit pattern is `bits`), rounded to nearest even, as a bit pattern.
pub uninterp spec fn recip_bits(bits: u32) -> u32;

/// Relies on `rustc_apfloat::ieee::Single` multiplication: a software
/// implementation of the IEEE-754 binary32 multiply, rounded to nearest
/// even, whose result depends on the two operand bit patterns alone.
#[verifier::external_body]
pub(crate) fn mul_f32(a: u32, b: u32) -> (r: u32)
    ensures
        r == mul_bits(a, b),
{
    let x = Single::from_bits(a as u128);
    let y = Single::from_bits(b as u128);
    (x * y).value.to_bits() as u32
}

/// Relies on `rustc_apfloat::ieee::Single` division: a software
/// implementation of the IEEE-754 binary32 divide, rounded to nearest even,
/// whose result depends on the operand bit patterns alone. The dividend is
/// the constant one, so the result is the operand's reciprocal.
#[verifier::external_body]
pub(crate) fn recip_f32(bits: u32) -> (r: u32)
    ensures
        r == recip_bits(bits),
{
    let one = Single::from_bits(0x3f80_0000u128);
    let x = Single::from_bits(bits as u128);
    (one / x).value.to_bits() as u32
}

/// The exponent field of an IEEE-754 single-precision bit pattern.
pub open spec fn f32_exponent_field(bits: u32) -> u32 {
    (bits >> 23) & 0xff
}

/// The bit pattern denotes a strictly positive finite value: sign bit clear,
/// exponent field not saturated (which would mean an infinity or a NaN), and
/// not positive zero.
pub open spec fn f32_is_positive_finite(bits: u32) -> bool {
    bits >> 31 == 0 && f32_exponent_field(bits) != 0xff && bits != 0
}

} // verus!
