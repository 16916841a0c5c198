//! Single-precision scalar values, carried as IEEE-754 binary32 bit patterns.
//!
//! Verified code never touches host floating point: a [`Scalar`] holds the
//! 32-bit pattern of a single-precision value, and arithmetic on it is done
//! by outside software implementations of binary32 arithmetic, reached
//! through trusted wrappers. Each arithmetic result is pinned by a name (an
//! uninterpreted function of the operand bits), so every contract built on
//! top is exact about the dataflow: the same operands always give the same
//! result, and nothing else is assumed of the arithmetic.

use vstd::prelude::*;
use rustc_apfloat::Float as _;

verus! {

/// The bit pattern of positive zero.
pub const ZERO_BITS: u32 = 0x0000_0000;

/// The bit pattern of one.
pub const ONE_BITS: u32 = 0x3F80_0000;

/// The bit pattern of minus one.
pub const NEG_ONE_BITS: u32 = 0xBF80_0000;

/// The bit pattern of the closest single-precision value to half pi,
/// the pre-warp angle scale.
pub const HALF_PI_BITS: u32 = 0x3FC9_0FDB;

/// A single-precision value, held as its IEEE-754 binary32 bit pattern.
#[derive(Clone, Copy, PartialEq, Eq, Structural, Debug)]
pub struct Scalar {
    pub bits: u32,
}

impl View for Scalar {
    type V = u32;

    open spec fn view(&self) -> u32 {
        self.bits
    }
}

impl Scalar {
    /// Wrap a raw bit pattern.
    pub fn from_bits(bits: u32) -> (r: Scalar)
        ensures
            r@ == bits,
    {
        Scalar { bits }
    }

    /// The raw bit pattern.
    pub fn bits(self) -> (r: u32)
        ensures
            r == self@,
    {
        self.bits
    }

    /// Positive zero.
    pub fn zero() -> (r: Scalar)
        ensures
            r@ == ZERO_BITS,
    {
        Scalar { bits: ZERO_BITS }
    }
}

/// The bit pattern of the binary32 sum of two bit patterns.
pub uninterp spec fn add_bits(a: u32, b: u32) -> u32;

/// The bit pattern of the binary32 product of two bit patterns.
pub uninterp spec fn mul_bits(a: u32, b: u32) -> u32;

/// The bit pattern of the binary32 quotient of two bit patterns.
pub uninterp spec fn div_bits(a: u32, b: u32) -> u32;

/// The bit pattern of the binary32 negation of a bit pattern: negation
/// flips the sign bit and keeps every other bit, for every pattern,
/// NaNs included.
pub open spec fn neg_bits(a: u32) -> u32 {
    a ^ 0x8000_0000
}

/// Relies on rustc_apfloat's `ieee::Single` addition (IEEE-754, round to
/// nearest, ties to even): the sum's bits depend on the operand bits alone.
#[verifier::external_body]
pub(crate) fn s_add(a: Scalar, b: Scalar) -> (r: Scalar)
    ensures
        r@ == add_bits(a@, b@),
{
    let x = rustc_apfloat::ieee::Single::from_bits(a.bits as u128);
    let y = rustc_apfloat::ieee::Single::from_bits(b.bits as u128);
    Scalar { bits: (x + y).value.to_bits() as u32 }
}

/// Relies on rustc_apfloat's `ieee::Single` multiplication (IEEE-754, round
/// to nearest, ties to even): the product's bits depend on the operand bits
/// alone.
#[verifier::external_body]
pub(crate) fn s_mul(a: Scalar, b: Scalar) -> (r: Scalar)
    ensures
        r@ == mul_bits(a@, b@),
{
    let x = rustc_apfloat::ieee::Single::from_bits(a.bits as u128);
    let y = rustc_apfloat::ieee::Single::from_bits(b.bits as u128);
    Scalar { bits: (x * y).value.to_bits() as u32 }
}

/// Relies on rustc_apfloat's `ieee::Single` division (IEEE-754, round to
/// nearest, ties to even): the quotient's bits depend on the operand bits
/// alone.
#[verifier::external_body]
pub(crate) fn s_div(a: Scalar, b: Scalar) -> (r: Scalar)
    ensures
        r@ == div_bits(a@, b@),
{
    let x = rustc_apfloat::ieee::Single::from_bits(a.bits as u128);
    let y = rustc_apfloat::ieee::Single::from_bits(b.bits as u128);
    Scalar { bits: (x / y).value.to_bits() as u32 }
}

/// Negate a scalar: flip the sign bit.
pub(crate) fn s_neg(a: Scalar) -> (r: Scalar)
    ensures
        r@ == neg_bits(a@),
{
    Scalar { bits: a.bits ^ 0x8000_0000 }
}

/// The decoded fields of the binary32 tangent of a decoded argument: sign,
/// unbiased exponent and mantissa (with the implicit bit for normal values),
/// in the convention of [`spec_unpack`] and [`spec_repack`].
pub uninterp spec fn tan_parts(sign: bool, exp: i64, mant: u64) -> (bool, i64, u64);

/// Relies on arpfloat's `Float::tan` over binary32 semantics: the tangent's
/// decoded fields depend on the argument's decoded fields alone. The field
/// bounds admit exactly the decodings of 32-bit patterns, on which the
/// outside call stays on its total, panic-free path; far larger exponents
/// could overflow the grown working semantics inside `tan`.
#[verifier::external_body]
fn arp_tan(sign: bool, exp: i64, mant: u64) -> (r: (bool, i64, u64))
    requires
        -126 <= exp <= 128,
        mant < 0x100_0000,
    ensures
        r == tan_parts(sign, exp, mant),
{
    let m = arpfloat::BigInt::from_u64(mant);
    let x = arpfloat::Float::from_parts(arpfloat::FP32, sign, exp, m);
    let t = x.tan();
    (t.get_sign(), t.get_exp(), t.get_mantissa().as_u64())
}

/// Decode a binary32 bit pattern into sign, unbiased exponent and mantissa.
///
/// Normal patterns carry the implicit leading bit in the mantissa; patterns
/// with a zero biased exponent (zero and the subnormals) decode with
/// exponent -126 and the fraction alone. Patterns with the maximal biased
/// exponent decode as large finite fields; within the documented parameter
/// ranges of the filter they do not arise.
pub open spec fn spec_unpack(bits: u32) -> (bool, i64, u64) {
    let sign = (bits >> 31) == 1u32;
    let biased = (bits >> 23) & 0xFF;
    let frac = bits & 0x7F_FFFF;
    if biased == 0 {
        (sign, -126i64, frac as u64)
    } else {
        (sign, ((biased as i64) - 127) as i64, ((frac as u64) + 0x80_0000u64) as u64)
    }
}

/// Encode sign, unbiased exponent and mantissa back into a binary32 bit
/// pattern, the inverse of [`spec_unpack`] on its range. Fields outside the
/// binary32 convention saturate: a too-large exponent gives the infinity
/// pattern of that sign, anything else gives the zero pattern of that sign.
pub open spec fn spec_repack(sign: bool, exp: i64, mant: u64) -> u32 {
    let s: u32 = if sign { 0x8000_0000u32 } else { 0u32 };
    if mant == 0 {
        s
    } else if 0x80_0000 <= mant && mant < 0x100_0000 && -126 <= exp && exp <= 127 {
        s | (((exp + 127) as u32) << 23u32) | ((mant - 0x80_0000) as u32)
    } else if mant < 0x80_0000 && exp == -126 {
        s | (mant as u32)
    } else if exp > 127 {
        s | 0x7F80_0000u32
    } else {
        s
    }
}

/// The bit pattern of the binary32 tangent of a bit pattern: decode,
/// take the tangent, encode.
pub open spec fn tan_bits(a: u32) -> u32 {
    let (sign, exp, mant) = spec_unpack(a);
    let (tsign, texp, tmant) = tan_parts(sign, exp, mant);
    spec_repack(tsign, texp, tmant)
}

/// Decode a bit pattern into its binary32 fields. The decoded exponent and
/// mantissa are bounded by construction: the biased exponent field has 8
/// bits and the fraction field 23.
fn unpack(bits: u32) -> (r: (bool, i64, u64))
    ensures
        r == spec_unpack(bits),
        -126 <= r.1 <= 128,
        r.2 < 0x100_0000,
{
    let sign = (bits >> 31) == 1u32;
    let biased: u32 = (bits >> 23) & 0xFF;
    let frac: u32 = bits & 0x7F_FFFF;
    proof {
        assert(biased <= 255 && frac <= 0x7F_FFFF) by (bit_vector)
            requires
                biased == (bits >> 23) & 0xFF && frac == bits & 0x7F_FFFF,
        ;
    }
    if biased == 0 {
        (sign, -126i64, frac as u64)
    } else {
        (sign, (biased as i64) - 127, (frac as u64) + 0x80_0000u64)
    }
}

/// Encode binary32 fields back into a bit pattern.
fn repack(sign: bool, exp: i64, mant: u64) -> (r: u32)
    ensures
        r == spec_repack(sign, exp, mant),
{
    let s: u32 = if sign { 0x8000_0000u32 } else { 0u32 };
    if mant == 0 {
        s
    } else if 0x80_0000 <= mant && mant < 0x100_0000 && -126 <= exp && exp <= 127 {
        let biased: u32 = (exp + 127) as u32;
        s | (biased << 23u32) | ((mant - 0x80_0000) as u32)
    } else if mant < 0x80_0000 && exp == -126 {
        s | (mant as u32)
    } else if exp > 127 {
        s | 0x7F80_0000u32
    } else {
        s
    }
}

/// The binary32 tangent of a scalar, computed by an outside soft-float
/// implementation on the decoded fields.
pub(crate) fn s_tan(a: Scalar) -> (r: Scalar)
    ensures
        r@ == tan_bits(a@),
{
    let (sign, exp, mant) = unpack(a.bits);
    let (tsign, texp, tmant) = arp_tan(sign, exp, mant);
    Scalar { bits: repack(tsign, texp, tmant) }
}

} // verus!
