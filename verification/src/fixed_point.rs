//! The fixed-point operations of the `fixed` crate that the library uses,
//! on raw bit patterns: `I16F16` (16 fractional bits in an `i32`) and
//! `I32F32` (32 fractional bits in an `i64`).
use vstd::prelude::*;
use fixed::types::{I16F16, I32F32};

verus! {

/// `I16F16` subtraction (`Sub for FixedI32<U16>`), on raw bits. The `fixed`
/// crate subtracts the underlying integers, which panics on overflow when
/// debug assertions are on; the contract excludes overflow and states the
/// difference.
#[verifier::external_body]
pub(crate) fn i16f16_sub(a: i32, b: i32) -> (r: i32)
    requires
        i32::MIN <= a - b <= i32::MAX,
    ensures
        r == a - b,
{
    (I16F16::from_bits(a) - I16F16::from_bits(b)).to_bits()
}

/// `I16F16` multiplication (`Mul for FixedI32<U16>`), on raw bits. The
/// `fixed` crate widens to `i64`, multiplies `a` by `b << 16` (a debug
/// assertion fails if that product overflows `i64`) and keeps bits 32..63,
/// so the result is `a * b / 2^16` rounded toward −∞. The contract excludes
/// the overflow and states that quotient.
#[verifier::external_body]
pub(crate) fn i16f16_mul(a: i32, b: i32) -> (r: i32)
    requires
        i64::MIN <= a * b * 0x1_0000 <= i64::MAX,
    ensures
        r == (a * b) / 0x1_0000,
{
    (I16F16::from_bits(a) * I16F16::from_bits(b)).to_bits()
}

/// `I16F16` in-place addition (`AddAssign for FixedI32<U16>`), on raw bits.
/// The `fixed` crate adds the underlying integers, which panics on overflow
/// when debug assertions are on; the contract excludes overflow and states
/// the sum.
#[verifier::external_body]
pub(crate) fn i16f16_add_assign(y: &mut i32, b: i32)
    requires
        i32::MIN <= *old(y) + b <= i32::MAX,
    ensures
        *final(y) == *old(y) + b,
{
    let mut f = I16F16::from_bits(*y);
    f += I16F16::from_bits(b);
    *y = f.to_bits();
}

/// `I32F32::from_num` of an `i32`, on raw bits: the integer shifted into the
/// integer part. Every `i32` fits, so it never panics.
#[verifier::external_body]
pub(crate) fn i32f32_from_i32(n: i32) -> (r: i64)
    ensures
        r == n * 0x1_0000_0000,
{
    I32F32::from_num(n).to_bits()
}

/// `I32F32` multiplication (`Mul for FixedI64<U32>`), on raw bits. The
/// `fixed` crate widens to `i128`, multiplies `a` by `b << 32` (a debug
/// assertion fails if that product overflows `i128`) and keeps bits
/// 64..127 truncated to `i64`, so the result is `a * b / 2^32` rounded
/// toward −∞ and truncated to 64 bits.
#[verifier::external_body]
pub(crate) fn i32f32_mul(a: i64, b: i64) -> (r: i64)
    requires
        i128::MIN <= a * b * 0x1_0000_0000 <= i128::MAX,
    ensures
        r == ((a * b) / 0x1_0000_0000) as i64,
{
    (I32F32::from_bits(a) * I32F32::from_bits(b)).to_bits()
}

/// `I32F32::to_num::<i32>`, on raw bits: the fractional bits are discarded,
/// rounding toward −∞. The integer part of an `I32F32` always fits in an
/// `i32`, so it never panics.
#[verifier::external_body]
pub(crate) fn i32f32_to_i32(bits: i64) -> (r: i32)
    ensures
        r == bits / 0x1_0000_0000,
{
    I32F32::from_bits(bits).to_num::<i32>()
}

} // verus!
