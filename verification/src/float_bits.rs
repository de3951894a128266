//! IEEE-754 binary64 values carried as their 64-bit patterns.
//!
//! The runtime keeps every floating-point value as the raw bit pattern of an
//! IEEE-754 double.  Classification, equality and ordering are pure bit
//! arithmetic and are implemented and specified here directly.  Rounding
//! arithmetic (add, subtract, multiply, divide, remainder, conversion from an
//! integer, decimal rendering) is delegated to a software implementation of
//! IEEE-754 arithmetic; those operations are deterministic functions of the
//! operand bits alone and are named by uninterpreted spec functions below.
use vstd::prelude::*;

use rustc_apfloat::Float;
use rustc_apfloat::ieee::Double;

verus! {

/// All bits except the sign bit.
pub open spec fn abs_bits(b: u64) -> u64 {
    b & 0x7fff_ffff_ffff_ffff
}

/// The exponent field is all ones and the mantissa is non-zero.
pub open spec fn is_nan_bits(b: u64) -> bool {
    abs_bits(b) > 0x7ff0_0000_0000_0000
}

/// Positive or negative zero.
pub open spec fn is_zero_bits(b: u64) -> bool {
    abs_bits(b) == 0
}

/// Sign bit set.
pub open spec fn is_neg_bits(b: u64) -> bool {
    b >= 0x8000_0000_0000_0000
}

/// Order key of a non-NaN double: the bit patterns of non-NaN doubles are
/// sign-magnitude integers, so negating the magnitude of the negative ones
/// yields a key whose integer order is exactly the IEEE-754 order (both
/// zeros map to key 0).
pub open spec fn float_key(b: u64) -> int {
    if is_neg_bits(b) {
        -(abs_bits(b) as int)
    } else {
        abs_bits(b) as int
    }
}

/// IEEE-754 equality on bit patterns: NaN equals nothing, the two zeros are
/// equal, everything else is equal only to its own pattern.
pub open spec fn float_eq_bits(a: u64, b: u64) -> bool {
    &&& !is_nan_bits(a)
    &&& !is_nan_bits(b)
    &&& float_key(a) == float_key(b)
}

/// IEEE-754 `<` on bit patterns: false whenever either side is NaN.
pub open spec fn float_lt_bits(a: u64, b: u64) -> bool {
    &&& !is_nan_bits(a)
    &&& !is_nan_bits(b)
    &&& float_key(a) < float_key(b)
}

/// IEEE-754 `<=` on bit patterns: false whenever either side is NaN.
pub open spec fn float_le_bits(a: u64, b: u64) -> bool {
    &&& !is_nan_bits(a)
    &&& !is_nan_bits(b)
    &&& float_key(a) <= float_key(b)
}

/// Bit pattern of the double 1.0.
pub const ONE_BITS: u64 = 0x3ff0_0000_0000_0000;

/// Bit pattern of the canonical quiet NaN.
pub const QNAN_BITS: u64 = 0x7ff8_0000_0000_0000;

fn abs_bits_of(b: u64) -> (r: u64)
    ensures
        r == abs_bits(b),
{
    b & 0x7fff_ffff_ffff_ffff
}

/// Whether the bit pattern is a NaN.
pub fn float_is_nan(b: u64) -> (r: bool)
    ensures
        r == is_nan_bits(b),
{
    abs_bits_of(b) > 0x7ff0_0000_0000_0000
}

/// Whether the bit pattern is positive or negative zero.
pub fn float_is_zero(b: u64) -> (r: bool)
    ensures
        r == is_zero_bits(b),
{
    abs_bits_of(b) == 0
}

/// IEEE-754 equality of two doubles, computed on their bit patterns.
pub fn float_eq(a: u64, b: u64) -> (r: bool)
    ensures
        r == float_eq_bits(a, b),
{
    proof {
        assert((a & 0x7fff_ffff_ffff_ffff == b & 0x7fff_ffff_ffff_ffff && (a
            >= 0x8000_0000_0000_0000) == (b >= 0x8000_0000_0000_0000)) ==> a == b)
            by (bit_vector);
    }
    if float_is_nan(a) || float_is_nan(b) {
        false
    } else if float_is_zero(a) && float_is_zero(b) {
        true
    } else {
        a == b
    }
}

/// IEEE-754 `<` of two doubles, computed on their bit patterns.
pub fn float_lt(a: u64, b: u64) -> (r: bool)
    ensures
        r == float_lt_bits(a, b),
{
    if float_is_nan(a) || float_is_nan(b) {
        return false;
    }
    let a_neg = a >= 0x8000_0000_0000_0000;
    let b_neg = b >= 0x8000_0000_0000_0000;
    let a_mag = abs_bits_of(a);
    let b_mag = abs_bits_of(b);
    if a_neg && b_neg {
        b_mag < a_mag
    } else if a_neg {
        // a <= -0.0 and b >= +0.0: strictly less unless both are zero
        !(a_mag == 0 && b_mag == 0)
    } else if b_neg {
        false
    } else {
        a_mag < b_mag
    }
}

/// IEEE-754 `<=` of two doubles, computed on their bit patterns.
pub fn float_le(a: u64, b: u64) -> (r: bool)
    ensures
        r == float_le_bits(a, b),
{
    if float_is_nan(a) || float_is_nan(b) {
        false
    } else {
        !float_lt(b, a)
    }
}

/// The IEEE-754 round-to-nearest-even sum of the doubles with patterns `a`, `b`.
pub uninterp spec fn fadd_bits(a: u64, b: u64) -> u64;

/// The IEEE-754 round-to-nearest-even difference of the doubles `a`, `b`.
pub uninterp spec fn fsub_bits(a: u64, b: u64) -> u64;

/// The IEEE-754 round-to-nearest-even product of the doubles `a`, `b`.
pub uninterp spec fn fmul_bits(a: u64, b: u64) -> u64;

/// The IEEE-754 round-to-nearest-even quotient of the doubles `a`, `b`.
pub uninterp spec fn fdiv_bits(a: u64, b: u64) -> u64;

/// The C `fmod` remainder of the doubles `a`, `b`.
pub uninterp spec fn fmod_bits(a: u64, b: u64) -> u64;

/// The nearest double to the 64-bit signed integer `i`.
pub uninterp spec fn float_of_int(i: i64) -> u64;

/// The decimal rendering of the double with pattern `b`.
pub uninterp spec fn float_text_of(b: u64) -> Seq<char>;

/// The value of the double `b` as an integer, if it is one exactly.
pub uninterp spec fn exact_int_of(b: u64) -> Option<i64>;

/// Relies on rustc_apfloat's `Double` addition: IEEE-754 binary64 addition,
/// round to nearest even, a function of the operand bits alone.
#[verifier::external_body]
pub(crate) fn float_add(a: u64, b: u64) -> (r: u64)
    ensures
        r == fadd_bits(a, b),
{
    (Double::from_bits(a as u128) + Double::from_bits(b as u128)).value.to_bits() as u64
}

/// Relies on rustc_apfloat's `Double` subtraction: IEEE-754 binary64
/// subtraction, round to nearest even, a function of the operand bits alone.
#[verifier::external_body]
pub(crate) fn float_sub(a: u64, b: u64) -> (r: u64)
    ensures
        r == fsub_bits(a, b),
{
    (Double::from_bits(a as u128) - Double::from_bits(b as u128)).value.to_bits() as u64
}

/// Relies on rustc_apfloat's `Double` multiplication: IEEE-754 binary64
/// multiplication, round to nearest even, a function of the operand bits alone.
#[verifier::external_body]
pub(crate) fn float_mul(a: u64, b: u64) -> (r: u64)
    ensures
        r == fmul_bits(a, b),
{
    (Double::from_bits(a as u128) * Double::from_bits(b as u128)).value.to_bits() as u64
}

/// Relies on rustc_apfloat's `Double` division: IEEE-754 binary64 division,
/// round to nearest even, a function of the operand bits alone.
#[verifier::external_body]
pub(crate) fn float_div(a: u64, b: u64) -> (r: u64)
    ensures
        r == fdiv_bits(a, b),
{
    (Double::from_bits(a as u128) / Double::from_bits(b as u128)).value.to_bits() as u64
}

/// Relies on rustc_apfloat's `Double::c_fmod`: the C `fmod` remainder,
/// a function of the operand bits alone.
#[verifier::external_body]
pub(crate) fn float_rem(a: u64, b: u64) -> (r: u64)
    ensures
        r == fmod_bits(a, b),
{
    Double::from_bits(a as u128).c_fmod(Double::from_bits(b as u128)).value.to_bits() as u64
}

/// Relies on rustc_apfloat's `Double::from_i128`: the nearest double to a
/// signed integer, a function of the integer alone.
#[verifier::external_body]
pub(crate) fn int_to_float(i: i64) -> (r: u64)
    ensures
        r == float_of_int(i),
{
    Double::from_i128(i as i128).value.to_bits() as u64
}

/// Relies on rustc_apfloat's decimal rendering of a `Double`, a function of
/// the bit pattern alone.
#[verifier::external_body]
pub(crate) fn float_text(b: u64) -> (r: String)
    ensures
        r@ == float_text_of(b),
{
    format!("{}", Double::from_bits(b as u128))
}

/// Relies on rustc_apfloat's `Double::to_i128_r` with its exactness flag:
/// whether the double is exactly a 64-bit signed integer, and which one,
/// a function of the bit pattern alone.
#[verifier::external_body]
pub(crate) fn float_exact_int(b: u64) -> (r: Option<i64>)
    ensures
        r == exact_int_of(b),
{
    let mut exact = false;
    let v = Double::from_bits(b as u128).to_i128_r(
        64,
        rustc_apfloat::Round::TowardZero,
        &mut exact,
    );
    if exact {
        Some(v.value as i64)
    } else {
        None
    }
}

/// The power semantics used for floating-point exponents: exponentiation by
/// squaring over IEEE-754 multiplications.  This is the library's defined,
/// deterministic meaning of raising a double to a natural-number power.
pub open spec fn fpow_bits(b: u64, n: nat) -> u64
    decreases n,
{
    if n == 0 {
        ONE_BITS
    } else {
        let h = fpow_bits(b, n / 2);
        let hh = fmul_bits(h, h);
        if n % 2 == 1 {
            fmul_bits(hh, b)
        } else {
            hh
        }
    }
}

/// Raises the double `b` to the power `n` by squaring.
pub fn float_pow(b: u64, n: u64) -> (r: u64)
    ensures
        r == fpow_bits(b, n as nat),
    decreases n,
{
    if n == 0 {
        ONE_BITS
    } else {
        let h = float_pow(b, n / 2);
        let hh = float_mul(h, h);
        if n % 2 == 1 {
            float_mul(hh, b)
        } else {
            hh
        }
    }
}

} // verus!
