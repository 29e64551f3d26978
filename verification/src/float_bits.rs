//! The floating-point boundary.
//!
//! Every amplitude, magnitude and frequency in this crate is carried as the
//! bit pattern of an IEEE 754 single-precision value (`u32`).  The handful of
//! arithmetic operations the pipeline needs are performed by the host's
//! floating-point unit behind the trusted functions below, and each operation
//! is given a name (an uninterpreted spec function) over bit patterns.
//!
//! IEEE 754 fixes the rounded result of addition, subtraction,
//! multiplication, division, floor and comparison as a function of the
//! operand bit patterns, with one exception: the payload of a NaN result may
//! vary between platforms.  The trusted functions therefore only pin the
//! result when it is not a NaN, and the verified wrappers around them replace
//! every NaN by the canonical quiet NaN, so that each exported operation is
//! a total function of its operands.
//!
//! Inside the trusted bodies a bit pattern becomes a value by a `bytemuck`
//! cast typed through `num_complex`'s single-precision constructor, and a
//! value becomes a bit pattern again with `to_bits`.

use vstd::prelude::*;

verus! {

/// The canonical quiet NaN: the bit pattern every NaN result is collapsed to.
pub const QNAN_BITS: u32 = 0x7fc0_0000;

/// The bit pattern of 1.0.
pub const ONE_BITS: u32 = 0x3f80_0000;

/// The bit pattern of 0.5.
pub const HALF_BITS: u32 = 0x3f00_0000;

/// The bit pattern of 2.0.
pub const TWO_BITS: u32 = 0x4000_0000;

/// The bit pattern of 0.0.
pub const ZERO_BITS: u32 = 0x0000_0000;

/// The bit pattern of the single-precision circle constant (two pi).
pub const TAU_BITS: u32 = 0x40c9_0fdb;

/// The bit pattern of single-precision pi.
pub const PI_BITS: u32 = 0x4049_0fdb;

/// Whether a bit pattern encodes a NaN: the exponent field is all ones and
/// the mantissa field is not zero.
pub open spec fn is_nan_bits(a: u32) -> bool {
    (a >> 23) & 0xff == 0xff && a & 0x7f_ffff != 0
}

/// Runtime check for [`is_nan_bits`].
pub fn nan_bits(a: u32) -> (r: bool)
    ensures
        r == is_nan_bits(a),
{
    (a >> 23) & 0xff == 0xff && a & 0x7f_ffff != 0
}

/// Whether a bit pattern has a clear sign bit: it encodes a non-negative
/// value, or a NaN whose sign bit is clear (the canonical quiet NaN is one).
pub open spec fn sign_bit_clear(a: u32) -> bool {
    a < 0x8000_0000
}

/// The bit pattern of the rounded single-precision sum, when it is not a NaN.
pub uninterp spec fn add_val(a: u32, b: u32) -> u32;

/// Whether the single-precision sum of two bit patterns is a NaN.
pub uninterp spec fn add_is_nan(a: u32, b: u32) -> bool;

/// The bit pattern of the rounded difference, when it is not a NaN.
pub uninterp spec fn sub_val(a: u32, b: u32) -> u32;

/// Whether the single-precision difference is a NaN.
pub uninterp spec fn sub_is_nan(a: u32, b: u32) -> bool;

/// The bit pattern of the rounded product, when it is not a NaN.
pub uninterp spec fn mul_val(a: u32, b: u32) -> u32;

/// Whether the single-precision product is a NaN.
pub uninterp spec fn mul_is_nan(a: u32, b: u32) -> bool;

/// The bit pattern of the rounded quotient, when it is not a NaN.
pub uninterp spec fn div_val(a: u32, b: u32) -> u32;

/// Whether the single-precision quotient is a NaN.
pub uninterp spec fn div_is_nan(a: u32, b: u32) -> bool;

/// The bit pattern of the floor (rounding toward negative infinity), for a
/// bit pattern that is not a NaN.
pub uninterp spec fn floor_val(a: u32) -> u32;

/// The bit pattern of the ceiling (rounding toward positive infinity), for
/// a bit pattern that is not a NaN.
pub uninterp spec fn ceil_val(a: u32) -> u32;

/// The bit pattern of the nearest integer, with half-way cases rounded away
/// from zero, for a bit pattern that is not a NaN.
pub uninterp spec fn round_val(a: u32) -> u32;

/// The IEEE 754 `<` comparison of two bit patterns (false whenever either
/// operand is a NaN).
pub uninterp spec fn lt_val(a: u32, b: u32) -> bool;

/// The bit pattern of the single-precision value nearest to an unsigned
/// integer (round to nearest, ties to even).
pub uninterp spec fn float_of_usize(x: usize) -> u32;

/// The saturating cast of a single-precision bit pattern to `usize`: the
/// value truncated toward zero, clamped to `0..=usize::MAX`, with NaN
/// mapped to zero.
pub uninterp spec fn usize_of_float(a: u32) -> usize;

/// The single-precision sum with every NaN collapsed to [`QNAN_BITS`].
pub open spec fn c_add(a: u32, b: u32) -> u32 {
    if add_is_nan(a, b) {
        QNAN_BITS
    } else {
        add_val(a, b)
    }
}

/// The single-precision difference with every NaN collapsed to [`QNAN_BITS`].
pub open spec fn c_sub(a: u32, b: u32) -> u32 {
    if sub_is_nan(a, b) {
        QNAN_BITS
    } else {
        sub_val(a, b)
    }
}

/// The single-precision product with every NaN collapsed to [`QNAN_BITS`].
pub open spec fn c_mul(a: u32, b: u32) -> u32 {
    if mul_is_nan(a, b) {
        QNAN_BITS
    } else {
        mul_val(a, b)
    }
}

/// The single-precision quotient with every NaN collapsed to [`QNAN_BITS`].
pub open spec fn c_div(a: u32, b: u32) -> u32 {
    if div_is_nan(a, b) {
        QNAN_BITS
    } else {
        div_val(a, b)
    }
}

/// The single-precision floor with every NaN collapsed to [`QNAN_BITS`].
pub open spec fn c_floor(a: u32) -> u32 {
    if is_nan_bits(a) {
        QNAN_BITS
    } else {
        floor_val(a)
    }
}

/// The single-precision ceiling with every NaN collapsed to [`QNAN_BITS`].
pub open spec fn c_ceil(a: u32) -> u32 {
    if is_nan_bits(a) {
        QNAN_BITS
    } else {
        ceil_val(a)
    }
}

/// The nearest integer (half away from zero) with every NaN collapsed to
/// [`QNAN_BITS`].
pub open spec fn c_round(a: u32) -> u32 {
    if is_nan_bits(a) {
        QNAN_BITS
    } else {
        round_val(a)
    }
}

/// Relies on core's IEEE 754 single-precision addition: whether the sum is a
/// NaN, and its bit pattern when it is not, are functions of the operand bit
/// patterns alone.
#[verifier::external_body]
fn add_raw(a: u32, b: u32) -> (r: u32)
    ensures
        is_nan_bits(r) == add_is_nan(a, b),
        !add_is_nan(a, b) ==> r == add_val(a, b),
{
    let v = num_complex::Complex32::new(bytemuck::cast(a), bytemuck::cast(b));
    (v.re + v.im).to_bits()
}

/// Relies on core's IEEE 754 single-precision subtraction; see [`add_raw`].
#[verifier::external_body]
fn sub_raw(a: u32, b: u32) -> (r: u32)
    ensures
        is_nan_bits(r) == sub_is_nan(a, b),
        !sub_is_nan(a, b) ==> r == sub_val(a, b),
{
    let v = num_complex::Complex32::new(bytemuck::cast(a), bytemuck::cast(b));
    (v.re - v.im).to_bits()
}

/// Relies on core's IEEE 754 single-precision multiplication; see
/// [`add_raw`].  IEEE 754 also fixes the sign of a product that is not a
/// NaN: it is the exclusive or of the operand signs.
#[verifier::external_body]
fn mul_raw(a: u32, b: u32) -> (r: u32)
    ensures
        is_nan_bits(r) == mul_is_nan(a, b),
        !mul_is_nan(a, b) ==> r == mul_val(a, b),
        !mul_is_nan(a, b) ==> (sign_bit_clear(r) <==> (sign_bit_clear(a) <==> sign_bit_clear(
            b,
        ))),
{
    let v = num_complex::Complex32::new(bytemuck::cast(a), bytemuck::cast(b));
    (v.re * v.im).to_bits()
}

/// Relies on core's IEEE 754 single-precision division (division by zero
/// yields an infinity, never a trap); see [`add_raw`].  IEEE 754 also fixes
/// the sign of a quotient that is not a NaN: it is the exclusive or of the
/// operand signs.
#[verifier::external_body]
fn div_raw(a: u32, b: u32) -> (r: u32)
    ensures
        is_nan_bits(r) == div_is_nan(a, b),
        !div_is_nan(a, b) ==> r == div_val(a, b),
        !div_is_nan(a, b) ==> (sign_bit_clear(r) <==> (sign_bit_clear(a) <==> sign_bit_clear(
            b,
        ))),
{
    let v = num_complex::Complex32::new(bytemuck::cast(a), bytemuck::cast(b));
    (v.re / v.im).to_bits()
}

/// Relies on `f32::floor`, which IEEE 754 specifies exactly (round toward
/// negative infinity); a NaN argument yields a NaN result.
#[verifier::external_body]
fn floor_raw(a: u32) -> (r: u32)
    ensures
        is_nan_bits(a) ==> is_nan_bits(r),
        !is_nan_bits(a) ==> r == floor_val(a),
{
    let v = num_complex::Complex32::new(bytemuck::cast(a), bytemuck::cast(a));
    v.re.floor().to_bits()
}

/// Relies on `f32::ceil`, which IEEE 754 specifies exactly (round toward
/// positive infinity); a NaN argument yields a NaN result.
#[verifier::external_body]
fn ceil_raw(a: u32) -> (r: u32)
    ensures
        is_nan_bits(a) ==> is_nan_bits(r),
        !is_nan_bits(a) ==> r == ceil_val(a),
{
    let v = num_complex::Complex32::new(bytemuck::cast(a), bytemuck::cast(a));
    v.re.ceil().to_bits()
}

/// Relies on `f32::round`, which Rust documents exactly (nearest integer,
/// half-way cases away from zero); a NaN argument yields a NaN result.
#[verifier::external_body]
fn round_raw(a: u32) -> (r: u32)
    ensures
        is_nan_bits(a) ==> is_nan_bits(r),
        !is_nan_bits(a) ==> r == round_val(a),
{
    let v = num_complex::Complex32::new(bytemuck::cast(a), bytemuck::cast(a));
    v.re.round().to_bits()
}

/// Relies on the IEEE 754 `<` comparison of `f32` (core's `PartialOrd`),
/// which is a total function of the operand bit patterns and is false
/// whenever either operand is a NaN.
#[verifier::external_body]
pub fn lt_bits(a: u32, b: u32) -> (r: bool)
    ensures
        r == lt_val(a, b),
{
    let v = num_complex::Complex32::new(bytemuck::cast(a), bytemuck::cast(b));
    v.re < v.im
}

/// Relies on `num_traits::ToPrimitive::to_f32` for `usize`, which converts
/// with round to nearest (`self as f32`) and never returns `None`; the
/// converted value is a non-negative finite number, never a NaN.
#[verifier::external_body]
pub fn usize_to_bits(x: usize) -> (r: u32)
    ensures
        r == float_of_usize(x),
        !is_nan_bits(r),
        sign_bit_clear(r),
{
    match num_traits::ToPrimitive::to_f32(&x) {
        Some(v) => v.to_bits(),
        None => 0,
    }
}

/// Relies on Rust's float-to-integer cast, which truncates toward zero,
/// saturates at the bounds of `usize`, maps NaN to zero, and never panics.
#[verifier::external_body]
pub fn bits_to_usize(a: u32) -> (r: usize)
    ensures
        r == usize_of_float(a),
{
    let v = num_complex::Complex32::new(bytemuck::cast(a), bytemuck::cast(a));
    v.re as usize
}

/// Relies on `f32::cos`.  Its rounding is platform-dependent, so nothing is
/// assumed about the returned bit pattern.
#[verifier::external_body]
pub fn cos_bits(a: u32) -> u32 {
    let v = num_complex::Complex32::new(bytemuck::cast(a), bytemuck::cast(a));
    v.re.cos().to_bits()
}

/// Relies on `f32::hypot` (the Euclidean norm used by `num_complex`).  Its
/// rounding is platform-dependent, so nothing is assumed about its value
/// beyond what its documentation states of every outcome: a hypotenuse
/// length is non-negative whenever it is not a NaN.
#[verifier::external_body]
pub fn hypot_raw(a: u32, b: u32) -> (r: u32)
    ensures
        !is_nan_bits(r) ==> sign_bit_clear(r),
{
    let v = num_complex::Complex32::new(bytemuck::cast(a), bytemuck::cast(b));
    v.re.hypot(v.im).to_bits()
}

/// The Euclidean norm of a complex value's bit patterns, NaN canonicalized:
/// the result always has a clear sign bit.
pub fn hypot_bits(a: u32, b: u32) -> (r: u32)
    ensures
        sign_bit_clear(r),
{
    let r = hypot_raw(a, b);
    if nan_bits(r) {
        QNAN_BITS
    } else {
        r
    }
}

/// The rounded single-precision sum of two bit patterns, with every NaN
/// reported as the canonical quiet NaN.
pub fn add_bits(a: u32, b: u32) -> (r: u32)
    ensures
        r == c_add(a, b),
{
    let r = add_raw(a, b);
    if nan_bits(r) {
        QNAN_BITS
    } else {
        r
    }
}

/// The rounded single-precision difference, NaN canonicalized.
pub fn sub_bits(a: u32, b: u32) -> (r: u32)
    ensures
        r == c_sub(a, b),
{
    let r = sub_raw(a, b);
    if nan_bits(r) {
        QNAN_BITS
    } else {
        r
    }
}

/// The rounded single-precision product, NaN canonicalized.  A product of
/// two sign-clear bit patterns is sign-clear.
pub fn mul_bits(a: u32, b: u32) -> (r: u32)
    ensures
        r == c_mul(a, b),
        sign_bit_clear(a) && sign_bit_clear(b) ==> sign_bit_clear(r),
{
    let r = mul_raw(a, b);
    if nan_bits(r) {
        QNAN_BITS
    } else {
        r
    }
}

/// The rounded single-precision quotient, NaN canonicalized.  A quotient of
/// two sign-clear bit patterns is sign-clear.
pub fn div_bits(a: u32, b: u32) -> (r: u32)
    ensures
        r == c_div(a, b),
        sign_bit_clear(a) && sign_bit_clear(b) ==> sign_bit_clear(r),
{
    let r = div_raw(a, b);
    if nan_bits(r) {
        QNAN_BITS
    } else {
        r
    }
}

/// The single-precision floor, NaN canonicalized.
pub fn floor_bits(a: u32) -> (r: u32)
    ensures
        r == c_floor(a),
{
    if nan_bits(a) {
        QNAN_BITS
    } else {
        floor_raw(a)
    }
}

/// The single-precision ceiling, NaN canonicalized.
pub fn ceil_bits(a: u32) -> (r: u32)
    ensures
        r == c_ceil(a),
{
    if nan_bits(a) {
        QNAN_BITS
    } else {
        ceil_raw(a)
    }
}

/// The nearest integer (half away from zero), NaN canonicalized.
pub fn round_bits(a: u32) -> (r: u32)
    ensures
        r == c_round(a),
{
    if nan_bits(a) {
        QNAN_BITS
    } else {
        round_raw(a)
    }
}

/// The clamp of `a` into the closed interval from `lo` to `hi`, following
/// the comparison chain of `f32::clamp`: a NaN argument is passed through
/// unchanged.
pub open spec fn c_clamp(a: u32, lo: u32, hi: u32) -> u32 {
    if lt_val(a, lo) {
        lo
    } else if lt_val(hi, a) {
        hi
    } else {
        a
    }
}

/// Runtime counterpart of [`c_clamp`].
pub fn clamp_bits(a: u32, lo: u32, hi: u32) -> (r: u32)
    ensures
        r == c_clamp(a, lo, hi),
{
    if lt_bits(a, lo) {
        lo
    } else if lt_bits(hi, a) {
        hi
    } else {
        a
    }
}

} // verus!
