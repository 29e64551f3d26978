//! The value types of the pipeline.
//!
//! A [`StereoSample`] is one instant of time-domain stereo audio; a
//! [`StereoMagnitude`] is a two-channel complex-like value.  Inside the
//! transform a `StereoMagnitude` is a true complex number (`re + i*im`);
//! in a computed spectrum the same type carries per-channel magnitudes
//! (`re` is the left channel, `im` the right), so that sums, scaling and
//! norms are shared between the two uses.
//!
//! Both components are IEEE 754 single-precision bit patterns; the
//! arithmetic below is exact over the named operations of
//! [`crate::float_bits`].

use vstd::prelude::*;
use crate::float_bits::{
    add_bits, c_add, c_div, c_mul, c_sub, div_bits, hypot_bits, mul_bits, sign_bit_clear,
    sub_bits, ZERO_BITS,
};

verus! {

/// One instant of stereo audio: the bit patterns of the left and right
/// channel amplitudes.
#[derive(Clone, Copy, Debug, PartialEq, Eq, Structural)]
pub struct StereoSample {
    pub left: u32,
    pub right: u32,
}

impl StereoSample {
    /// The silent sample: both channels hold positive zero.
    pub fn silence() -> (r: StereoSample)
        ensures
            r == (StereoSample { left: ZERO_BITS, right: ZERO_BITS }),
    {
        StereoSample { left: ZERO_BITS, right: ZERO_BITS }
    }
}

/// A two-channel complex-like value: either a complex number produced by the
/// transform or a pair of per-channel magnitudes.
#[derive(Clone, Copy, Debug, PartialEq, Eq, Structural)]
pub struct StereoMagnitude {
    pub re: u32,
    pub im: u32,
}

impl StereoMagnitude {
    /// Componentwise sum.
    pub open spec fn spec_plus(self, o: StereoMagnitude) -> StereoMagnitude {
        StereoMagnitude { re: c_add(self.re, o.re), im: c_add(self.im, o.im) }
    }

    /// Componentwise difference.
    pub open spec fn spec_minus(self, o: StereoMagnitude) -> StereoMagnitude {
        StereoMagnitude { re: c_sub(self.re, o.re), im: c_sub(self.im, o.im) }
    }

    /// The complex conjugate: negation of a single-precision value is
    /// exactly a flip of its sign bit.
    pub open spec fn spec_conj(self) -> StereoMagnitude {
        StereoMagnitude { re: self.re, im: self.im ^ 0x8000_0000 }
    }

    /// Both components scaled by one factor.
    pub open spec fn spec_scale(self, s: u32) -> StereoMagnitude {
        StereoMagnitude { re: c_mul(self.re, s), im: c_mul(self.im, s) }
    }

    /// Both components divided by one divisor.
    pub open spec fn spec_div(self, s: u32) -> StereoMagnitude {
        StereoMagnitude { re: c_div(self.re, s), im: c_div(self.im, s) }
    }

    /// The zero value.
    pub open spec fn spec_zero() -> StereoMagnitude {
        StereoMagnitude { re: ZERO_BITS, im: ZERO_BITS }
    }

    /// The zero value (both components positive zero).
    pub fn zero() -> (r: StereoMagnitude)
        ensures
            r == StereoMagnitude::spec_zero(),
    {
        StereoMagnitude { re: ZERO_BITS, im: ZERO_BITS }
    }

    /// Componentwise sum.
    pub fn plus(self, o: StereoMagnitude) -> (r: StereoMagnitude)
        ensures
            r == self.spec_plus(o),
    {
        StereoMagnitude { re: add_bits(self.re, o.re), im: add_bits(self.im, o.im) }
    }

    /// Componentwise difference.
    pub fn minus(self, o: StereoMagnitude) -> (r: StereoMagnitude)
        ensures
            r == self.spec_minus(o),
    {
        StereoMagnitude { re: sub_bits(self.re, o.re), im: sub_bits(self.im, o.im) }
    }

    /// The complex conjugate, computed as an exact sign-bit flip.
    pub fn conj(self) -> (r: StereoMagnitude)
        ensures
            r == self.spec_conj(),
    {
        StereoMagnitude { re: self.re, im: self.im ^ 0x8000_0000 }
    }

    /// Both components scaled by one factor.  Scaling a sign-clear value by
    /// a sign-clear factor keeps both components sign-clear.
    pub fn scale(self, s: u32) -> (r: StereoMagnitude)
        ensures
            r == self.spec_scale(s),
            sign_bit_clear(self.re) && sign_bit_clear(self.im) && sign_bit_clear(s) ==> (
            sign_bit_clear(r.re) && sign_bit_clear(r.im)),
    {
        StereoMagnitude { re: mul_bits(self.re, s), im: mul_bits(self.im, s) }
    }

    /// Both components divided by one divisor.  Dividing a sign-clear value
    /// by a sign-clear divisor keeps both components sign-clear.
    pub fn div(self, s: u32) -> (r: StereoMagnitude)
        ensures
            r == self.spec_div(s),
            sign_bit_clear(self.re) && sign_bit_clear(self.im) && sign_bit_clear(s) ==> (
            sign_bit_clear(r.re) && sign_bit_clear(r.im)),
    {
        StereoMagnitude { re: div_bits(self.re, s), im: div_bits(self.im, s) }
    }

    /// The Euclidean norm of the value taken as a complex number.  It is
    /// computed by the platform's `hypot`, so the returned bit pattern is
    /// not pinned, but a norm is never negative: the sign bit is clear.
    pub fn norm(self) -> (r: u32)
        ensures
            sign_bit_clear(r),
    {
        hypot_bits(self.re, self.im)
    }
}

/// Regroups an interleaved buffer of channel amplitudes (left, right,
/// left, right, ...) into stereo samples.  The buffer must hold whole
/// frames: an odd amplitude count has no meaning at this boundary.
pub fn deinterleave_stereo(buffer: &Vec<u32>) -> (r: Vec<StereoSample>)
    requires
        buffer@.len() % 2 == 0,
    ensures
        r@.len() == buffer@.len() / 2,
        forall|i: int|
            0 <= i < r@.len() ==> r@[i] == (StereoSample {
                left: buffer@[2 * i],
                right: buffer@[2 * i + 1],
            }),
{
    let frames = buffer.len() / 2;
    let mut out: Vec<StereoSample> = Vec::new();
    let mut i: usize = 0;
    #[verifier::loop_isolation(false)]
    while i < frames
        invariant
            i <= frames,
            out@.len() == i,
            forall|j: int|
                0 <= j < i ==> out@[j] == (StereoSample {
                    left: buffer@[2 * j],
                    right: buffer@[2 * j + 1],
                }),
        decreases frames - i,
    {
        out.push(StereoSample { left: buffer[2 * i], right: buffer[2 * i + 1] });
        i = i + 1;
    }
    out
}

/// Upmixes a single-channel buffer to stereo by duplicating the channel.
pub fn mono_to_stereo(buffer: &Vec<u32>) -> (r: Vec<StereoSample>)
    ensures
        r@.len() == buffer@.len(),
        forall|i: int|
            0 <= i < r@.len() ==> r@[i] == (StereoSample {
                left: buffer@[i],
                right: buffer@[i],
            }),
{
    let mut out: Vec<StereoSample> = Vec::new();
    let mut i: usize = 0;
    #[verifier::loop_isolation(false)]
    while i < buffer.len()
        invariant
            i <= buffer@.len(),
            out@.len() == i,
            forall|j: int|
                0 <= j < i ==> out@[j] == (StereoSample { left: buffer@[j], right: buffer@[j] }),
        decreases buffer@.len() - i,
    {
        out.push(StereoSample { left: buffer[i], right: buffer[i] });
        i = i + 1;
    }
    out
}

} // verus!
