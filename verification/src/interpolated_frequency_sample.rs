//! An immutable frequency-domain snapshot and its query layer.
//!
//! A spectrum is an ordered sequence of per-channel magnitudes, one per
//! frequency bin, tagged with the sample rate that was active when it was
//! computed.  Queries never require the caller to reason about bin indices:
//! a point query interpolates between the bins bracketing a frequency, and a
//! range query averages evenly spaced point queries across a frequency
//! range.  Frequencies outside the valid range are clamped, never rejected:
//! no query panics, whatever the arguments.
//!
//! Every query result is pinned by its contract as a function of the
//! spectrum and the query arguments alone, over the named floating-point
//! operations of [`crate::float_bits`].

use vstd::prelude::*;
use crate::float_bits::{
    add_bits, bits_to_usize, c_add, c_ceil, c_clamp, c_div, c_floor, c_mul, c_sub, ceil_bits,
    clamp_bits, cos_bits, div_bits, floor_bits, float_of_usize, mul_bits, sub_bits,
    usize_of_float, usize_to_bits, ONE_BITS, PI_BITS, TWO_BITS, ZERO_BITS,
};
use crate::sample::StereoMagnitude;

verus! {

/// The fractional bin index nearest a frequency: the product of the
/// frequency and the spectrum period, clamped into the valid index range.
pub open spec fn spec_index_of(len: nat, period: u32, frequency: u32) -> u32 {
    c_clamp(c_mul(frequency, period), ZERO_BITS, float_of_usize((len - 1) as usize))
}

/// The smooth point interpolation kernel: a cubic over the four bins that
/// neighbour the fractional index, with the neighbourhood clamped at the
/// array bounds.
pub open spec fn spec_cubic_interpolate(data: Seq<StereoMagnitude>, index: u32) -> StereoMagnitude
    recommends
        data.len() >= 1,
{
    let last = (data.len() - 1) as int;
    let mu = c_sub(index, c_floor(index));
    let raw = usize_of_float(c_floor(index)) as int;
    let x1 = if raw <= last {
        raw
    } else {
        last
    };
    let x0 = if x1 == 0 {
        0
    } else {
        x1 - 1
    };
    let x2 = if x1 + 1 <= last {
        x1 + 1
    } else {
        last
    };
    let x3 = if x1 + 2 <= last {
        x1 + 2
    } else {
        last
    };
    let y0 = data[x0];
    let y1 = data[x1];
    let y2 = data[x2];
    let y3 = data[x3];
    let a0 = y3.spec_minus(y2).spec_minus(y0).spec_plus(y1);
    let a1 = y0.spec_minus(y1).spec_minus(a0);
    let a2 = y2.spec_minus(y0);
    let a3 = y1;
    a0.spec_scale(c_mul(mu, c_mul(mu, mu))).spec_plus(a1.spec_scale(c_mul(mu, mu))).spec_plus(
        a2.spec_scale(mu).spec_plus(a3),
    )
}

/// Interpolates a magnitude at a fractional bin index: a cubic over the four
/// neighbouring bins, exactly as [`spec_cubic_interpolate`] states.
pub fn cubic_interpolate(data: &Vec<StereoMagnitude>, index: u32) -> (r: StereoMagnitude)
    requires
        data@.len() >= 1,
    ensures
        r == spec_cubic_interpolate(data@, index),
{
    let last = data.len() - 1;
    let fl = floor_bits(index);
    let mu = sub_bits(index, fl);
    let raw = bits_to_usize(fl);
    let x1 = if raw <= last {
        raw
    } else {
        last
    };
    let x0 = if x1 == 0 {
        0
    } else {
        x1 - 1
    };
    let x2 = if x1 >= last {
        last
    } else {
        x1 + 1
    };
    let x3 = if x2 >= last {
        last
    } else {
        x2 + 1
    };
    let y0 = data[x0];
    let y1 = data[x1];
    let y2 = data[x2];
    let y3 = data[x3];
    let a0 = y3.minus(y2).minus(y0).plus(y1);
    let a1 = y0.minus(y1).minus(a0);
    let a2 = y2.minus(y0);
    let a3 = y1;
    let mu2 = mul_bits(mu, mu);
    let mu3 = mul_bits(mu, mu2);
    a0.scale(mu3).plus(a1.scale(mu2)).plus(a2.scale(mu).plus(a3))
}

/// The two bins a smooth point interpolation blends, for a fractional bin
/// index: the cell floor and the next bin, both clamped at the array bounds.
pub open spec fn spec_blend_cell(len: nat, index: u32) -> (int, int) {
    let last = len - 1;
    let low_raw = usize_of_float(c_floor(index)) as int;
    let low = if low_raw <= last {
        low_raw
    } else {
        last
    };
    let high_raw = usize_of_float(c_ceil(index)) as int;
    let high_lifted = if high_raw >= low + 1 {
        high_raw
    } else {
        low + 1
    };
    let high = if high_lifted <= last {
        high_lifted
    } else {
        last
    };
    (low, high)
}

/// A blend of the two bins bracketing a fractional index with one weight:
/// `low * (1 - w) + high * w`.
pub open spec fn spec_cosine_blend(data: Seq<StereoMagnitude>, index: u32, w: u32)
    -> StereoMagnitude
    recommends
        data.len() >= 1,
{
    let cell = spec_blend_cell(data.len(), index);
    data[cell.0].spec_scale(c_sub(ONE_BITS, w)).spec_plus(data[cell.1].spec_scale(w))
}

/// The smooth cosine point interpolation kernel: blends the two bins
/// bracketing the fractional index with the half-cosine easing weight
/// `(1 - cos(offset * pi)) / 2`.  The cosine passes through the platform's
/// floating point, so the contract pins the blend and the weight's form
/// over some cosine outcome, but not the cosine's bit pattern.
pub fn cosine_interpolate(data: &Vec<StereoMagnitude>, index: u32) -> (r: StereoMagnitude)
    requires
        data@.len() >= 1,
    ensures
        exists|c: u32|
            r == spec_cosine_blend(data@, index, c_div(c_sub(ONE_BITS, c), TWO_BITS)),
{
    let last = data.len() - 1;
    let low_raw = bits_to_usize(floor_bits(index));
    let low = if low_raw <= last {
        low_raw
    } else {
        last
    };
    let high_raw = bits_to_usize(ceil_bits(index));
    let high_lifted = if high_raw >= low + 1 {
        high_raw
    } else {
        low + 1
    };
    let high = if high_lifted <= last {
        high_lifted
    } else {
        last
    };
    let offset = sub_bits(index, usize_to_bits(low));
    let c = cos_bits(mul_bits(offset, PI_BITS));
    let w = div_bits(sub_bits(ONE_BITS, c), TWO_BITS);
    let r = data[low].scale(sub_bits(ONE_BITS, w)).plus(data[high].scale(w));
    proof {
        assert(r == spec_cosine_blend(data@, index, c_div(c_sub(ONE_BITS, c), TWO_BITS)));
    }
    r
}

/// An immutable spectrum: one interpolatable magnitude per frequency bin,
/// tagged with the sample rate active when it was computed.
pub struct InterpolatedFrequencySample {
    /// Per-bin two-channel magnitudes (`re` left, `im` right), ordered by
    /// bin index; bin `k` holds the energy near frequency `k / period`.
    pub magnitudes: Vec<StereoMagnitude>,
    /// The sample rate (Hz) the source samples were captured at.
    pub sample_rate: u32,
}

impl InterpolatedFrequencySample {
    /// A spectrum is well formed when it has at least one bin.
    pub open spec fn wf(self) -> bool {
        self.magnitudes@.len() >= 1
    }

    /// The period: twice the bin count over the sample rate, the factor that
    /// converts a frequency to a fractional bin index.
    pub open spec fn spec_period(self) -> u32 {
        c_div(
            c_mul(TWO_BITS, float_of_usize(self.magnitudes@.len() as usize)),
            float_of_usize(self.sample_rate as usize),
        )
    }

    /// The interpolated magnitude at one frequency.
    pub open spec fn spec_magnitude_at(self, frequency: u32) -> StereoMagnitude {
        spec_cubic_interpolate(
            self.magnitudes@,
            spec_index_of(self.magnitudes@.len(), self.spec_period(), frequency),
        )
    }

    /// How many evenly spaced points a range query averages: the width of
    /// the range in bins, rounded down, and at least one.
    pub open spec fn spec_num_points(self, lo: u32, hi: u32) -> usize {
        let len = self.magnitudes@.len();
        let period = self.spec_period();
        let raw = usize_of_float(
            c_floor(
                c_sub(spec_index_of(len, period, hi), spec_index_of(len, period, lo)),
            ),
        );
        if raw == 0 {
            1
        } else {
            raw
        }
    }

    /// The frequency step between consecutive sample points of a range
    /// query: the range width over the point count.
    pub open spec fn spec_step(self, lo: u32, hi: u32) -> u32 {
        c_div(c_sub(hi, lo), float_of_usize(self.spec_num_points(lo, hi)))
    }

    /// The `x`-th sample point of a range query, spaced evenly in frequency.
    pub open spec fn spec_point(self, lo: u32, hi: u32, x: int) -> u32 {
        c_add(lo, c_mul(float_of_usize(x as usize), self.spec_step(lo, hi)))
    }

    /// The sum of the interpolated magnitudes at the first `n` sample points
    /// of a range query, accumulated left to right from zero.
    pub open spec fn spec_point_sum(self, lo: u32, hi: u32, n: nat) -> StereoMagnitude
        decreases n,
    {
        if n == 0 {
            StereoMagnitude::spec_zero()
        } else {
            self.spec_point_sum(lo, hi, (n - 1) as nat).spec_plus(
                self.spec_magnitude_at(self.spec_point(lo, hi, n - 1)),
            )
        }
    }

    /// The mean interpolated magnitude across a frequency range.
    pub open spec fn spec_magnitude_in(self, lo: u32, hi: u32) -> StereoMagnitude {
        let n = self.spec_num_points(lo, hi);
        self.spec_point_sum(lo, hi, n as nat).spec_div(float_of_usize(n))
    }

    /// Wraps per-bin magnitudes and their sample rate as a spectrum.
    pub fn new(magnitudes: Vec<StereoMagnitude>, sample_rate: u32) -> (r:
        InterpolatedFrequencySample)
        requires
            magnitudes@.len() >= 1,
        ensures
            r.wf(),
            r.magnitudes == magnitudes,
            r.sample_rate == sample_rate,
    {
        InterpolatedFrequencySample { magnitudes, sample_rate }
    }

    /// The number of frequency bins.
    pub fn num_bins(&self) -> (r: usize)
        ensures
            r == self.magnitudes@.len(),
    {
        self.magnitudes.len()
    }

    /// The period that converts a frequency to a fractional bin index.
    pub fn period(&self) -> (r: u32)
        ensures
            r == self.spec_period(),
    {
        let len_bits = usize_to_bits(self.magnitudes.len());
        let rate_bits = usize_to_bits(self.sample_rate as usize);
        div_bits(mul_bits(TWO_BITS, len_bits), rate_bits)
    }

    /// The valid query range: zero to the Nyquist frequency (half the
    /// sample rate), as bit patterns.
    pub fn frequencies(&self) -> (r: (u32, u32))
        ensures
            r.0 == ZERO_BITS,
            r.1 == c_div(float_of_usize(self.sample_rate as usize), TWO_BITS),
    {
        let rate_bits = usize_to_bits(self.sample_rate as usize);
        (ZERO_BITS, div_bits(rate_bits, TWO_BITS))
    }

    /// The fractional bin index bracketing a frequency, clamped into the
    /// valid index range so that out-of-range queries are tolerated.
    fn index_of(&self, frequency: u32) -> (r: u32)
        requires
            self.wf(),
        ensures
            r == spec_index_of(self.magnitudes@.len(), self.spec_period(), frequency),
    {
        let period = self.period();
        let hi = usize_to_bits(self.magnitudes.len() - 1);
        clamp_bits(mul_bits(frequency, period), ZERO_BITS, hi)
    }

    /// The interpolated magnitude at one frequency, computed by the cubic
    /// kernel over the bins bracketing it.  Out-of-range frequencies are
    /// clamped to the spectrum bounds.
    pub fn magnitude_at(&self, frequency: u32) -> (r: StereoMagnitude)
        requires
            self.wf(),
        ensures
            r == self.spec_magnitude_at(frequency),
    {
        let index = self.index_of(frequency);
        cubic_interpolate(&self.magnitudes, index)
    }

    /// The mean magnitude across a frequency range: point queries evenly
    /// spaced in frequency (one per bin the range spans, and at least one),
    /// averaged.
    pub fn magnitude_in(&self, lo: u32, hi: u32) -> (r: StereoMagnitude)
        requires
            self.wf(),
        ensures
            r == self.spec_magnitude_in(lo, hi),
    {
        let start = self.index_of(lo);
        let end = self.index_of(hi);
        let raw = bits_to_usize(floor_bits(sub_bits(end, start)));
        let num: usize = if raw == 0 {
            1
        } else {
            raw
        };
        assert(num == self.spec_num_points(lo, hi));
        let step = div_bits(sub_bits(hi, lo), usize_to_bits(num));
        let mut sum = StereoMagnitude::zero();
        let mut x: usize = 0;
        #[verifier::loop_isolation(false)]
        while x < num
            invariant
                x <= num,
                sum == self.spec_point_sum(lo, hi, x as nat),
            decreases num - x,
        {
            let p = add_bits(lo, mul_bits(usize_to_bits(x), step));
            let m = self.magnitude_at(p);
            sum = sum.plus(m);
            x = x + 1;
        }
        sum.div(usize_to_bits(num))
    }
}

/// Law: queries are idempotent.  The contracts of `magnitude_at` and
/// `magnitude_in` pin each result as a function of the immutable spectrum
/// and the query arguments alone, so two results of the same query on the
/// same spectrum are bit-identical.
pub proof fn lemma_query_idempotent(
    s: InterpolatedFrequencySample,
    lo: u32,
    hi: u32,
    first_at: StereoMagnitude,
    second_at: StereoMagnitude,
    first_in: StereoMagnitude,
    second_in: StereoMagnitude,
)
    requires
        first_at == s.spec_magnitude_at(lo),
        second_at == s.spec_magnitude_at(lo),
        first_in == s.spec_magnitude_in(lo, hi),
        second_in == s.spec_magnitude_in(lo, hi),
    ensures
        first_at == second_at,
        first_in == second_in,
{
}

} // verus!
