//! A spectrum representation optimized for range queries.
//!
//! Instead of the per-bin magnitudes themselves, this representation stores
//! their running (prefix) sums, so that the net magnitude across a frequency
//! range is a difference of two interpolated prefix sums rather than a mean
//! of many point queries.  The quantity it answers with is therefore a net
//! (integrated) magnitude, which grows with the range, not the range mean
//! that [`crate::frequency_sample::FrequencySample::magnitude_in`] denotes;
//! the mean form stands on
//! [`crate::interpolated_frequency_sample::InterpolatedFrequencySample`].
//! Every step of its arithmetic is exact over the named floating-point
//! operations, so each query result is pinned by its contract.

use vstd::prelude::*;
use crate::float_bits::{
    bits_to_usize, c_ceil, c_div, c_floor, c_mul, c_sub, ceil_bits, clamp_bits, div_bits,
    float_of_usize, floor_bits, mul_bits, sub_bits, usize_of_float, usize_to_bits, ONE_BITS,
    TWO_BITS, ZERO_BITS,
};
use crate::interpolated_frequency_sample::spec_index_of;
use crate::sample::StereoMagnitude;

verus! {

/// The running sum of the first `i + 1` magnitudes, accumulated left to
/// right from zero, exactly as the stored prefix sums are built.
pub open spec fn spec_prefix_sum(ms: Seq<StereoMagnitude>, i: int) -> StereoMagnitude
    recommends
        0 <= i < ms.len(),
    decreases i,
{
    if i <= 0 {
        StereoMagnitude::spec_zero().spec_plus(ms[0])
    } else {
        spec_prefix_sum(ms, i - 1).spec_plus(ms[i])
    }
}

/// The two prefix-sum indices bracketing a fractional bin index, clamped at
/// the array bounds: the cell floor, and the cell ceiling capped one past
/// the floor.
pub open spec fn spec_cell(len: nat, index: u32) -> (int, int) {
    let last = len - 1;
    let low_raw = usize_of_float(c_floor(index)) as int;
    let low = if low_raw <= last {
        low_raw
    } else {
        last
    };
    let high_raw = usize_of_float(c_ceil(index)) as int;
    let high_capped = if high_raw <= low + 1 {
        high_raw
    } else {
        low + 1
    };
    let high = if high_capped <= last {
        high_capped
    } else {
        last
    };
    (low, high)
}

/// An immutable spectrum stored as prefix sums of its per-bin magnitudes,
/// tagged with the sample rate active when it was computed.
pub struct FastFrequencySample {
    /// Entry `i` holds the sum of the magnitudes of bins `0..=i`.
    pub prefix_sum_of_magnitudes: Vec<StereoMagnitude>,
    /// The sample rate (Hz) the source samples were captured at.
    pub sample_rate: u32,
}

impl FastFrequencySample {
    /// A spectrum is well formed when it has at least one bin.
    pub open spec fn wf(self) -> bool {
        self.prefix_sum_of_magnitudes@.len() >= 1
    }

    /// The period: twice the bin count over the sample rate.
    pub open spec fn spec_period(self) -> u32 {
        c_div(
            c_mul(TWO_BITS, float_of_usize(self.prefix_sum_of_magnitudes@.len() as usize)),
            float_of_usize(self.sample_rate as usize),
        )
    }

    /// The net (integrated) magnitude below a frequency: everything up to
    /// the cell holding it, plus the linear portion of that cell, halved.
    pub open spec fn spec_net_magnitude_below(self, frequency: u32) -> StereoMagnitude {
        let psums = self.prefix_sum_of_magnitudes@;
        let period = self.spec_period();
        let index = spec_index_of(psums.len(), period, frequency);
        let cell = spec_cell(psums.len(), index);
        let f_start = c_div(float_of_usize(cell.0 as usize), period);
        let f_end = c_div(float_of_usize(cell.1 as usize), period);
        let offset = c_div(c_sub(frequency, f_start), c_sub(f_end, f_start));
        psums[cell.0].spec_scale(c_sub(ONE_BITS, offset)).spec_plus(
            psums[cell.1].spec_scale(offset),
        ).spec_div(TWO_BITS)
    }

    /// Wraps per-bin magnitudes as running sums, accumulating left to right
    /// from zero.
    pub fn new(magnitudes: &Vec<StereoMagnitude>, sample_rate: u32) -> (r: FastFrequencySample)
        requires
            magnitudes@.len() >= 1,
        ensures
            r.wf(),
            r.sample_rate == sample_rate,
            r.prefix_sum_of_magnitudes@.len() == magnitudes@.len(),
            forall|i: int|
                0 <= i < magnitudes@.len() ==> r.prefix_sum_of_magnitudes@[i]
                    == spec_prefix_sum(magnitudes@, i),
    {
        let mut psums: Vec<StereoMagnitude> = Vec::new();
        let mut acc = StereoMagnitude::zero();
        let mut i: usize = 0;
        #[verifier::loop_isolation(false)]
        while i < magnitudes.len()
            invariant
                i <= magnitudes@.len(),
                psums@.len() == i,
                forall|j: int| 0 <= j < i ==> psums@[j] == spec_prefix_sum(magnitudes@, j),
                i > 0 ==> acc == spec_prefix_sum(magnitudes@, i - 1),
                i == 0 ==> acc == StereoMagnitude::spec_zero(),
            decreases magnitudes@.len() - i,
        {
            acc = acc.plus(magnitudes[i]);
            psums.push(acc);
            i = i + 1;
        }
        FastFrequencySample { prefix_sum_of_magnitudes: psums, sample_rate }
    }

    /// The net (integrated) magnitude across a frequency range: the
    /// difference of the net magnitudes below its two endpoints.  With a
    /// non-negative spectrum it never shrinks as the range widens.
    pub open spec fn spec_net_magnitude_in(self, lo: u32, hi: u32) -> StereoMagnitude {
        self.spec_net_magnitude_below(hi).spec_minus(self.spec_net_magnitude_below(lo))
    }

    /// The period: twice the bin count over the sample rate.
    pub fn period(&self) -> (r: u32)
        ensures
            r == self.spec_period(),
    {
        let len_bits = usize_to_bits(self.prefix_sum_of_magnitudes.len());
        let rate_bits = usize_to_bits(self.sample_rate as usize);
        div_bits(mul_bits(TWO_BITS, len_bits), rate_bits)
    }

    /// The valid query range: zero to the Nyquist frequency.
    pub fn frequencies(&self) -> (r: (u32, u32))
        ensures
            r.0 == ZERO_BITS,
            r.1 == c_div(float_of_usize(self.sample_rate as usize), TWO_BITS),
    {
        let rate_bits = usize_to_bits(self.sample_rate as usize);
        (ZERO_BITS, div_bits(rate_bits, TWO_BITS))
    }

    /// The net (integrated) magnitude across a frequency range.
    pub fn net_magnitude_in(&self, lo: u32, hi: u32) -> (r: StereoMagnitude)
        requires
            self.wf(),
        ensures
            r == self.spec_net_magnitude_in(lo, hi),
    {
        self.net_magnitude_below(hi).minus(self.net_magnitude_below(lo))
    }

    /// The fractional bin index bracketing a frequency, clamped into the
    /// valid index range.
    fn index_of(&self, frequency: u32) -> (r: u32)
        requires
            self.wf(),
        ensures
            r == spec_index_of(
                self.prefix_sum_of_magnitudes@.len(),
                self.spec_period(),
                frequency,
            ),
    {
        let period = self.period();
        let hi = usize_to_bits(self.prefix_sum_of_magnitudes.len() - 1);
        clamp_bits(mul_bits(frequency, period), ZERO_BITS, hi)
    }

    /// The net magnitude below a frequency, exactly as
    /// [`Self::spec_net_magnitude_below`] states.
    fn net_magnitude_below(&self, frequency: u32) -> (r: StereoMagnitude)
        requires
            self.wf(),
        ensures
            r == self.spec_net_magnitude_below(frequency),
    {
        let period = self.period();
        let index = self.index_of(frequency);
        let last = self.prefix_sum_of_magnitudes.len() - 1;
        let low_raw = bits_to_usize(floor_bits(index));
        let low = if low_raw <= last {
            low_raw
        } else {
            last
        };
        let high_raw = bits_to_usize(ceil_bits(index));
        let high_capped = if high_raw <= low + 1 {
            high_raw
        } else {
            low + 1
        };
        let high = if high_capped <= last {
            high_capped
        } else {
            last
        };
        let f_start = div_bits(usize_to_bits(low), period);
        let f_end = div_bits(usize_to_bits(high), period);
        let offset = div_bits(sub_bits(frequency, f_start), sub_bits(f_end, f_start));
        let cm_start = self.prefix_sum_of_magnitudes[low];
        let cm_end = self.prefix_sum_of_magnitudes[high];
        cm_start.scale(sub_bits(ONE_BITS, offset)).plus(cm_end.scale(offset)).div(TWO_BITS)
    }
}

} // verus!
