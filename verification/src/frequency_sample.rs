//! The common query surface of a computed spectrum.
//!
//! A spectrum answers three questions: its period (the factor converting a
//! frequency to a fractional bin index), the valid frequency range (zero to
//! the Nyquist frequency), and the mean magnitude across a frequency range.
//! An implementation pins its answers with its own spec functions, so
//! callers generic over this trait keep exact contracts.  The prefix-sum
//! representation answers a different quantity (a net magnitude that grows
//! with the range) and therefore stands outside this trait.

use vstd::prelude::*;
use crate::float_bits::{c_div, float_of_usize, TWO_BITS, ZERO_BITS};
use crate::interpolated_frequency_sample::InterpolatedFrequencySample;
use crate::sample::StereoMagnitude;

verus! {

/// An immutable frequency-domain snapshot that can be queried by frequency
/// range.
pub trait FrequencySample: Sized {
    /// The representation's well-formedness.
    spec fn valid(&self) -> bool;

    /// The period the implementation reports.
    spec fn period_spec(&self) -> u32;

    /// The Nyquist frequency the implementation reports.
    spec fn nyquist_spec(&self) -> u32;

    /// The mean magnitude the implementation reports for a range.
    spec fn magnitude_in_spec(&self, lo: u32, hi: u32) -> StereoMagnitude;

    /// The period: twice the bin count over the sample rate.
    fn period(&self) -> (r: u32)
        requires
            self.valid(),
        ensures
            r == self.period_spec(),
    ;

    /// The valid query range: zero to the Nyquist frequency.
    fn frequencies(&self) -> (r: (u32, u32))
        requires
            self.valid(),
        ensures
            r.0 == ZERO_BITS,
            r.1 == self.nyquist_spec(),
    ;

    /// The mean magnitude across a frequency range.
    fn magnitude_in(&self, lo: u32, hi: u32) -> (r: StereoMagnitude)
        requires
            self.valid(),
        ensures
            r == self.magnitude_in_spec(lo, hi),
    ;
}

impl FrequencySample for InterpolatedFrequencySample {
    open spec fn valid(&self) -> bool {
        self.wf()
    }

    open spec fn period_spec(&self) -> u32 {
        self.spec_period()
    }

    open spec fn nyquist_spec(&self) -> u32 {
        c_div(float_of_usize(self.sample_rate as usize), TWO_BITS)
    }

    open spec fn magnitude_in_spec(&self, lo: u32, hi: u32) -> StereoMagnitude {
        self.spec_magnitude_in(lo, hi)
    }

    fn period(&self) -> (r: u32) {
        InterpolatedFrequencySample::period(self)
    }

    fn frequencies(&self) -> (r: (u32, u32)) {
        InterpolatedFrequencySample::frequencies(self)
    }

    fn magnitude_in(&self, lo: u32, hi: u32) -> (r: StereoMagnitude) {
        InterpolatedFrequencySample::magnitude_in(self, lo, hi)
    }
}

} // verus!
