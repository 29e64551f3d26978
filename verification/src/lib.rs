//! A real-time stereo spectrum analysis pipeline.
//!
//! Audio arrives as stereo sample pairs in a fixed-capacity ring buffer, a
//! windowed Fourier transform turns blocks of samples into per-channel
//! magnitude spectra, and a query layer answers interpolated point lookups
//! and range-mean aggregation over a computed spectrum.
//!
//! Floating-point values are carried throughout as their IEEE 754 single
//! precision bit patterns (`u32`), so that the structural logic of the
//! pipeline can be reasoned about exactly; the arithmetic itself is
//! delegated to the host's floating-point operations at a narrow, audited
//! boundary (see [`float_bits`]).

use vstd::prelude::*;

pub mod audio_transform;
pub mod fast_frequency_sample;
pub mod fft;
pub mod float_bits;
pub mod frequency_sample;
pub mod interpolated_frequency_sample;
pub mod ring_buffer;
pub mod sample;

verus! {

/// A rejected configuration.  Construction fails fast on an invalid
/// configuration: the pipeline never silently substitutes a default that
/// would change the query math.
#[derive(Clone, Copy, Debug, PartialEq, Eq, Structural)]
pub enum ConfigError {
    /// The sample rate was zero.
    InvalidSampleRate,
    /// The analysis window was empty, or too large for its padded buffer.
    InvalidWindowSize,
    /// The stride was zero.
    InvalidStride,
    /// The transform planner declined to prepare a plan of the padded
    /// window length.
    PlanUnavailable,
}

} // verus!
