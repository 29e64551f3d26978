//! The windowed Fourier transform.
//!
//! One call converts a block of stereo samples into a frequency-domain
//! snapshot:
//!
//! 1. each stereo pair `(l, r)` is packed into one complex number `l + i*r`;
//! 2. a Hann window tapers the block;
//! 3. the block is zero-padded to twice its length, doubling the spectral
//!    resolution;
//! 4. one forward complex transform of the padded block is run by `fftw`;
//! 5. the two channels' magnitude spectra are recovered from the single
//!    complex transform through the conjugate-symmetry identity
//!    (`|a + conj(b)| / 2` for the left channel, `|a - conj(b)| / 2` for the
//!    right, with `a` read from the low half and `b` from the high half);
//! 6. all magnitudes are scaled by `2 / n` to normalize for window energy.
//!
//! Packing halves the number of transforms needed for stereo input.  The
//! bin for frequency zero is excluded from the identity and defined as
//! silence.  Every structural step and every exact arithmetic step is
//! verified; the transform itself and the Euclidean norms pass through the
//! platform's floating point, so their values are pinned only relatively.

use vstd::prelude::*;
use fftw::array::AlignedVec;
use fftw::plan::{C2CPlan, C2CPlan32};
use fftw::types::{c32, Flag, Sign};
use crate::float_bits::{
    bits_to_usize, c_div, c_mul, cos_bits, div_bits, float_of_usize, mul_bits, sign_bit_clear,
    sub_bits, usize_of_float, usize_to_bits, HALF_BITS, ONE_BITS, TAU_BITS, TWO_BITS,
};
use crate::audio_transform::AudioTransform;
use crate::interpolated_frequency_sample::InterpolatedFrequencySample;
use crate::sample::{StereoMagnitude, StereoSample};
use crate::ConfigError;

verus! {

/// A reusable plan for a forward complex transform of one fixed size,
/// prepared by `fftw`.
#[verifier::external_body]
pub struct FftPlan {
    plan: C2CPlan32,
}

/// The fixed transform size the plan was prepared for.
pub uninterp spec fn plan_size(p: FftPlan) -> nat;

impl FftPlan {
    /// Prepares a forward complex-to-complex plan for the given transform
    /// size, or reports that the planner declined.
    ///
    /// Relies on `fftw`'s `C2CPlan32::aligned`, which allocates aligned
    /// buffers of exactly `size` entries and builds a forward plan over
    /// them; an empty transform is excluded, so the planner is never asked
    /// for a degenerate allocation.
    #[verifier::external_body]
    pub fn new(size: usize) -> (r: Option<FftPlan>)
        requires
            size >= 1,
        ensures
            (r matches Some(p) ==> plan_size(p) == size),
    {
        match C2CPlan32::aligned(&[size], Sign::Forward, Flag::MEASURE) {
            Ok(plan) => Some(FftPlan { plan }),
            Err(_) => None,
        }
    }

    /// Runs the planned transform on one block, returning one output value
    /// per input value.
    ///
    /// Relies on `fftw`'s `C2CPlan32::c2c`: with freshly allocated aligned
    /// buffers whose length equals the plan's transform size, its shape
    /// check passes and the transform fills the whole output buffer.  The
    /// output values depend on the plan that the planner chose, so nothing
    /// is assumed about them beyond the length.
    #[verifier::external_body]
    fn execute(&mut self, input: &Vec<StereoMagnitude>) -> (r: Vec<StereoMagnitude>)
        requires
            input@.len() == plan_size(*old(self)),
        ensures
            plan_size(*final(self)) == plan_size(*old(self)),
            r@.len() == input@.len(),
    {
        let n = input.len();
        let mut buf_in = AlignedVec::new(n);
        for (d, s) in buf_in.iter_mut().zip(input.iter()) {
            *d = c32::new(bytemuck::cast(s.re), bytemuck::cast(s.im));
        }
        let mut buf_out = AlignedVec::new(n);
        match self.plan.c2c(&mut buf_in, &mut buf_out) {
            Ok(()) => buf_out.iter().map(
                |c| StereoMagnitude { re: c.re.to_bits(), im: c.im.to_bits() },
            ).collect(),
            Err(_) => vec![StereoMagnitude { re: 0, im: 0 }; n],
        }
    }
}

/// The Hann window weights for a block of length `n`: entry `i` holds the
/// bits of `0.5 * (1 - cos(tau * i / n))`.  The cosine passes through the
/// platform's floating point, so only the length is pinned by contract.
pub fn hann_window_weights(n: usize) -> (r: Vec<u32>)
    ensures
        r@.len() == n,
{
    let n_bits = usize_to_bits(n);
    let mut out: Vec<u32> = Vec::new();
    let mut i: usize = 0;
    #[verifier::loop_isolation(false)]
    while i < n
        invariant
            i <= n,
            out@.len() == i,
        decreases n - i,
    {
        let phase = div_bits(mul_bits(TAU_BITS, usize_to_bits(i)), n_bits);
        let w = mul_bits(HALF_BITS, sub_bits(ONE_BITS, cos_bits(phase)));
        out.push(w);
        i = i + 1;
    }
    out
}

/// Packs the first `n` stereo samples into complex numbers (`left + i*right`)
/// and tapers each by its window weight.
pub fn pack_and_window(samples: &Vec<StereoSample>, weights: &Vec<u32>, n: usize) -> (r: Vec<
    StereoMagnitude,
>)
    requires
        samples@.len() >= n,
        weights@.len() == n,
    ensures
        r@.len() == n,
        forall|i: int|
            0 <= i < n ==> r@[i] == (StereoMagnitude {
                re: samples@[i].left,
                im: samples@[i].right,
            }).spec_scale(weights@[i]),
{
    let mut out: Vec<StereoMagnitude> = Vec::new();
    let mut i: usize = 0;
    #[verifier::loop_isolation(false)]
    while i < n
        invariant
            i <= n,
            out@.len() == i,
            forall|j: int|
                0 <= j < i ==> out@[j] == (StereoMagnitude {
                    re: samples@[j].left,
                    im: samples@[j].right,
                }).spec_scale(weights@[j]),
        decreases n - i,
    {
        let s = samples[i];
        let packed = StereoMagnitude { re: s.left, im: s.right };
        out.push(packed.scale(weights[i]));
        i = i + 1;
    }
    out
}

/// Extends a block with trailing silence up to the padded length.
pub fn zero_pad(mut block: Vec<StereoMagnitude>, padded_len: usize) -> (r: Vec<StereoMagnitude>)
    requires
        block@.len() <= padded_len,
    ensures
        r@.len() == padded_len,
        forall|i: int| 0 <= i < block@.len() ==> r@[i] == block@[i],
        forall|i: int|
            block@.len() <= i < padded_len ==> r@[i] == StereoMagnitude::spec_zero(),
{
    let ghost orig = block@;
    #[verifier::loop_isolation(false)]
    while block.len() < padded_len
        invariant
            orig.len() <= block@.len() <= padded_len,
            block@.subrange(0, orig.len() as int) == orig,
            forall|i: int|
                orig.len() <= i < block@.len() ==> block@[i] == StereoMagnitude::spec_zero(),
        decreases padded_len - block@.len(),
    {
        block.push(StereoMagnitude::zero());
        proof {
            assert(block@.subrange(0, orig.len() as int) =~= orig);
        }
    }
    proof {
        assert(forall|i: int| 0 <= i < orig.len() ==> block@[i] == orig[i]);
    }
    block
}

/// The complex sum and difference that the conjugate-symmetry identity
/// forms for output bin `k + 1`: `a + conj(b)` and `a - conj(b)`, with `a`
/// the transform value at index `k + 1` and `b` the value at the mirrored
/// index from the high end.
pub open spec fn spec_bin_components(freq: Seq<StereoMagnitude>, n: nat, k: int) -> (
    StereoMagnitude,
    StereoMagnitude,
) {
    let a = freq[k + 1];
    let b = freq[2 * n - 1 - k];
    (a.spec_plus(b.spec_conj()), a.spec_minus(b.spec_conj()))
}

/// Forms, for every output bin, the complex sum and difference of the
/// conjugate-symmetry identity, exactly as [`spec_bin_components`] states.
pub fn bin_components(freq: &Vec<StereoMagnitude>, n: usize) -> (r: Vec<(
    StereoMagnitude,
    StereoMagnitude,
)>)
    requires
        n >= 1,
        n <= usize::MAX / 2,
        freq@.len() == 2 * n,
    ensures
        r@.len() == n,
        forall|k: int| 0 <= k < n ==> r@[k] == spec_bin_components(freq@, n as nat, k),
{
    let mut out: Vec<(StereoMagnitude, StereoMagnitude)> = Vec::new();
    let mut k: usize = 0;
    #[verifier::loop_isolation(false)]
    while k < n
        invariant
            k <= n,
            out@.len() == k,
            forall|j: int| 0 <= j < k ==> out@[j] == spec_bin_components(freq@, n as nat, j),
        decreases n - k,
    {
        let a = freq[k + 1];
        let b = freq[2 * n - 1 - k];
        out.push((a.plus(b.conj()), a.minus(b.conj())));
        k = k + 1;
    }
    out
}

/// Takes the Euclidean norm of each channel's complex component: the left
/// magnitude from the sum, the right from the difference.  The norms pass
/// through the platform's `hypot`, so only the length is pinned by
/// contract.
pub fn channel_norms(components: &Vec<(StereoMagnitude, StereoMagnitude)>) -> (r: Vec<
    StereoMagnitude,
>)
    ensures
        r@.len() == components@.len(),
        forall|k: int|
            0 <= k < r@.len() ==> sign_bit_clear(#[trigger] r@[k].re) && sign_bit_clear(
                r@[k].im,
            ),
{
    let mut out: Vec<StereoMagnitude> = Vec::new();
    let mut k: usize = 0;
    #[verifier::loop_isolation(false)]
    while k < components.len()
        invariant
            k <= components@.len(),
            out@.len() == k,
            forall|j: int|
                0 <= j < k ==> sign_bit_clear(#[trigger] out@[j].re) && sign_bit_clear(
                    out@[j].im,
                ),
        decreases components@.len() - k,
    {
        let (s, d) = components[k];
        out.push(StereoMagnitude { re: s.norm(), im: d.norm() });
        k = k + 1;
    }
    out
}

/// Halves each recovered norm (the identity yields twice the magnitude),
/// scales every bin by `2 / n` to normalize for window energy and transform
/// size, and prepends the frequency-zero bin, which is defined as silence.
pub fn scale_bins(norms: &Vec<StereoMagnitude>, n: usize) -> (r: Vec<StereoMagnitude>)
    requires
        n >= 1,
        forall|k: int|
            0 <= k < norms@.len() ==> sign_bit_clear(#[trigger] norms@[k].re) && sign_bit_clear(
                norms@[k].im,
            ),
    ensures
        r@.len() == norms@.len() + 1,
        r@[0] == StereoMagnitude::spec_zero(),
        forall|k: int|
            0 <= k < norms@.len() ==> r@[k + 1] == norms@[k].spec_div(TWO_BITS).spec_scale(
                c_div(TWO_BITS, float_of_usize(n)),
            ),
        forall|k: int|
            0 <= k < r@.len() ==> sign_bit_clear(#[trigger] r@[k].re) && sign_bit_clear(
                r@[k].im,
            ),
{
    let scale = div_bits(TWO_BITS, usize_to_bits(n));
    let mut out: Vec<StereoMagnitude> = Vec::new();
    out.push(StereoMagnitude::zero());
    let mut k: usize = 0;
    #[verifier::loop_isolation(false)]
    while k < norms.len()
        invariant
            k <= norms@.len(),
            out@.len() == k + 1,
            out@[0] == StereoMagnitude::spec_zero(),
            forall|j: int|
                0 <= j < k ==> out@[j + 1] == norms@[j].spec_div(TWO_BITS).spec_scale(
                    c_div(TWO_BITS, float_of_usize(n)),
                ),
            forall|j: int|
                0 <= j < out@.len() ==> sign_bit_clear(#[trigger] out@[j].re) && sign_bit_clear(
                    out@[j].im,
                ),
        decreases norms@.len() - k,
    {
        out.push(norms[k].div(TWO_BITS).scale(scale));
        k = k + 1;
    }
    out
}

/// The analysis window size derived from a configured analysis period in
/// seconds: the product of the period and the sample rate, truncated to a
/// whole number of samples (the floor, for the meaningful non-negative
/// configurations).
pub fn window_size_from_period(period: u32, sample_rate: u32) -> (r: usize)
    ensures
        r == usize_of_float(c_mul(period, float_of_usize(sample_rate as usize))),
{
    bits_to_usize(mul_bits(period, usize_to_bits(sample_rate as usize)))
}

/// A windowed Fourier transform with a fixed analysis window size, bound to
/// one sample rate and one prepared plan.  Changing the window size or the
/// sample rate requires constructing a new transform: a plan is tied to one
/// transform length.
pub struct FastFourierTransform {
    plan: FftPlan,
    sample_rate: u32,
    window_size: usize,
}

impl FastFourierTransform {
    /// A transform is well formed when its window is non-empty, the padded
    /// window fits in memory, the sample rate is non-zero, and the plan was
    /// prepared for the padded window length.
    pub closed spec fn wf(self) -> bool {
        &&& self.window_size >= 1
        &&& self.window_size <= usize::MAX / 2
        &&& self.sample_rate >= 1
        &&& plan_size(self.plan) == 2 * self.window_size
    }

    /// The configured sample rate (Hz).
    pub closed spec fn spec_sample_rate(self) -> u32 {
        self.sample_rate
    }

    /// The analysis window size: how many samples one call consumes.
    pub closed spec fn spec_window_size(self) -> usize {
        self.window_size
    }

    /// Builds a transform for the given sample rate and window size.
    /// An invalid configuration is rejected: the construction never
    /// silently substitutes a default.
    pub fn new(sample_rate: u32, window_size: usize) -> (r: Result<
        FastFourierTransform,
        ConfigError,
    >)
        ensures
            (r matches Ok(t) ==> t.wf() && t.spec_sample_rate() == sample_rate
                && t.spec_window_size() == window_size),
            sample_rate == 0 <==> (r matches Err(e) && e == ConfigError::InvalidSampleRate),
            (sample_rate >= 1 && (window_size == 0 || window_size > usize::MAX / 2)) <==> (
            r matches Err(e) && e == ConfigError::InvalidWindowSize),
            (r matches Err(e) && e == ConfigError::PlanUnavailable) ==> (sample_rate >= 1 && 1
                <= window_size <= usize::MAX / 2),
    {
        if sample_rate == 0 {
            return Err(ConfigError::InvalidSampleRate);
        }
        if window_size == 0 || window_size > usize::MAX / 2 {
            return Err(ConfigError::InvalidWindowSize);
        }
        match FftPlan::new(2 * window_size) {
            Some(plan) => Ok(FastFourierTransform { plan, sample_rate, window_size }),
            None => Err(ConfigError::PlanUnavailable),
        }
    }

    /// The configured sample rate (Hz).
    pub fn sample_rate(&self) -> (r: u32)
        ensures
            r == self.spec_sample_rate(),
    {
        self.sample_rate
    }

    /// How many input samples one `process` call consumes.
    pub fn num_input_samples(&self) -> (r: usize)
        ensures
            r == self.spec_window_size(),
    {
        self.window_size
    }

    /// How many frequency bins each produced spectrum holds: one more than
    /// half the padded window length.
    pub fn num_output_frequencies(&self) -> (r: usize)
        requires
            self.wf(),
        ensures
            r == self.spec_window_size() + 1,
    {
        self.window_size + 1
    }

    /// Converts one window of stereo samples into a frequency-domain
    /// snapshot.  Returns `None`, without any other effect, when fewer
    /// samples than one window are given; otherwise consumes exactly one
    /// window's worth from the front of the block and returns a spectrum
    /// with one bin per output frequency, tagged with the configured sample
    /// rate.
    pub fn process(&mut self, samples: &Vec<StereoSample>) -> (r: Option<
        InterpolatedFrequencySample,
    >)
        requires
            old(self).wf(),
        ensures
            final(self).wf(),
            final(self).spec_sample_rate() == old(self).spec_sample_rate(),
            final(self).spec_window_size() == old(self).spec_window_size(),
            (r is Some <==> samples@.len() >= old(self).spec_window_size()),
            (r matches Some(s) ==> s.wf() && s.magnitudes@.len() == old(self).spec_window_size()
                + 1 && s.sample_rate == old(self).spec_sample_rate()),
            (r matches Some(s) ==> s.magnitudes@[0] == StereoMagnitude::spec_zero()),
            (r matches Some(s) ==> forall|k: int|
                0 <= k < s.magnitudes@.len() ==> sign_bit_clear(#[trigger] s.magnitudes@[k].re)
                    && sign_bit_clear(s.magnitudes@[k].im)),
            (r matches Some(s) ==> exists|ns: Seq<StereoMagnitude>|
                ns.len() == old(self).spec_window_size() && (forall|k: int|
                    0 <= k < ns.len() ==> s.magnitudes@[k + 1] == (#[trigger] ns[k]).spec_div(
                        TWO_BITS,
                    ).spec_scale(
                        c_div(TWO_BITS, float_of_usize(old(self).spec_window_size())),
                    ))),
    {
        let n = self.window_size;
        if samples.len() < n {
            return None;
        }
        let weights = hann_window_weights(n);
        let windowed = pack_and_window(samples, &weights, n);
        let padded = zero_pad(windowed, 2 * n);
        let freq = self.plan.execute(&padded);
        let components = bin_components(&freq, n);
        let norms = channel_norms(&components);
        let bins = scale_bins(&norms, n);
        let result = InterpolatedFrequencySample::new(bins, self.sample_rate);
        proof {
            assert(norms@.len() == n && (forall|k: int|
                0 <= k < norms@.len() ==> result.magnitudes@[k + 1] == (#[trigger] norms@[k]).spec_div(
                    TWO_BITS,
                ).spec_scale(c_div(TWO_BITS, float_of_usize(n)))));
        }
        Some(result)
    }
}

impl AudioTransform for FastFourierTransform {
    type Output = InterpolatedFrequencySample;

    open spec fn inv(&self) -> bool {
        self.wf()
    }

    open spec fn rate_spec(&self) -> u32 {
        self.spec_sample_rate()
    }

    open spec fn window_spec(&self) -> usize {
        self.spec_window_size()
    }

    /// What this transform promises of an output for a given window: the
    /// spectrum's shape, tag, silent zero-frequency bin, sign-clear bins and
    /// scaling form.  The bin values themselves pass through the planner's
    /// transform and the platform norm, which are machine-dependent, so no
    /// clause can tie them to the window's sample values.
    open spec fn out_rel(&self, window: Seq<StereoSample>, o: InterpolatedFrequencySample) -> bool {
        let n = self.spec_window_size();
        &&& o.wf()
        &&& o.magnitudes@.len() == n + 1
        &&& o.sample_rate == self.spec_sample_rate()
        &&& o.magnitudes@[0] == StereoMagnitude::spec_zero()
        &&& forall|k: int|
            0 <= k < o.magnitudes@.len() ==> sign_bit_clear(#[trigger] o.magnitudes@[k].re)
                && sign_bit_clear(o.magnitudes@[k].im)
        &&& exists|ns: Seq<StereoMagnitude>|
            ns.len() == n && (forall|k: int|
                0 <= k < ns.len() ==> o.magnitudes@[k + 1] == (#[trigger] ns[k]).spec_div(
                    TWO_BITS,
                ).spec_scale(c_div(TWO_BITS, float_of_usize(n))))
    }

    fn sample_rate(&self) -> (r: u32) {
        FastFourierTransform::sample_rate(self)
    }

    fn num_input_samples(&self) -> (r: usize) {
        FastFourierTransform::num_input_samples(self)
    }

    fn process(&mut self, samples: &Vec<StereoSample>) -> (r: Option<
        InterpolatedFrequencySample,
    >) {
        FastFourierTransform::process(self, samples)
    }
}

} // verus!
