//! The stream transform driver.
//!
//! An [`AudioTransform`] converts one window of stereo samples into one
//! output value.  The [`AudioStreamTransform`] drives such a transform over
//! a sliding window of the sample ring buffer at a fixed stride: each step
//! peeks one full window without consuming it, transforms it, and then
//! advances the buffer by the stride only — strides smaller than the window
//! make successive windows overlap.  When fewer samples than one window
//! remain, a call stops and leaves them untouched for the next call, so the
//! driver is pull-based and restartable: it never blocks and never runs on
//! its own thread.

use vstd::prelude::*;
use vstd::arithmetic::div_mod::lemma_fundamental_div_mod_converse_div;
use crate::float_bits::{
    bits_to_usize, c_mul, c_round, float_of_usize, mul_bits, round_bits, usize_of_float,
    usize_to_bits,
};
use crate::ring_buffer::{accepted_count, push_many_spec, ring_capacity, ring_contents,
    SampleRingBuffer};
use crate::sample::StereoSample;
use crate::ConfigError;

verus! {

/// A stateful transform from one window of stereo samples to one output
/// value (typically a spectrum).
pub trait AudioTransform: Sized {
    /// What one processed window yields.
    type Output;

    /// The transform's internal invariant.
    spec fn inv(&self) -> bool;

    /// The configured sample rate (Hz).
    spec fn rate_spec(&self) -> u32;

    /// How many input samples one `process` call consumes.
    spec fn window_spec(&self) -> usize;

    /// Whether a value is an output this transform can yield from the
    /// given window of samples under its current configuration.
    spec fn out_rel(&self, window: Seq<StereoSample>, o: Self::Output) -> bool;

    /// The configured sample rate (Hz).
    fn sample_rate(&self) -> (r: u32)
        requires
            self.inv(),
        ensures
            r == self.rate_spec(),
    ;

    /// How many input samples one `process` call consumes; always at least
    /// one.
    fn num_input_samples(&self) -> (r: usize)
        requires
            self.inv(),
        ensures
            r == self.window_spec(),
            r >= 1,
    ;

    /// Converts one window of samples into one output value.  Yields a
    /// value exactly when at least one full window of samples is given;
    /// the configuration is never changed by a call.
    fn process(&mut self, samples: &Vec<StereoSample>) -> (r: Option<Self::Output>)
        requires
            old(self).inv(),
        ensures
            final(self).inv(),
            final(self).rate_spec() == old(self).rate_spec(),
            final(self).window_spec() == old(self).window_spec(),
            (r is Some <==> samples@.len() >= old(self).window_spec()),
            (r matches Some(o) ==> old(self).out_rel(
                samples@.take(old(self).window_spec() as int),
                o,
            )),
            forall|w: Seq<StereoSample>, o: Self::Output| old(self).out_rel(w, o)
                == #[trigger] final(self).out_rel(w, o),
    ;
}

/// How many outputs one driver call yields from `available` buffered
/// samples: one per full window reachable at the given stride.
pub open spec fn spectra_count(available: nat, window: nat, stride: nat) -> nat
    recommends
        window >= 1,
        stride >= 1,
{
    if available >= window {
        (((available - window) / (stride as int)) + 1) as nat
    } else {
        0
    }
}

/// The stride in samples derived from a configured stride in seconds: the
/// product of the stride and the sample rate, rounded to the nearest whole
/// sample.
pub fn stride_samples_from_period(stride: u32, sample_rate: u32) -> (r: usize)
    ensures
        r == usize_of_float(c_round(c_mul(stride, float_of_usize(sample_rate as usize)))),
{
    bits_to_usize(round_bits(mul_bits(stride, usize_to_bits(sample_rate as usize))))
}

/// Composes the consumer side of a sample ring buffer with a windowed
/// transform and a stride, yielding zero or more outputs per call.
pub struct AudioStreamTransform<T: AudioTransform> {
    input_stream: SampleRingBuffer,
    transform: T,
    stride_samples: usize,
}

impl<T: AudioTransform> AudioStreamTransform<T> {
    /// The driver's invariant: the transform is valid, the stride is
    /// positive, and the buffer respects its capacity.
    pub closed spec fn wf(self) -> bool {
        &&& self.transform.inv()
        &&& self.stride_samples >= 1
        &&& ring_contents(self.input_stream).len() <= ring_capacity(self.input_stream)
    }

    /// The samples currently buffered, oldest first.
    pub closed spec fn buffered(self) -> Seq<StereoSample> {
        ring_contents(self.input_stream)
    }

    /// The fixed capacity of the buffer.
    pub closed spec fn buffer_capacity(self) -> nat {
        ring_capacity(self.input_stream)
    }

    /// The stride in samples: how far the window advances per output.
    pub closed spec fn stride_spec(self) -> usize {
        self.stride_samples
    }

    /// The window size of the composed transform.
    pub closed spec fn window_spec(self) -> usize {
        self.transform.window_spec()
    }

    /// The sample rate of the composed transform.
    pub closed spec fn rate_spec(self) -> u32 {
        self.transform.rate_spec()
    }

    /// Whether a value is an output the composed transform can yield from
    /// the given window of samples.
    pub closed spec fn out_rel(self, window: Seq<StereoSample>, o: T::Output) -> bool {
        self.transform.out_rel(window, o)
    }

    /// Composes a buffer, a transform and a stride.  A zero stride is
    /// rejected: the window would never advance.
    pub fn new(input_stream: SampleRingBuffer, transform: T, stride_samples: usize) -> (r: Result<
        AudioStreamTransform<T>,
        ConfigError,
    >)
        requires
            transform.inv(),
            ring_contents(input_stream).len() <= ring_capacity(input_stream),
        ensures
            (r is Ok <==> stride_samples >= 1),
            (stride_samples == 0 <==> (r matches Err(e) && e == ConfigError::InvalidStride)),
            (r matches Ok(d) ==> d.wf() && d.buffered() == ring_contents(input_stream)
                && d.buffer_capacity() == ring_capacity(input_stream) && d.stride_spec()
                == stride_samples && d.window_spec() == transform.window_spec() && d.rate_spec()
                == transform.rate_spec()),
            (r matches Ok(d) ==> forall|w: Seq<StereoSample>, o: T::Output| #[trigger] d.out_rel(
                w,
                o,
            ) == transform.out_rel(w, o)),
    {
        if stride_samples == 0 {
            return Err(ConfigError::InvalidStride);
        }
        Ok(AudioStreamTransform { input_stream, transform, stride_samples })
    }

    /// The stride in samples.
    pub fn stride_samples(&self) -> (r: usize)
        ensures
            r == self.stride_spec(),
    {
        self.stride_samples
    }

    /// How many samples are currently buffered.
    pub fn available(&self) -> (r: usize)
        ensures
            r == self.buffered().len(),
    {
        self.input_stream.len()
    }

    /// Feeds captured samples into the buffer, oldest first; samples beyond
    /// the buffer's free space are dropped (the drop-newest policy) and the
    /// number of accepted samples is returned.
    pub fn push_samples(&mut self, batch: &Vec<StereoSample>) -> (accepted: usize)
        requires
            old(self).wf(),
        ensures
            final(self).wf(),
            final(self).stride_spec() == old(self).stride_spec(),
            final(self).window_spec() == old(self).window_spec(),
            final(self).rate_spec() == old(self).rate_spec(),
            final(self).buffer_capacity() == old(self).buffer_capacity(),
            forall|w: Seq<StereoSample>, o: T::Output| old(self).out_rel(w, o)
                == #[trigger] final(self).out_rel(w, o),
            accepted == accepted_count(
                old(self).buffered(),
                old(self).buffer_capacity(),
                batch@.len() as nat,
            ),
            final(self).buffered() == push_many_spec(
                old(self).buffered(),
                old(self).buffer_capacity(),
                batch@,
            ),
    {
        self.input_stream.push_many(batch)
    }

    /// Drains every output that is currently ready: while at least one full
    /// window is buffered, peeks the window, transforms it, and advances the
    /// buffer by the stride.  Yields exactly one output per full window
    /// reachable at the stride, and leaves the not-yet-reachable samples
    /// buffered for the next call.
    #[verifier::loop_isolation(false)]
    pub fn process(&mut self) -> (out: Vec<T::Output>)
        requires
            old(self).wf(),
        ensures
            final(self).wf(),
            final(self).stride_spec() == old(self).stride_spec(),
            final(self).window_spec() == old(self).window_spec(),
            final(self).rate_spec() == old(self).rate_spec(),
            final(self).buffer_capacity() == old(self).buffer_capacity(),
            forall|w: Seq<StereoSample>, o: T::Output| old(self).out_rel(w, o)
                == #[trigger] final(self).out_rel(w, o),
            forall|i: int|
                0 <= i < out@.len() ==> final(self).out_rel(
                    old(self).buffered().subrange(
                        i * old(self).stride_spec(),
                        i * old(self).stride_spec() + old(self).window_spec(),
                    ),
                    #[trigger] out@[i],
                ),
            out@.len() == spectra_count(
                old(self).buffered().len(),
                old(self).window_spec() as nat,
                old(self).stride_spec() as nat,
            ),
            final(self).buffered() == old(self).buffered().skip(
                if out@.len() * old(self).stride_spec() <= old(self).buffered().len() {
                    (out@.len() * old(self).stride_spec()) as int
                } else {
                    old(self).buffered().len() as int
                },
            ),
    {
        let ghost orig = ring_contents(self.input_stream);
        let ghost cap = ring_capacity(self.input_stream);
        let window = self.transform.num_input_samples();
        let stride = self.stride_samples;
        let mut out: Vec<T::Output> = Vec::new();
        proof {
            assert(orig.skip(0) =~= orig);
        }
        while self.input_stream.len() >= window
            invariant
                self.transform.inv(),
                self.transform.window_spec() == old(self).window_spec(),
                self.transform.rate_spec() == old(self).rate_spec(),
                forall|w: Seq<StereoSample>, o: T::Output| old(self).out_rel(w, o)
                    == #[trigger] self.transform.out_rel(w, o),
                forall|i: int|
                    0 <= i < out@.len() ==> self.transform.out_rel(
                        orig.subrange(i * stride, i * stride + window),
                        #[trigger] out@[i],
                    ),
                self.stride_samples == old(self).stride_spec(),
                ring_capacity(self.input_stream) == cap,
                ring_contents(self.input_stream).len() <= cap,
                ring_contents(self.input_stream) == orig.skip(
                    if out@.len() * stride <= orig.len() {
                        (out@.len() * stride) as int
                    } else {
                        orig.len() as int
                    },
                ),
                out@.len() >= 1 ==> orig.len() >= window + (out@.len() - 1) * stride,
            decreases ring_contents(self.input_stream).len(),
        {
            let ghost k = out@.len();
            let ghost pre = ring_contents(self.input_stream);
            proof {
                if k * stride > orig.len() {
                    assert(pre.len() == 0);
                    assert(false);
                }
                assert(pre == orig.skip((k * stride) as int));
                assert(pre.len() == orig.len() - k * stride);
            }
            let batch = self.input_stream.peek(window);
            proof {
                assert(batch@ =~= orig.subrange(
                    (k * stride) as int,
                    (k * stride + window) as int,
                ));
            }
            match self.transform.process(&batch) {
                Some(o) => {
                    out.push(o);
                    proof {
                        assert(batch@.take(window as int) =~= batch@);
                    }
                },
                None => {
                    proof {
                        assert(false);
                    }
                },
            }
            let removed = self.input_stream.skip(stride);
            proof {
                assert((k + 1) * stride == k * stride + stride) by (nonlinear_arith);
                assert(ring_contents(self.input_stream) =~= orig.skip(
                    if (k + 1) * stride <= orig.len() {
                        ((k + 1) * stride) as int
                    } else {
                        orig.len() as int
                    },
                ));
                assert(orig.len() >= window + ((k + 1) - 1) * stride);
            }
        }
        proof {
            let k = out@.len() as int;
            let l = orig.len() as int;
            let w = old(self).window_spec() as int;
            let s = old(self).stride_spec() as int;
            if k == 0 {
                assert(ring_contents(self.input_stream) == orig.skip(0));
                assert(ring_contents(self.input_stream).len() == l);
                assert(l < w);
                assert(spectra_count(orig.len(), w as nat, s as nat) == 0);
            } else {
                assert(l >= w + (k - 1) * s);
                assert(l - w < k * s) by {
                    if k * s <= l {
                        assert(ring_contents(self.input_stream).len() == l - k * s);
                        assert(l - k * s < w);
                    } else {
                        assert(l - w < k * s);
                    }
                }
                assert((k - 1) * s == k * s - s) by (nonlinear_arith);
                assert(0 <= l - w - (k - 1) * s < s);
                lemma_fundamental_div_mod_converse_div(l - w, s, k - 1, l - w - (k - 1) * s);
                assert((l - w) / s == k - 1);
                assert(l >= w);
                assert(spectra_count(orig.len(), w as nat, s as nat) == k);
            }
        }
        out
    }
}

/// Law: the overlap invariant.  Feeding exactly `k` strides plus one full
/// window of samples yields `k + 1` outputs, and fewer samples than one
/// window yield none.
pub proof fn lemma_overlap_invariant(window: nat, stride: nat, k: nat)
    requires
        window >= 1,
        stride >= 1,
    ensures
        spectra_count(k * stride + window, window, stride) == k + 1,
        forall|available: nat| available < window ==> spectra_count(available, window, stride)
            == 0,
{
    let l = (k * stride + window) as int;
    assert(k * stride >= 0) by (nonlinear_arith)
        requires
            stride >= 1,
            k >= 0,
    ;
    lemma_fundamental_div_mod_converse_div(l - window, stride as int, k as int, 0);
    assert((l - window) / (stride as int) == k);
}

} // verus!
