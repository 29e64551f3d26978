//! The sample ring buffer: a fixed-capacity FIFO of stereo samples.
//!
//! The store is `ringbuf`'s heap-allocated ring buffer, held behind trusted
//! methods whose contracts are stated over the buffer's abstract contents,
//! a sequence of samples, oldest first.  The buffer never blocks, and when
//! it is full an incoming sample is dropped rather than overwriting unread
//! data (drop-newest policy): dropped samples appear only as a gap in the
//! time series, never as corruption.

use vstd::prelude::*;
use ringbuf::HeapRb;
use ringbuf::traits::{Consumer, Observer, Producer};
use crate::sample::StereoSample;

verus! {

/// A fixed-capacity queue of stereo samples backed by `ringbuf::HeapRb`.
#[verifier::external_body]
pub struct SampleRingBuffer {
    rb: HeapRb<StereoSample>,
}

/// The samples currently buffered, oldest first.
pub uninterp spec fn ring_contents(rb: SampleRingBuffer) -> Seq<StereoSample>;

/// The fixed capacity the buffer was created with.
pub uninterp spec fn ring_capacity(rb: SampleRingBuffer) -> nat;

/// The contents of a buffer after an attempted push: the sample is appended
/// when there is room and dropped when the buffer is full.
pub open spec fn push_spec(
    contents: Seq<StereoSample>,
    capacity: nat,
    s: StereoSample,
) -> Seq<StereoSample> {
    if contents.len() < capacity {
        contents.push(s)
    } else {
        contents
    }
}

/// How many of a batch of incoming samples a buffer with the given room
/// accepts: every sample up to the free space, the rest are dropped.
pub open spec fn accepted_count(contents: Seq<StereoSample>, capacity: nat, n: nat) -> nat {
    if n <= capacity - contents.len() {
        n
    } else {
        (capacity - contents.len()) as nat
    }
}

/// The contents of a buffer after a batch push: the accepted prefix of the
/// batch is appended, oldest first, and the overflow is dropped.
pub open spec fn push_many_spec(
    contents: Seq<StereoSample>,
    capacity: nat,
    batch: Seq<StereoSample>,
) -> Seq<StereoSample> {
    contents + batch.take(accepted_count(contents, capacity, batch.len()) as int)
}

impl SampleRingBuffer {
    /// Creates an empty buffer of the given fixed capacity.
    ///
    /// Relies on `HeapRb::new`, which allocates exactly `capacity` slots and
    /// panics only when `capacity` is zero (excluded here) or allocation
    /// fails.
    #[verifier::external_body]
    pub fn new(capacity: usize) -> (r: SampleRingBuffer)
        requires
            capacity >= 1,
        ensures
            ring_capacity(r) == capacity,
            ring_contents(r) == Seq::<StereoSample>::empty(),
    {
        SampleRingBuffer { rb: HeapRb::new(capacity) }
    }

    /// Appends one sample if there is room; reports whether it was accepted.
    /// A push onto a full buffer drops the new sample and leaves the buffer
    /// unchanged.
    ///
    /// Relies on `ringbuf`'s `Producer::try_push`: it appends and returns
    /// `Ok` when the buffer is not full, and returns the sample back as an
    /// `Err` without any other effect when it is.
    #[verifier::external_body]
    pub fn push(&mut self, s: StereoSample) -> (accepted: bool)
        ensures
            ring_capacity(*final(self)) == ring_capacity(*old(self)),
            accepted == (ring_contents(*old(self)).len() < ring_capacity(*old(self))),
            ring_contents(*final(self)) == push_spec(
                ring_contents(*old(self)),
                ring_capacity(*old(self)),
                s,
            ),
            ring_contents(*final(self)).len() <= ring_capacity(*final(self)),
    {
        self.rb.try_push(s).is_ok()
    }

    /// The number of buffered (unread) samples.
    ///
    /// Relies on `ringbuf`'s `Observer::occupied_len`.
    #[verifier::external_body]
    pub fn len(&self) -> (r: usize)
        ensures
            r == ring_contents(*self).len(),
    {
        self.rb.occupied_len()
    }

    /// The fixed capacity of the buffer.
    ///
    /// Relies on `ringbuf`'s `Observer::capacity`.
    #[verifier::external_body]
    pub fn capacity(&self) -> (r: usize)
        ensures
            r == ring_capacity(*self),
    {
        self.rb.capacity().get()
    }

    /// Copies up to `n` of the oldest buffered samples, oldest first,
    /// without removing anything.
    ///
    /// Relies on `ringbuf`'s `Consumer::iter`, a front-to-back iterator over
    /// the buffered items that does not remove them.
    #[verifier::external_body]
    pub fn peek(&self, n: usize) -> (r: Vec<StereoSample>)
        ensures
            r@ == if n <= ring_contents(*self).len() {
                ring_contents(*self).take(n as int)
            } else {
                ring_contents(*self)
            },
    {
        self.rb.iter().take(n).copied().collect()
    }

    /// Discards up to `n` of the oldest buffered samples and returns how
    /// many were discarded.
    ///
    /// Relies on `ringbuf`'s `Consumer::skip`, which removes exactly
    /// `min(n, len)` of the eldest items.
    #[verifier::external_body]
    pub fn skip(&mut self, n: usize) -> (removed: usize)
        ensures
            ring_capacity(*final(self)) == ring_capacity(*old(self)),
            removed == if n <= ring_contents(*old(self)).len() {
                n as int
            } else {
                ring_contents(*old(self)).len() as int
            },
            ring_contents(*final(self)) == ring_contents(*old(self)).skip(removed as int),
            ring_contents(*final(self)).len() <= ring_capacity(*final(self)),
    {
        self.rb.skip(n)
    }

    /// Removes and returns the oldest buffered sample, or `None` when the
    /// buffer is empty.
    ///
    /// Relies on `ringbuf`'s `Consumer::try_pop`.
    #[verifier::external_body]
    pub fn pop(&mut self) -> (r: Option<StereoSample>)
        ensures
            ring_capacity(*final(self)) == ring_capacity(*old(self)),
            ring_contents(*old(self)).len() == 0 ==> r is None && ring_contents(*final(self))
                == ring_contents(*old(self)),
            ring_contents(*old(self)).len() > 0 ==> r == Some(ring_contents(*old(self))[0])
                && ring_contents(*final(self)) == ring_contents(*old(self)).skip(1),
            ring_contents(*final(self)).len() <= ring_capacity(*final(self)),
    {
        self.rb.try_pop()
    }

    /// Appends a batch of samples, oldest first, accepting samples until the
    /// buffer is full and dropping the rest (the drop-newest policy).
    /// Returns how many samples were accepted.
    #[verifier::loop_isolation(false)]
    pub fn push_many(&mut self, batch: &Vec<StereoSample>) -> (accepted: usize)
        requires
            ring_contents(*old(self)).len() <= ring_capacity(*old(self)),
        ensures
            ring_capacity(*final(self)) == ring_capacity(*old(self)),
            accepted == accepted_count(
                ring_contents(*old(self)),
                ring_capacity(*old(self)),
                batch@.len() as nat,
            ),
            ring_contents(*final(self)) == push_many_spec(
                ring_contents(*old(self)),
                ring_capacity(*old(self)),
                batch@,
            ),
            ring_contents(*final(self)).len() <= ring_capacity(*final(self)),
    {
        let ghost orig = ring_contents(*self);
        let ghost cap = ring_capacity(*self);
        let mut i: usize = 0;
        while i < batch.len()
            invariant
                i <= batch@.len(),
                ring_capacity(*self) == cap,
                ring_contents(*self) == orig + batch@.take(i as int),
                ring_contents(*self).len() == orig.len() + i,
                ring_contents(*self).len() <= cap,
            decreases batch@.len() - i,
        {
            let ok = self.push(batch[i]);
            if !ok {
                proof {
                    assert(orig.len() + i == cap);
                    assert(i < batch@.len());
                    assert(accepted_count(orig, cap, batch@.len() as nat) == cap - orig.len());
                    assert(batch@.take(i as int) =~= batch@.take(
                        accepted_count(orig, cap, batch@.len() as nat) as int,
                    ));
                }
                return i;
            }
            proof {
                assert(orig + batch@.take(i as int) + seq![batch@[i as int]] =~= orig
                    + batch@.take(i as int + 1));
            }
            i = i + 1;
        }
        proof {
            assert(batch@.take(i as int) =~= batch@);
        }
        i
    }

    /// Removes and returns every buffered sample, oldest first, leaving the
    /// buffer empty.
    #[verifier::loop_isolation(false)]
    pub fn drain(&mut self) -> (r: Vec<StereoSample>)
        ensures
            ring_capacity(*final(self)) == ring_capacity(*old(self)),
            r@ == ring_contents(*old(self)),
            ring_contents(*final(self)) == Seq::<StereoSample>::empty(),
    {
        let ghost orig = ring_contents(*self);
        let mut out: Vec<StereoSample> = Vec::new();
        loop
            invariant
                ring_capacity(*self) == ring_capacity(*old(self)),
                out@ + ring_contents(*self) == orig,
            decreases ring_contents(*self).len(),
        {
            match self.pop() {
                Some(s) => {
                    out.push(s);
                    proof {
                        assert(out@ + ring_contents(*self) =~= orig);
                    }
                },
                None => {
                    proof {
                        assert(out@ =~= orig);
                    }
                    return out;
                },
            }
        }
    }
}

/// Law: pushing `capacity + 1` samples into an empty buffer accepts exactly
/// the first `capacity` of them, oldest first, and drops the newest; this is
/// the batch-push contract instantiated at an over-full batch.
pub proof fn lemma_ring_drop_newest(capacity: nat, batch: Seq<StereoSample>)
    requires
        capacity >= 1,
        batch.len() == capacity + 1,
    ensures
        accepted_count(Seq::<StereoSample>::empty(), capacity, batch.len() as nat) == capacity,
        push_many_spec(Seq::<StereoSample>::empty(), capacity, batch) == batch.take(
            capacity as int,
        ),
{
    assert(push_many_spec(Seq::<StereoSample>::empty(), capacity, batch) =~= batch.take(
        capacity as int,
    ));
}

} // verus!
