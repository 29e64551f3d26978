use spectra::ring_buffer::SampleRingBuffer;
use spectra::sample::StereoSample;

fn s(v: u32) -> StereoSample {
    StereoSample { left: v, right: v }
}

#[test]
fn ring_starts_empty() {
    let rb = SampleRingBuffer::new(8);
    assert_eq!(rb.len(), 0);
    assert_eq!(rb.capacity(), 8);
}

#[test]
fn ring_push_pop_is_fifo() {
    let mut rb = SampleRingBuffer::new(4);
    assert!(rb.push(s(1)));
    assert!(rb.push(s(2)));
    assert!(rb.push(s(3)));
    assert_eq!(rb.pop(), Some(s(1)));
    assert_eq!(rb.pop(), Some(s(2)));
    assert_eq!(rb.pop(), Some(s(3)));
    assert_eq!(rb.pop(), None);
}

#[test]
fn ring_push_on_full_drops_newest() {
    let mut rb = SampleRingBuffer::new(2);
    assert!(rb.push(s(1)));
    assert!(rb.push(s(2)));
    assert!(!rb.push(s(3)));
    assert_eq!(rb.len(), 2);
    assert_eq!(rb.pop(), Some(s(1)));
    assert_eq!(rb.pop(), Some(s(2)));
    assert_eq!(rb.pop(), None);
}

#[test]
fn ring_capacity_plus_one_keeps_oldest_first() {
    // Pushing capacity + 1 samples and draining recovers exactly the first
    // `capacity` of them, oldest first; the newest was dropped.
    let capacity = 5usize;
    let mut rb = SampleRingBuffer::new(capacity);
    let batch: Vec<StereoSample> = (0..capacity as u32 + 1).map(s).collect();
    let accepted = rb.push_many(&batch);
    assert_eq!(accepted, capacity);
    assert_eq!(rb.len(), capacity);
    let drained = rb.drain();
    assert_eq!(rb.len(), 0);
    assert_eq!(drained, batch[..capacity].to_vec());
}

#[test]
fn ring_peek_does_not_consume() {
    let mut rb = SampleRingBuffer::new(8);
    for v in 0..5u32 {
        rb.push(s(v));
    }
    let peeked = rb.peek(3);
    assert_eq!(peeked, vec![s(0), s(1), s(2)]);
    assert_eq!(rb.len(), 5);
    let all = rb.peek(99);
    assert_eq!(all.len(), 5);
    assert_eq!(rb.len(), 5);
}

#[test]
fn ring_skip_discards_oldest() {
    let mut rb = SampleRingBuffer::new(8);
    for v in 0..5u32 {
        rb.push(s(v));
    }
    assert_eq!(rb.skip(2), 2);
    assert_eq!(rb.len(), 3);
    assert_eq!(rb.pop(), Some(s(2)));
    assert_eq!(rb.skip(99), 2);
    assert_eq!(rb.len(), 0);
    assert_eq!(rb.skip(1), 0);
}

#[test]
fn ring_push_many_partial_acceptance() {
    let mut rb = SampleRingBuffer::new(3);
    rb.push(s(10));
    let batch = vec![s(11), s(12), s(13), s(14)];
    let accepted = rb.push_many(&batch);
    assert_eq!(accepted, 2);
    let drained = rb.drain();
    assert_eq!(drained, vec![s(10), s(11), s(12)]);
}
