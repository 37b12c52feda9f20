use vstd::prelude::*;

verus! {

/// The bounded single-producer/single-consumer queue of sample words that
/// couples the feeder to the audio callback. Storage and index arithmetic
/// live in the `ringbuf` crate; this type holds the two ends of one ring
/// buffer, and the contracts below state the crate's behaviour for the
/// verifier. The two ends are kept together because the queued contents are
/// shared between them, so neither end alone could carry the model.
#[verifier::external_body]
pub struct SampleRing {
    tx: ringbuf::Producer<u32>,
    rx: ringbuf::Consumer<u32>,
}

/// The samples currently queued in the ring, oldest first.
pub uninterp spec fn ring_samples(r: SampleRing) -> Seq<u32>;

/// The fixed capacity the ring was created with.
pub uninterp spec fn ring_cap(r: SampleRing) -> nat;

/// Free space left in the ring.
pub open spec fn ring_free(r: SampleRing) -> int {
    ring_cap(r) - ring_samples(r).len()
}

impl SampleRing {
    /// Relies on ringbuf::RingBuffer::new and RingBuffer::split: a fresh
    /// bounded queue of the given capacity, holding nothing.
    #[verifier::external_body]
    pub fn new(capacity: usize) -> (r: SampleRing)
        ensures
            ring_samples(r) == Seq::<u32>::empty(),
            ring_cap(r) == capacity as nat,
    {
        let (tx, rx) = ringbuf::RingBuffer::new(capacity).split();
        SampleRing { tx, rx }
    }

    /// Relies on ringbuf::Producer::push_slice: appends to the queue as many
    /// samples of `data[from..]` as the free space holds, in order, and
    /// returns how many it took.
    #[verifier::external_body]
    pub fn push_from(&mut self, data: &Vec<u32>, from: usize) -> (n: usize)
        requires
            from <= data@.len(),
        ensures
            ring_samples(*old(self)).len() <= ring_cap(*old(self)),
            n == if data@.len() - from <= ring_free(*old(self)) {
                data@.len() - from
            } else {
                ring_free(*old(self))
            },
            ring_samples(*final(self)) == ring_samples(*old(self)) + data@.subrange(
                from as int,
                from + n,
            ),
            ring_cap(*final(self)) == ring_cap(*old(self)),
    {
        self.tx.push_slice(&data[from..])
    }

    /// Relies on ringbuf::Consumer::pop_slice: moves the oldest queued
    /// samples into the front of `buf` — as many as are queued and fit —
    /// and leaves the rest of `buf` untouched.
    #[verifier::external_body]
    pub fn pop_into(&mut self, buf: &mut Vec<u32>) -> (n: usize)
        ensures
            ring_samples(*old(self)).len() <= ring_cap(*old(self)),
            n == if old(buf)@.len() <= ring_samples(*old(self)).len() {
                old(buf)@.len() as int
            } else {
                ring_samples(*old(self)).len() as int
            },
            final(buf)@.len() == old(buf)@.len(),
            forall|i: int| 0 <= i < n ==> final(buf)@[i] == ring_samples(*old(self))[i],
            forall|i: int| n <= i < final(buf)@.len() ==> final(buf)@[i] == old(buf)@[i],
            ring_samples(*final(self)) == ring_samples(*old(self)).skip(n as int),
            ring_cap(*final(self)) == ring_cap(*old(self)),
    {
        self.rx.pop_slice(buf.as_mut_slice())
    }

    /// Relies on ringbuf::Consumer::is_empty: whether nothing is queued.
    #[verifier::external_body]
    pub fn is_empty(&self) -> (b: bool)
        ensures
            b == (ring_samples(*self).len() == 0),
    {
        self.rx.is_empty()
    }
}

/// Law: a pop followed by a push neither loses nor duplicates a sample.
/// In the contracts above, `pop_into` hands out the first `k` queued samples
/// and `push_from` appends the first `n` offered ones; so across any such
/// pair, everything read so far followed by everything still queued is
/// exactly everything ever written, in order — first in, first out,
/// exactly once.
pub proof fn lemma_fifo_exactly_once(
    reads: Seq<u32>,
    queued: Seq<u32>,
    k: int,
    data: Seq<u32>,
    n: int,
)
    requires
        0 <= k <= queued.len(),
        0 <= n <= data.len(),
    ensures
        (reads + queued.take(k)) + (queued.skip(k) + data.take(n)) == (reads + queued) + data.take(
            n,
        ),
{
    assert((reads + queued.take(k)) + (queued.skip(k) + data.take(n)) =~= (reads + queued)
        + data.take(n));
}

} // verus!
