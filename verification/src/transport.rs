//! Fixed-capacity sample queues between the audio callback and the worker.
//!
//! Each queue is a ring buffer of the `ringbuf` crate, split into the one
//! end that writes and the one end that reads. Neither end ever blocks: a
//! push writes what fits, a pop takes what is there.
//!
//! The two ends live on different threads, so neither can say what the
//! queue holds at a given moment. What each end can say is what it knows:
//! the writing end knows what it has written and has not yet seen read,
//! the reading end knows what it has seen stored and has not yet taken.
//! The other end only ever makes room for the first and adds to the
//! second, and each call brings an end up to date. The contracts here are
//! stated over that knowledge, and hold whatever the other end does.

use ringbuf::traits::{Consumer, Observer, Producer, Split};
use ringbuf::{HeapCons, HeapProd, HeapRb};
use vstd::prelude::*;

verus! {

/// Greatest capacity of a queue, in samples: the storage of four bytes a
/// sample has to stay within `isize::MAX` bytes on every target.
pub const MAX_RING_CAPACITY: usize = 0x1fff_ffff;

/// A ring buffer of samples that has not been split yet: a
/// `ringbuf::HeapRb<u32>`, of which the verifier sees nothing but its name.
#[verifier::external_body]
pub struct SampleRing {
    inner: HeapRb<u32>,
}

/// The writing end of a sample queue: a `ringbuf::HeapProd<u32>`, of which
/// the verifier sees nothing but its name.
#[verifier::external_body]
pub struct SampleProducer {
    inner: HeapProd<u32>,
}

/// The reading end of a sample queue: a `ringbuf::HeapCons<u32>`, of which
/// the verifier sees nothing but its name.
#[verifier::external_body]
pub struct SampleConsumer {
    inner: HeapCons<u32>,
}

/// Number of samples that the ring was made to hold: what
/// `Observer::capacity` gives for it, constant for the ring's lifetime.
pub uninterp spec fn ring_capacity(ring: SampleRing) -> nat;

/// The samples that a ring holds before it is split, oldest first.
pub uninterp spec fn ring_contents(ring: SampleRing) -> Seq<u32>;

/// Number of samples that the queue behind this end was made to hold:
/// what `Observer::capacity` gives for it, constant for the queue's
/// lifetime.
pub uninterp spec fn producer_capacity(producer: SampleProducer) -> nat;

/// The samples that the writing end has written and does not yet know to
/// have been read, oldest first: what stands between the read index as
/// this end last fetched it and its own write index. The reading end may
/// have taken some of them since; this end learns of that with its next
/// push and not before.
pub uninterp spec fn producer_backlog(producer: SampleProducer) -> Seq<u32>;

/// The samples that the reading end knows to be stored, oldest first: what
/// stands between its own read index and the write index as this end last
/// fetched it. The writing end may have added more since; this end learns
/// of that with its next call and not before.
pub uninterp spec fn consumer_known(consumer: SampleConsumer) -> Seq<u32>;

/// What the writing end knows of the queue after a push: of what it knew
/// before, the reading end has meanwhile taken the first `read` samples,
/// and the first `written` samples of `samples` stand behind the rest.
pub open spec fn spec_pushed(before: Seq<u32>, read: int, samples: Seq<u32>, written: int) -> Seq<
    u32,
> {
    before.skip(read) + samples.take(written)
}

/// `HeapRb::<u32>::new`: allocates an empty ring of exactly `capacity`
/// slots. It panics on a capacity of zero and on one whose storage would
/// exceed `isize::MAX` bytes, so both are left out.
#[verifier::external_body]
fn ring_new(capacity: usize) -> (ring: SampleRing)
    requires
        0 < capacity <= MAX_RING_CAPACITY,
    ensures
        ring_capacity(ring) == capacity,
        ring_contents(ring) == Seq::<u32>::empty(),
{
    SampleRing { inner: HeapRb::<u32>::new(capacity) }
}

/// `Split::split` of a `HeapRb`: moves the ring behind a shared pointer and
/// hands out its two ends. Each end starts from the ring's indices as they
/// stand, so both know of all that the ring holds; the capacity stays what
/// it was.
#[verifier::external_body]
fn ring_split(ring: SampleRing) -> (ends: (SampleProducer, SampleConsumer))
    ensures
        producer_capacity(ends.0) == ring_capacity(ring),
        producer_backlog(ends.0) == ring_contents(ring),
        consumer_known(ends.1) == ring_contents(ring),
{
    let (producer, consumer) = ring.inner.split();
    (SampleProducer { inner: producer }, SampleConsumer { inner: consumer })
}

/// `Producer::push_slice` on the writing end. It fetches the read index,
/// so that it sees every slot that the reading end has freed so far, then
/// copies the first samples of `samples` into the free slots behind its
/// write index, as many as there are free slots, and moves the write index
/// on by their number, which it returns. It writes all of `samples` unless
/// that fills the queue.
#[verifier::external_body]
fn ring_push(producer: &mut SampleProducer, samples: &[u32]) -> (written: usize)
    ensures
        written <= samples@.len(),
        producer_capacity(*final(producer)) == producer_capacity(*old(producer)),
        producer_backlog(*final(producer)).len() <= producer_capacity(*old(producer)),
        written == samples@.len() || producer_backlog(*final(producer)).len() == producer_capacity(
            *old(producer),
        ),
        exists|read: int|
            0 <= read <= producer_backlog(*old(producer)).len() && producer_backlog(
                *final(producer),
            ) == #[trigger] spec_pushed(
                producer_backlog(*old(producer)),
                read,
                samples@,
                written as int,
            ),
{
    producer.inner.push_slice(samples)
}

/// `Consumer::pop_slice` on the reading end, with the first `max` slots of
/// `buffer` as its target. It fetches the write index, so that it sees
/// every sample that the writing end has added so far behind those it
/// knew of, then copies the oldest samples to the front of `buffer`, as
/// many as are stored and at most `max`, and moves the read index on by
/// their number, which it returns. It takes `max` samples unless that
/// empties the queue. The rest of `buffer` is left as it was.
#[verifier::external_body]
fn ring_pop(consumer: &mut SampleConsumer, buffer: &mut Vec<u32>, max: usize) -> (count: usize)
    requires
        max <= old(buffer)@.len(),
    ensures
        count <= max,
        final(buffer)@.len() == old(buffer)@.len(),
        forall|i: int| count <= i < old(buffer)@.len() ==> final(buffer)@[i] == old(buffer)@[i],
        count == max || consumer_known(*final(consumer)).len() == 0,
        consumer_known(*old(consumer)).is_prefix_of(
            final(buffer)@.take(count as int) + consumer_known(*final(consumer)),
        ),
{
    consumer.inner.pop_slice(&mut buffer[..max])
}

/// `Observer::occupied_len` on the reading end. It fetches the write index
/// and returns the number of samples between the read index and it: all
/// that this end then knows to be stored, which is what it knew of before
/// and what the writing end has added since. The fetch changes what this
/// end has cached, so the end is taken by a mutable reference here.
#[verifier::external_body]
pub(crate) fn ring_occupied(consumer: &mut SampleConsumer) -> (count: usize)
    ensures
        count == consumer_known(*final(consumer)).len(),
        consumer_known(*old(consumer)).is_prefix_of(consumer_known(*final(consumer))),
{
    consumer.inner.occupied_len()
}

/// Tells whether a queue of `capacity` samples can be made.
pub open spec fn spec_capacity_ok(capacity: usize) -> bool {
    0 < capacity <= MAX_RING_CAPACITY
}

/// Makes an empty queue of `capacity` samples and returns its two ends, or
/// nothing where the capacity is zero or beyond `MAX_RING_CAPACITY`.
pub fn channel(capacity: usize) -> (ends: Option<(SampleProducer, SampleConsumer)>)
    ensures
        ends is Some <==> spec_capacity_ok(capacity),
        ends matches Some(pair) ==> {
            &&& pair.0.capacity() == capacity
            &&& pair.0.backlog() == Seq::<u32>::empty()
            &&& pair.1.known() == Seq::<u32>::empty()
        },
{
    if capacity == 0 || capacity > MAX_RING_CAPACITY {
        return None;
    }
    let ring = ring_new(capacity);
    Some(ring_split(ring))
}

impl SampleProducer {
    /// Number of samples that the queue was made to hold.
    pub open spec fn capacity(self) -> nat {
        producer_capacity(self)
    }

    /// The samples that this end has written and does not yet know to have
    /// been read, oldest first.
    pub open spec fn backlog(self) -> Seq<u32> {
        producer_backlog(self)
    }

    /// Writes as many of `samples` as fit, from the front and in order,
    /// without blocking, and returns how many were written. What did not
    /// fit is the caller's to count as dropped.
    ///
    /// The samples written stand in the queue behind what this end had
    /// written before, less what the reading end has taken meanwhile. All
    /// of `samples` is written unless that fills the queue; so at least as
    /// many are written as this end knew there was room for.
    pub fn try_push(&mut self, samples: &[u32]) -> (written: usize)
        ensures
            written <= samples@.len(),
            final(self).capacity() == old(self).capacity(),
            final(self).backlog().len() <= old(self).capacity(),
            written == samples@.len() || final(self).backlog().len() == old(self).capacity(),
            exists|read: int|
                0 <= read <= old(self).backlog().len() && final(self).backlog()
                    == #[trigger] spec_pushed(old(self).backlog(), read, samples@, written as int),
            written == samples@.len() || written + old(self).backlog().len()
                >= old(self).capacity(),
    {
        let written: usize = ring_push(self, samples);
        proof {
            let before = old(self).backlog();
            let read = choose|read: int|
                0 <= read <= before.len() && self.backlog() == #[trigger] spec_pushed(
                    before,
                    read,
                    samples@,
                    written as int,
                );
            assert(self.backlog() == spec_pushed(before, read, samples@, written as int));
            assert(self.backlog().len() == before.len() - read + written);
        }
        written
    }
}

impl SampleConsumer {
    /// The samples that this end knows to be stored, oldest first.
    pub open spec fn known(self) -> Seq<u32> {
        consumer_known(self)
    }

    /// Takes up to `max` of the oldest samples, and no more than `buffer`
    /// has room for, into the front of `buffer` without blocking. Returns
    /// how many were taken; the rest of `buffer` keeps its contents.
    ///
    /// The samples taken are the oldest in the queue, oldest first: those
    /// that this end knew of, in their order, then what has arrived since.
    /// As many are taken as there is room for unless that empties the
    /// queue; so at least as many are taken as this end knew to be stored,
    /// up to the room.
    pub fn pop_into(&mut self, buffer: &mut Vec<u32>, max: usize) -> (count: usize)
        ensures
            count <= max,
            count <= old(buffer)@.len(),
            final(buffer)@.len() == old(buffer)@.len(),
            forall|i: int|
                count <= i < old(buffer)@.len() ==> final(buffer)@[i] == old(buffer)@[i],
            count == max || count == old(buffer)@.len() || final(self).known().len() == 0,
            old(self).known().is_prefix_of(
                final(buffer)@.take(count as int) + final(self).known(),
            ),
            count == max || count == old(buffer)@.len() || count >= old(self).known().len(),
    {
        let room: usize = if max <= buffer.len() {
            max
        } else {
            buffer.len()
        };
        ring_pop(self, buffer, room)
    }

    /// Takes up to `max` of the oldest samples without blocking and returns
    /// them oldest first: those that this end knew of, in their order, then
    /// what has arrived since. `max` samples are taken unless that empties
    /// the queue; so at least as many are taken as this end knew to be
    /// stored, up to `max`.
    pub fn try_pop(&mut self, max: usize) -> (samples: Vec<u32>)
        ensures
            samples@.len() <= max,
            samples@.len() == max || final(self).known().len() == 0,
            old(self).known().is_prefix_of(samples@ + final(self).known()),
            samples@.len() == max || samples@.len() >= old(self).known().len(),
    {
        let mut samples: Vec<u32> = Vec::new();
        samples.resize(max, 0);
        let count: usize = ring_pop(self, &mut samples, max);
        let ghost filled = samples@;
        samples.truncate(count);
        assert(samples@ =~= filled.take(count as int));
        samples
    }
}

} // verus!
