//! The inter-context byte queue: a fixed-capacity single-producer,
//! single-consumer ring buffer carrying raw input bytes from interrupt
//! context to the main loop.
//!
//! Overflow policy: a byte offered to a full queue is dropped, never
//! blocked on; accepted bytes reach the consumer in exactly the order
//! they were produced, with no duplication.

use vstd::prelude::*;

verus! {

/// Usable capacity of the queue (the ring keeps one slot free).
pub const QUEUE_CAPACITY: usize = 255;

/// Holds the heapless single-producer, single-consumer ring; Verus sees it
/// only through `queue_bytes` and the trusted accessors below.
#[verifier::external_body]
pub struct RawByteQueue {
    inner: heapless::spsc::Queue<u8, 256>,
}

/// The bytes a queue holds, front (next to be dequeued) first.
pub uninterp spec fn queue_bytes(q: RawByteQueue) -> Seq<u8>;

/// Relies on `heapless::spsc::Queue::new`: creates an empty queue
/// (head and tail both start at zero).
#[verifier::external_body]
fn queue_new() -> (q: RawByteQueue)
    ensures
        queue_bytes(q) == Seq::<u8>::empty(),
{
    RawByteQueue { inner: heapless::spsc::Queue::new() }
}

/// Relies on `heapless::spsc::Queue::enqueue`: adds the item at the back
/// unless the queue already holds `N - 1` items, in which case it hands the
/// item back unchanged.
#[verifier::external_body]
fn queue_enqueue(q: &mut RawByteQueue, byte: u8) -> (r: bool)
    ensures
        queue_bytes(*old(q)).len() < QUEUE_CAPACITY ==> r && queue_bytes(*final(q)) == queue_bytes(
            *old(q),
        ).push(byte),
        queue_bytes(*old(q)).len() >= QUEUE_CAPACITY ==> !r && queue_bytes(*final(q))
            == queue_bytes(*old(q)),
{
    q.inner.enqueue(byte).is_ok()
}

/// Relies on `heapless::spsc::Queue::dequeue`: removes and returns the item
/// at the front, or `None` when the queue is empty.
#[verifier::external_body]
fn queue_dequeue(q: &mut RawByteQueue) -> (r: Option<u8>)
    ensures
        queue_bytes(*old(q)).len() == 0 ==> r is None && queue_bytes(*final(q)) == queue_bytes(
            *old(q),
        ),
        queue_bytes(*old(q)).len() > 0 ==> r == Some(queue_bytes(*old(q))[0]) && queue_bytes(
            *final(q),
        ) == queue_bytes(*old(q)).drop_first(),
{
    q.inner.dequeue()
}

/// Relies on `heapless::spsc::Queue::len`: the number of items held.
#[verifier::external_body]
fn queue_len(q: &RawByteQueue) -> (r: usize)
    ensures
        r == queue_bytes(*q).len(),
{
    q.inner.len()
}

/// What an enqueue does to the queue's contents: append when there is room,
/// drop the byte when there is none.
pub open spec fn spec_enqueue(c: Seq<u8>, b: u8) -> Seq<u8> {
    if c.len() < QUEUE_CAPACITY {
        c.push(b)
    } else {
        c
    }
}

/// The contents after offering `bs[i..]` in order.
pub open spec fn spec_enqueue_all(c: Seq<u8>, bs: Seq<u8>, i: int) -> Seq<u8>
    decreases bs.len() - i,
{
    if i < 0 || i >= bs.len() {
        c
    } else {
        spec_enqueue_all(spec_enqueue(c, bs[i]), bs, i + 1)
    }
}

/// The fixed-capacity byte queue between interrupt context and main loop.
pub struct ByteQueue {
    inner: RawByteQueue,
}

impl ByteQueue {
    /// The bytes currently queued, front first.
    pub closed spec fn contents(&self) -> Seq<u8> {
        queue_bytes(self.inner)
    }

    pub fn new() -> (r: Self)
        ensures
            r.contents() == Seq::<u8>::empty(),
    {
        ByteQueue { inner: queue_new() }
    }

    /// Offer one byte: accepted (true) and appended in FIFO position when
    /// the queue has room, silently dropped (false) when it is full.
    pub fn enqueue(&mut self, byte: u8) -> (r: bool)
        ensures
            final(self).contents() == spec_enqueue(old(self).contents(), byte),
            r == (old(self).contents().len() < QUEUE_CAPACITY),
    {
        queue_enqueue(&mut self.inner, byte)
    }

    /// Take the oldest byte, or `None` when the queue is empty.
    pub fn dequeue(&mut self) -> (r: Option<u8>)
        ensures
            old(self).contents().len() == 0 ==> r is None && final(self).contents()
                == old(self).contents(),
            old(self).contents().len() > 0 ==> r == Some(old(self).contents()[0])
                && final(self).contents() == old(self).contents().drop_first(),
    {
        queue_dequeue(&mut self.inner)
    }

    /// How many bytes are queued.
    pub fn len(&self) -> (r: usize)
        ensures
            r == self.contents().len(),
    {
        queue_len(&self.inner)
    }
}

proof fn lemma_enqueue_all_fills(c: Seq<u8>, bs: Seq<u8>, i: int)
    requires
        0 <= i <= bs.len(),
        c.len() <= QUEUE_CAPACITY,
    ensures
        spec_enqueue_all(c, bs, i) == c + bs.subrange(
            i,
            i + min_int(QUEUE_CAPACITY - c.len(), bs.len() - i),
        ),
    decreases bs.len() - i,
{
    if i == bs.len() {
        assert(spec_enqueue_all(c, bs, i) =~= c + bs.subrange(i, i));
    } else if c.len() < QUEUE_CAPACITY {
        lemma_enqueue_all_fills(c.push(bs[i]), bs, i + 1);
        assert(c + bs.subrange(i, i + min_int(QUEUE_CAPACITY - c.len(), bs.len() - i)) =~= c.push(
            bs[i],
        ) + bs.subrange(i + 1, i + 1 + min_int(QUEUE_CAPACITY - c.len() - 1, bs.len() - i - 1)));
    } else {
        lemma_enqueue_all_fills(c, bs, i + 1);
        assert(c + bs.subrange(i, i) =~= c);
        assert(bs.subrange(i + 1, i + 1) =~= bs.subrange(i, i));
    }
}

/// The smaller of two integers.
pub open spec fn min_int(a: int, b: int) -> int {
    if a <= b {
        a
    } else {
        b
    }
}

/// Queue-overflow law: offering any byte sequence to an empty queue accepts
/// exactly the first `QUEUE_CAPACITY` bytes (all of them when they fit),
/// preserves their order, and drops the excess.
pub proof fn lemma_queue_overflow(bs: Seq<u8>)
    ensures
        spec_enqueue_all(Seq::<u8>::empty(), bs, 0) == bs.take(
            min_int(QUEUE_CAPACITY as int, bs.len() as int),
        ),
{
    lemma_enqueue_all_fills(Seq::<u8>::empty(), bs, 0);
    assert(Seq::<u8>::empty() + bs.subrange(0, min_int(QUEUE_CAPACITY as int, bs.len() as int))
        =~= bs.take(min_int(QUEUE_CAPACITY as int, bs.len() as int)));
}

} // verus!
