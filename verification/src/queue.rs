//! The bounded relay queue: a fixed-capacity first-in-first-out buffer
//! of raw frame payloads between a reading pump and a writing pump.
//!
//! The producer may only push while there is a free slot — awaiting one
//! is the bridge's sole backpressure — and the consumer takes payloads
//! strictly in arrival order. `relay_in_order` shows that moving any
//! run of frames through such a queue, however the pushes and pops
//! interleave around a full queue, delivers them unchanged and in order.

use vstd::prelude::*;

verus! {

/// The fixed capacity of each of the bridge's two relay queues.
pub const QUEUE_CAPACITY: usize = 10;

/// A bounded FIFO queue of frame payloads.
pub struct RelayQueue {
    items: Vec<Vec<u8>>,
    capacity: usize,
}

impl View for RelayQueue {
    type V = Seq<Seq<u8>>;

    /// The queued payloads, oldest first.
    closed spec fn view(&self) -> Seq<Seq<u8>> {
        self.items.deep_view()
    }
}

impl RelayQueue {
    /// The fixed number of slots the queue was created with.
    pub closed spec fn spec_capacity(&self) -> nat {
        self.capacity as nat
    }

    /// The queue never holds more than its capacity, and has at least
    /// one slot.
    pub open spec fn well_formed(&self) -> bool {
        1 <= self.spec_capacity() && self@.len() <= self.spec_capacity()
    }

    /// Whether every slot is taken, so that a producer must wait.
    pub open spec fn spec_is_full(&self) -> bool {
        self@.len() == self.spec_capacity()
    }

    /// An empty queue with the given number of slots.
    pub fn new(capacity: usize) -> (q: RelayQueue)
        requires
            1 <= capacity,
        ensures
            q.well_formed(),
            q@ == Seq::<Seq<u8>>::empty(),
            q.spec_capacity() == capacity,
    {
        let items: Vec<Vec<u8>> = Vec::new();
        proof {
            assert(items.deep_view() =~= Seq::<Seq<u8>>::empty());
        }
        RelayQueue { items, capacity }
    }

    /// How many payloads are queued.
    pub fn len(&self) -> (n: usize)
        ensures
            n == self@.len(),
    {
        self.items.len()
    }

    /// Whether the queue is full.
    pub fn is_full(&self) -> (b: bool)
        ensures
            b == self.spec_is_full(),
    {
        self.items.len() == self.capacity
    }

    /// Producer side: appends a payload. The caller must have awaited a
    /// free slot first.
    pub fn push(&mut self, payload: Vec<u8>)
        requires
            old(self).well_formed(),
            !old(self).spec_is_full(),
        ensures
            final(self).well_formed(),
            final(self).spec_capacity() == old(self).spec_capacity(),
            final(self)@ == old(self)@.push(payload@),
    {
        let ghost before = self.items.deep_view();
        self.items.push(payload);
        proof {
            assert(self.items.deep_view() =~= before.push(payload.deep_view()));
            assert(payload.deep_view() =~= payload@);
        }
    }

    /// Consumer side: removes and returns the oldest payload.
    pub fn pop(&mut self) -> (payload: Vec<u8>)
        requires
            old(self).well_formed(),
            old(self)@.len() > 0,
        ensures
            final(self).well_formed(),
            final(self).spec_capacity() == old(self).spec_capacity(),
            payload@ == old(self)@[0],
            final(self)@ == old(self)@.drop_first(),
    {
        let ghost before = self.items.deep_view();
        let payload = self.items.remove(0);
        proof {
            assert(self.items.deep_view() =~= before.drop_first());
            assert(payload.deep_view() =~= payload@);
        }
        payload
    }
}

/// Ordering through the queue: a producer pushing `frames` front to
/// back and a consumer popping whenever the producer must wait (and
/// draining once the producer is done) hand every frame through
/// unchanged and in order, for any capacity of at least one slot —
/// in particular when the frame count exceeds the capacity.
pub fn relay_in_order(frames: Vec<Vec<u8>>, capacity: usize) -> (out: Vec<Vec<u8>>)
    requires
        1 <= capacity,
    ensures
        out.deep_view() == frames.deep_view(),
{
    let ghost orig = frames.deep_view();
    let mut input = frames;
    let mut q = RelayQueue::new(capacity);
    let mut out: Vec<Vec<u8>> = Vec::new();
    proof {
        assert(out.deep_view() + q@ + input.deep_view() =~= orig);
    }
    while input.len() > 0 || q.len() > 0
        invariant
            q.well_formed(),
            q.spec_capacity() == capacity,
            out.deep_view() + q@ + input.deep_view() == orig,
        decreases 2 * input@.len() + q@.len(),
    {
        let ghost out_before = out.deep_view();
        let ghost q_before = q@;
        let ghost input_before = input.deep_view();
        if input.len() > 0 && !q.is_full() {
            let payload = input.remove(0);
            proof {
                assert(input.deep_view() =~= input_before.drop_first());
                assert(payload.deep_view() =~= payload@);
            }
            q.push(payload);
            proof {
                assert(out.deep_view() + q@ + input.deep_view() =~= orig);
            }
        } else {
            let payload = q.pop();
            out.push(payload);
            proof {
                assert(payload.deep_view() =~= payload@);
                assert(out.deep_view() =~= out_before.push(payload@));
                assert(out.deep_view() + q@ + input.deep_view() =~= orig);
            }
        }
    }
    proof {
        assert(out.deep_view() =~= orig);
    }
    out
}

} // verus!
