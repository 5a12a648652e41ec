//! The bounded byte queue between the receive interrupt and the worker.
use vstd::prelude::*;

verus! {

/// How many bytes the queue holds at most.
pub const INGEST_CAPACITY: usize = 320;

/// The slot `offset` places after `head` in a ring of `INGEST_CAPACITY` slots.
spec fn ring_index(head: int, offset: int) -> int {
    if head + offset < INGEST_CAPACITY {
        head + offset
    } else {
        head + offset - INGEST_CAPACITY
    }
}

/// A fixed-size ring of bytes with one producer and one consumer. When it
/// is full an incoming byte is dropped, so what is already queued is kept.
pub struct IngestQueue {
    slots: Vec<u8>,
    head: usize,
    len: usize,
}

impl View for IngestQueue {
    type V = Seq<u8>;

    /// The queued bytes, oldest first.
    closed spec fn view(&self) -> Seq<u8> {
        Seq::new(self.len as nat, |i: int| self.slots@[ring_index(self.head as int, i)])
    }
}

impl IngestQueue {
    /// The ring's shape holds together.
    pub closed spec fn wf(&self) -> bool {
        &&& self.slots@.len() == INGEST_CAPACITY
        &&& self.head < INGEST_CAPACITY
        &&& self.len <= INGEST_CAPACITY
    }

    /// An empty queue.
    pub fn new() -> (q: IngestQueue)
        ensures
            q.wf(),
            q@ == Seq::<u8>::empty(),
    {
        let mut slots: Vec<u8> = Vec::with_capacity(INGEST_CAPACITY);
        let mut i: usize = 0;
        while i < INGEST_CAPACITY
            invariant
                i <= INGEST_CAPACITY,
                slots@.len() == i,
            decreases INGEST_CAPACITY - i,
        {
            slots.push(0);
            i = i + 1;
        }
        let q = IngestQueue { slots, head: 0, len: 0 };
        proof {
            assert(q@ =~= Seq::<u8>::empty());
        }
        q
    }

    /// The number of queued bytes.
    pub fn len(&self) -> (r: usize)
        requires
            self.wf(),
        ensures
            r == self@.len(),
    {
        self.len
    }

    /// Queues `byte` unless the queue is full; tells whether it was queued.
    pub fn push(&mut self, byte: u8) -> (stored: bool)
        requires
            old(self).wf(),
        ensures
            final(self).wf(),
            stored == (old(self)@.len() < INGEST_CAPACITY),
            stored ==> final(self)@ == old(self)@.push(byte),
            !stored ==> final(self)@ == old(self)@,
    {
        if self.len == INGEST_CAPACITY {
            return false;
        }
        let slot: usize = if self.head + self.len < INGEST_CAPACITY {
            self.head + self.len
        } else {
            self.head + self.len - INGEST_CAPACITY
        };
        let ghost before = self@;
        self.slots.set(slot, byte);
        self.len = self.len + 1;
        proof {
            assert forall|i: int| 0 <= i < before.len() implies self@[i] == before[i] by {
                assert(ring_index(self.head as int, i) != slot);
            }
            assert(self@ =~= before.push(byte));
        }
        true
    }

    /// Takes the oldest byte, if any.
    pub fn pop(&mut self) -> (r: Option<u8>)
        requires
            old(self).wf(),
        ensures
            final(self).wf(),
            old(self)@.len() == 0 ==> r is None && final(self)@ == old(self)@,
            old(self)@.len() > 0 ==> r == Some(old(self)@[0]) && final(self)@ == old(
                self,
            )@.drop_first(),
    {
        if self.len == 0 {
            return None;
        }
        let ghost before = self@;
        let byte = self.slots[self.head];
        self.head = if self.head + 1 == INGEST_CAPACITY {
            0
        } else {
            self.head + 1
        };
        self.len = self.len - 1;
        proof {
            assert forall|i: int| 0 <= i < self@.len() implies self@[i] == before.drop_first()[i] by {
                assert(ring_index(self.head as int, i) == ring_index(
                    old(self).head as int,
                    i + 1,
                ));
            }
            assert(self@ =~= before.drop_first());
        }
        Some(byte)
    }

    /// Drops every queued byte.
    pub fn clear(&mut self)
        requires
            old(self).wf(),
        ensures
            final(self).wf(),
            final(self)@ == Seq::<u8>::empty(),
    {
        self.len = 0;
        proof {
            assert(self@ =~= Seq::<u8>::empty());
        }
    }
}

} // verus!
