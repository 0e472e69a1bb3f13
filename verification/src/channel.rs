//! The event bus: a bounded broadcast buffer that never blocks its
//! producer. When full, the oldest entry is discarded; every entry carries
//! a monotonic sequence number, so a consumer that fell behind can detect
//! the loss and resume from the oldest retained entry.

use vstd::prelude::*;

verus! {

/// A bounded broadcast buffer. Consumers read by sequence number at their
/// own pace.
pub struct BroadcastBuffer<T> {
    /// The retained entries, oldest first.
    items: Vec<T>,
    /// Sequence number of the oldest retained entry.
    first_seq: u64,
    /// Largest number of entries retained; the oldest is discarded beyond
    /// it.
    capacity: usize,
}

impl<T> BroadcastBuffer<T> {
    /// The retained entries, oldest first.
    pub closed spec fn spec_items(self) -> Seq<T> {
        self.items@
    }

    /// Sequence number of the oldest retained entry.
    pub closed spec fn spec_first_seq(self) -> u64 {
        self.first_seq
    }

    /// Sequence number the next published entry will carry.
    pub open spec fn spec_next_seq(self) -> int {
        self.spec_first_seq() + self.spec_items().len()
    }

    /// The configured bound.
    pub closed spec fn spec_capacity(self) -> usize {
        self.capacity
    }

    pub closed spec fn wf(self) -> bool {
        &&& self.capacity > 0
        &&& self.items@.len() <= self.capacity
        &&& self.first_seq + self.items@.len() <= u64::MAX
    }

    /// An empty buffer with the given bound.
    pub fn new(capacity: usize) -> (r: Self)
        requires
            capacity > 0,
        ensures
            r.wf(),
            r.spec_items() == Seq::<T>::empty(),
            r.spec_first_seq() == 0,
            r.spec_capacity() == capacity,
    {
        BroadcastBuffer { items: Vec::new(), first_seq: 0, capacity }
    }

    /// Publish an entry; the producer is never blocked. A full buffer
    /// discards its oldest entry; the sequence numbering is unaffected by
    /// the loss.
    pub fn publish(&mut self, item: T) -> (seq: u64)
        requires
            old(self).wf(),
            old(self).spec_next_seq() < u64::MAX,
        ensures
            final(self).wf(),
            seq == old(self).spec_next_seq(),
            final(self).spec_capacity() == old(self).spec_capacity(),
            old(self).spec_items().len() < old(self).spec_capacity() ==> {
                &&& final(self).spec_items() == old(self).spec_items().push(item)
                &&& final(self).spec_first_seq() == old(self).spec_first_seq()
            },
            old(self).spec_items().len() == old(self).spec_capacity() ==> {
                &&& final(self).spec_items() == old(self).spec_items().drop_first().push(item)
                &&& final(self).spec_first_seq() == old(self).spec_first_seq() + 1
            },
    {
        let seq = self.first_seq + (self.items.len() as u64);
        if self.items.len() == self.capacity {
            let _oldest = self.items.remove(0);
            self.first_seq = self.first_seq + 1;
            proof {
                assert(self.items@ =~= old(self).items@.drop_first());
            }
        }
        self.items.push(item);
        proof {
            if old(self).items@.len() < old(self).capacity {
                assert(self.items@ =~= old(self).items@.push(item));
            } else {
                assert(self.items@ =~= old(self).items@.drop_first().push(item));
            }
        }
        seq
    }

    /// The entry carrying a sequence number, while it is retained: too old
    /// and it was lost to overflow, too new and it was not published yet.
    pub fn get(&self, seq: u64) -> (r: Option<&T>)
        requires
            self.wf(),
        ensures
            match r {
                Some(item) => self.spec_first_seq() <= seq && seq < self.spec_next_seq() && *item
                    == self.spec_items()[seq - self.spec_first_seq()],
                None => seq < self.spec_first_seq() || seq >= self.spec_next_seq(),
            },
    {
        if seq < self.first_seq {
            return None;
        }
        let offset = seq - self.first_seq;
        if offset >= self.items.len() as u64 {
            return None;
        }
        Some(&self.items[offset as usize])
    }

    /// Sequence number of the oldest retained entry: a consumer whose
    /// cursor lies below it has lost entries to overflow.
    pub fn first_seq(&self) -> (r: u64)
        ensures
            r == self.spec_first_seq(),
    {
        self.first_seq
    }

    /// Sequence number the next published entry will carry.
    pub fn next_seq(&self) -> (r: u64)
        requires
            self.wf(),
        ensures
            r == self.spec_next_seq(),
    {
        self.first_seq + (self.items.len() as u64)
    }

    /// How many entries are retained.
    pub fn len(&self) -> (r: usize)
        ensures
            r == self.spec_items().len(),
    {
        self.items.len()
    }
}

/// A consumer's cursor into a broadcast buffer.
pub struct BusCursor {
    /// The next sequence number this consumer will read.
    pub next: u64,
}

/// What a consumer sees when it polls the buffer.
pub enum BusPoll<'a, T> {
    /// The next entry, in order.
    Item(&'a T),
    /// Nothing new yet.
    Empty,
    /// Entries were lost to overflow; the cursor was moved to the oldest
    /// retained entry and how many were missed is reported.
    Lagged(u64),
}

impl BusCursor {
    /// A cursor starting at the next entry to be published: earlier
    /// entries are not replayed.
    pub fn new<T>(bus: &BroadcastBuffer<T>) -> (r: BusCursor)
        requires
            bus.wf(),
        ensures
            r.next == bus.spec_next_seq(),
    {
        BusCursor { next: bus.next_seq() }
    }

    /// Poll the buffer: the next entry in order, or how many entries this
    /// consumer lost to overflow.
    pub fn poll<'a, T>(&mut self, bus: &'a BroadcastBuffer<T>) -> (r: BusPoll<'a, T>)
        requires
            bus.wf(),
        ensures
            match r {
                BusPoll::Item(item) => old(self).next >= bus.spec_first_seq() && old(self).next
                    < bus.spec_next_seq() && *item == bus.spec_items()[old(self).next
                    - bus.spec_first_seq()] && final(self).next == old(self).next + 1,
                BusPoll::Empty => old(self).next >= bus.spec_next_seq() && final(self).next == old(
                    self,
                ).next,
                BusPoll::Lagged(missed) => old(self).next < bus.spec_first_seq() && missed
                    == bus.spec_first_seq() - old(self).next && final(self).next
                    == bus.spec_first_seq(),
            },
    {
        if self.next < bus.first_seq() {
            let missed = bus.first_seq() - self.next;
            self.next = bus.first_seq();
            return BusPoll::Lagged(missed);
        }
        match bus.get(self.next) {
            Some(item) => {
                self.next = self.next + 1;
                BusPoll::Item(item)
            },
            None => BusPoll::Empty,
        }
    }
}

} // verus!
