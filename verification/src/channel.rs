//! Fixed-capacity queue with drop-on-full send and non-blocking receive.
//!
//! Every raw notification and packet that reaches the core travels through one
//! of these channels.  A producer never blocks: when the channel is full the
//! item is dropped and the producer is told so.  A consumer drains items in
//! first-in-first-out order.

use std::collections::VecDeque;
use vstd::prelude::*;

verus! {

/// A bounded first-in-first-out queue.
///
/// `send` refuses (and reports) an item when the queue already holds
/// `capacity` items, so a producer can never grow the queue without bound and
/// never has to wait.  `recv` takes the oldest item, if any.
pub struct BoundedChannel<T> {
    items: VecDeque<T>,
    capacity: usize,
}

impl<T> BoundedChannel<T> {
    /// The queued items, oldest first.
    pub closed spec fn contents(self) -> Seq<T> {
        self.items@
    }

    /// The fixed capacity the channel was created with.
    pub closed spec fn cap(self) -> nat {
        self.capacity as nat
    }

    /// The channel never holds more items than its capacity.
    pub open spec fn wf(self) -> bool {
        self.contents().len() <= self.cap()
    }

    /// Create an empty channel that will hold at most `capacity` items.
    pub fn new(capacity: usize) -> (c: Self)
        ensures
            c.wf(),
            c.contents() == Seq::<T>::empty(),
            c.cap() == capacity,
    {
        BoundedChannel { items: VecDeque::new(), capacity }
    }

    /// How many items are queued.
    pub fn len(&self) -> (n: usize)
        ensures
            n == self.contents().len(),
    {
        self.items.len()
    }

    /// Whether the channel holds no items.
    pub fn is_empty(&self) -> (b: bool)
        ensures
            b == (self.contents().len() == 0),
    {
        self.items.len() == 0
    }

    /// Non-blocking send.  When the channel is full the item is dropped and
    /// `false` is returned; otherwise the item is appended behind every item
    /// already queued.
    pub fn send(&mut self, item: T) -> (accepted: bool)
        requires
            old(self).wf(),
        ensures
            final(self).wf(),
            final(self).cap() == old(self).cap(),
            accepted == (old(self).contents().len() < old(self).cap()),
            accepted ==> final(self).contents() == old(self).contents().push(item),
            !accepted ==> final(self).contents() == old(self).contents(),
    {
        if self.items.len() < self.capacity {
            self.items.push_back(item);
            true
        } else {
            false
        }
    }

    /// Non-blocking receive of the oldest item; `None` when the channel is
    /// empty.
    pub fn recv(&mut self) -> (r: Option<T>)
        ensures
            final(self).cap() == old(self).cap(),
            old(self).wf() ==> final(self).wf(),
            old(self).contents().len() == 0 ==> r is None
                && final(self).contents() == old(self).contents(),
            old(self).contents().len() > 0 ==> r == Some(old(self).contents()[0])
                && final(self).contents() == old(self).contents().drop_first(),
    {
        self.items.pop_front()
    }
}

} // verus!
