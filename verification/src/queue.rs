//! The bounded queue between the producers of commands and the dispatcher.
//!
//! Commands leave in the order in which they were accepted. A full queue
//! refuses a command and hands it back, so the producer keeps it and offers
//! it again once a slot is free: nothing is dropped.

use vstd::prelude::*;
use std::collections::VecDeque;

verus! {

/// How many commands the gateway's queue holds.
pub const COMMAND_QUEUE_CAPACITY: usize = 4096;

/// A first-in, first-out queue of at most `capacity()` items, which also
/// records, for proofs only, everything it ever accepted and handed out.
pub struct CommandQueue<T> {
    pending: VecDeque<T>,
    capacity: usize,
    sent: Ghost<Seq<T>>,
    received: Ghost<Seq<T>>,
}

impl<T> CommandQueue<T> {
    /// The items that wait, oldest first.
    pub closed spec fn view(&self) -> Seq<T> {
        self.pending@
    }

    /// The most items that may wait at once.
    pub closed spec fn capacity(&self) -> nat {
        self.capacity as nat
    }

    /// Every item the queue has accepted, in order of acceptance.
    pub closed spec fn sent(&self) -> Seq<T> {
        self.sent@
    }

    /// Every item the queue has handed out, in that order.
    pub closed spec fn received(&self) -> Seq<T> {
        self.received@
    }

    #[verifier::type_invariant]
    pub closed spec fn inv(&self) -> bool {
        &&& self.pending@.len() <= self.capacity
        &&& self.sent@ == self.received@ + self.pending@
    }

    /// In every state the accepted items are those handed out followed by those
    /// that wait: none was dropped, none reordered, and the bound holds.
    pub proof fn lemma_nothing_dropped(&self)
        requires
            self.inv(),
        ensures
            self.sent() == self.received() + self@,
            self.sent().len() == self.received().len() + self@.len(),
            self@.len() <= self.capacity(),
    {
    }

    /// Handing out an item of a queue frees a slot: the next offer is accepted.
    pub proof fn lemma_taking_frees_a_slot(before: &Self, after: &Self)
        requires
            before.inv(),
            before@.len() > 0,
            after@ == before@.drop_first(),
            after.capacity() == before.capacity(),
        ensures
            after@.len() < after.capacity(),
    {
    }

    /// An empty queue that holds at most `capacity` items.
    pub fn new(capacity: usize) -> (q: Self)
        ensures
            q@ == Seq::<T>::empty(),
            q.capacity() == capacity,
            q.sent() == Seq::<T>::empty(),
            q.received() == Seq::<T>::empty(),
    {
        let q = CommandQueue {
            pending: VecDeque::new(),
            capacity,
            sent: Ghost(Seq::empty()),
            received: Ghost(Seq::empty()),
        };
        assert(q.sent@ =~= q.received@ + q.pending@);
        q
    }

    /// How many items wait.
    pub fn len(&self) -> (n: usize)
        ensures
            n == self@.len(),
    {
        self.pending.len()
    }

    /// Whether no item waits.
    pub fn is_empty(&self) -> (r: bool)
        ensures
            r == (self@.len() == 0),
    {
        self.pending.len() == 0
    }

    /// Whether the next `try_send` would be refused.
    pub fn is_full(&self) -> (r: bool)
        ensures
            r == (self@.len() >= self.capacity()),
    {
        self.pending.len() >= self.capacity
    }

    /// Offers `item`. With a free slot it joins the end of the queue; a full
    /// queue stays as it is and gives the item back.
    pub fn try_send(&mut self, item: T) -> (r: Result<(), T>)
        ensures
            final(self).capacity() == old(self).capacity(),
            final(self).received() == old(self).received(),
            old(self)@.len() < old(self).capacity() ==> {
                &&& r is Ok
                &&& final(self)@ == old(self)@.push(item)
                &&& final(self).sent() == old(self).sent().push(item)
            },
            old(self)@.len() >= old(self).capacity() ==> {
                &&& r == Err::<(), T>(item)
                &&& final(self)@ == old(self)@
                &&& final(self).sent() == old(self).sent()
            },
    {
        proof {
            use_type_invariant(&*self);
        }
        if self.pending.len() >= self.capacity {
            return Err(item);
        }
        let mut taken = CommandQueue::new(self.capacity);
        std::mem::swap(&mut taken, self);
        let CommandQueue { mut pending, capacity, sent, received } = taken;
        pending.push_back(item);
        proof {
            assert(sent@.push(item) =~= received@ + pending@);
        }
        *self = CommandQueue { pending, capacity, sent: Ghost(sent@.push(item)), received };
        Ok(())
    }

    /// Takes the oldest waiting item, if there is one.
    pub fn recv(&mut self) -> (r: Option<T>)
        ensures
            final(self).capacity() == old(self).capacity(),
            final(self).sent() == old(self).sent(),
            old(self)@.len() > 0 ==> {
                &&& r == Some(old(self)@[0])
                &&& final(self)@ == old(self)@.drop_first()
                &&& final(self).received() == old(self).received().push(old(self)@[0])
            },
            old(self)@.len() == 0 ==> {
                &&& r is None
                &&& final(self)@ == old(self)@
                &&& final(self).received() == old(self).received()
            },
    {
        proof {
            use_type_invariant(&*self);
        }
        if self.pending.len() == 0 {
            return None;
        }
        let mut taken = CommandQueue::new(self.capacity);
        std::mem::swap(&mut taken, self);
        let CommandQueue { mut pending, capacity, sent, received } = taken;
        let ghost first = pending@[0];
        let item = pending.pop_front();
        proof {
            assert(pending@ =~= old(self).pending@.drop_first());
            assert(sent@ =~= received@.push(first) + pending@);
        }
        *self = CommandQueue { pending, capacity, sent, received: Ghost(received@.push(first)) };
        item
    }
}

} // verus!
