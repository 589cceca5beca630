//! The dispatch channel between schedulers and the worker pool, modelled as a
//! bounded first-in-first-out queue of repository handles (indices). A full
//! queue never drops or reorders a handle: an offer to a full queue leaves it
//! unchanged and tells the producer to wait — that refusal is the
//! backpressure that throttles scheduling when workers are slow.

use vstd::prelude::*;

verus! {

/// A bounded multi-producer hand-off queue of repository handles.
pub struct DispatchQueue {
    items: Vec<usize>,
    capacity: usize,
}

impl DispatchQueue {
    /// The handles currently queued, oldest first.
    pub closed spec fn contents(self) -> Seq<usize> {
        self.items@
    }

    /// The fixed bound the queue was created with.
    pub closed spec fn bound(self) -> usize {
        self.capacity
    }

    /// The queue never holds more handles than its bound.
    pub closed spec fn wf(self) -> bool {
        self.items@.len() <= self.capacity
    }

    /// Create an empty queue with the given bound.
    pub fn new(capacity: usize) -> (q: Self)
        ensures
            q.wf(),
            q.bound() == capacity,
            q.contents() == Seq::<usize>::empty(),
    {
        DispatchQueue { items: Vec::new(), capacity }
    }

    /// Offer a handle to the queue. When the queue is full the offer is
    /// refused and the queue is left exactly as it was — the handle is not
    /// dropped, the producer must wait and offer it again. Otherwise the
    /// handle is appended after all earlier ones.
    pub fn try_send(&mut self, repo: usize) -> (accepted: bool)
        requires
            old(self).wf(),
        ensures
            final(self).wf(),
            final(self).bound() == old(self).bound(),
            accepted <==> old(self).contents().len() < old(self).bound(),
            accepted ==> final(self).contents() == old(self).contents().push(repo),
            !accepted ==> final(self).contents() == old(self).contents(),
    {
        if self.items.len() < self.capacity {
            self.items.push(repo);
            true
        } else {
            false
        }
    }

    /// Take the oldest handle, if any: dispatch order is first-offered,
    /// first-taken.
    pub fn try_recv(&mut self) -> (r: Option<usize>)
        requires
            old(self).wf(),
        ensures
            final(self).wf(),
            final(self).bound() == old(self).bound(),
            old(self).contents().len() == 0 ==> r is None && final(self).contents()
                == old(self).contents(),
            old(self).contents().len() > 0 ==> r == Some(old(self).contents()[0])
                && final(self).contents() == old(self).contents().skip(1),
    {
        if self.items.len() == 0 {
            None
        } else {
            let first = self.items.remove(0);
            proof {
                assert(self.items@ =~= old(self).items@.skip(1));
            }
            Some(first)
        }
    }

    /// How many handles are queued.
    pub fn len(&self) -> (n: usize)
        ensures
            n == self.contents().len(),
    {
        self.items.len()
    }

    /// Whether an offer would currently be refused.
    pub fn is_full(&self) -> (b: bool)
        ensures
            b <==> self.contents().len() >= self.bound(),
    {
        self.items.len() >= self.capacity
    }
}

} // verus!
