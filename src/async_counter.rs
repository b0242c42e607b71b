//! A counter that tasks can wait on.
use vstd::prelude::*;
use crate::raw::Poll;

verus! {

/// An unsigned count with a slot for the waker of one waiting task.
pub struct AsyncCounter {
    value: usize,
    waker: bool,
}

impl AsyncCounter {
    pub closed spec fn spec_value(&self) -> usize {
        self.value
    }

    /// Whether a task waker sits in the slot.
    pub closed spec fn has_waker(&self) -> bool {
        self.waker
    }

    pub fn new(value: usize) -> (r: AsyncCounter)
        ensures
            r.spec_value() == value,
            !r.has_waker(),
    {
        AsyncCounter { value, waker: false }
    }

    pub fn value(&self) -> (r: usize)
        ensures
            r == self.spec_value(),
    {
        self.value
    }

    /// Increases the count and wakes the waiting task.
    pub fn add(&mut self, value: usize)
        requires
            old(self).spec_value() + value <= usize::MAX,
        ensures
            final(self).spec_value() == old(self).spec_value() + value,
            !final(self).has_waker(),
    {
        self.value = self.value + value;
        self.waker = false;
    }

    /// Takes as much of the count as allowed (all of it, or at most `max_value`)
    /// and returns the amount taken.
    pub fn sub(&mut self, max_value: Option<usize>) -> (r: usize)
        ensures
            r == take_amount(old(self).spec_value(), max_value),
            final(self).spec_value() == old(self).spec_value() - r,
            final(self).has_waker() == old(self).has_waker(),
    {
        let mut value = self.value;
        if let Some(x) = max_value {
            if x < value {
                value = x;
            }
        }
        self.value = self.value - value;
        value
    }

    /// Waits until the count reaches `min_value`.
    pub fn wait(&self, min_value: usize) -> (r: WaitFuture)
        ensures
            r.min_value() == min_value,
    {
        WaitFuture { min_value }
    }

    /// Waits until the count reaches `min_value`, then takes up to `max_value` of it.
    pub fn wait_sub(&self, min_value: usize, max_value: Option<usize>) -> (r: WaitSub)
        ensures
            r.min_value() == min_value,
            r.max_value() == max_value,
    {
        WaitSub { min_value, max_value }
    }
}

/// Amount that a take of at most `max_value` removes from a count of `value`.
pub open spec fn take_amount(value: usize, max_value: Option<usize>) -> usize {
    match max_value {
        Some(m) => if value < m { value } else { m },
        None => value,
    }
}

/// A pending wait for a counter to reach a minimum.
pub struct WaitFuture {
    min_value: usize,
}

impl WaitFuture {
    pub closed spec fn min_value(&self) -> usize {
        self.min_value
    }

    pub fn poll(&self, owner: &mut AsyncCounter) -> (r: Poll<()>)
        ensures
            final(owner).spec_value() == old(owner).spec_value(),
            final(owner).has_waker(),
            (r is Ready) == (old(owner).spec_value() >= self.min_value()),
    {
        owner.waker = true;
        if owner.value < self.min_value {
            Poll::Pending
        } else {
            Poll::Ready(())
        }
    }
}

/// A pending wait that takes from the counter once it has reached a minimum.
pub struct WaitSub {
    min_value: usize,
    max_value: Option<usize>,
}

impl WaitSub {
    pub closed spec fn min_value(&self) -> usize {
        self.min_value
    }

    pub closed spec fn max_value(&self) -> Option<usize> {
        self.max_value
    }

    /// Resolves with the amount taken once the count is at least the minimum.
    pub fn poll(&self, owner: &mut AsyncCounter) -> (r: Poll<usize>)
        ensures
            final(owner).has_waker(),
            old(owner).spec_value() >= self.min_value() ==> {
                let taken = take_amount(old(owner).spec_value(), self.max_value());
                &&& r == Poll::Ready(taken)
                &&& final(owner).spec_value() == old(owner).spec_value() - taken
            },
            old(owner).spec_value() < self.min_value() ==> r == Poll::<usize>::Pending
                && final(owner).spec_value() == old(owner).spec_value(),
    {
        owner.waker = true;
        if owner.value < self.min_value {
            Poll::Pending
        } else {
            let taken = owner.sub(self.max_value);
            owner.waker = true;
            Poll::Ready(taken)
        }
    }
}

} // verus!
