//! A boolean flag that tasks can wait on.
use vstd::prelude::*;
use crate::raw::Poll;

verus! {

/// Result and new value of an attempt to set a flag that holds `value`.
pub open spec fn give_outcome(value: bool) -> (bool, bool) {
    (!value, true)
}

/// Result and new value of an attempt to clear a flag that holds `value`.
pub open spec fn take_outcome(value: bool) -> (bool, bool) {
    (value, false)
}

/// A boolean with a slot for the waker of one waiting task.
pub struct AsyncFlag {
    value: bool,
    waker: bool,
}

impl AsyncFlag {
    pub closed spec fn spec_value(&self) -> bool {
        self.value
    }

    /// Whether a task waker sits in the slot.
    pub closed spec fn has_waker(&self) -> bool {
        self.waker
    }

    pub fn new(value: bool) -> (r: AsyncFlag)
        ensures
            r.spec_value() == value,
            !r.has_waker(),
    {
        AsyncFlag { value, waker: false }
    }

    pub fn value(&self) -> (r: bool)
        ensures
            r == self.spec_value(),
    {
        self.value
    }

    /// Sets the flag if it was clear, waking the waiting task; returns whether it did.
    pub fn try_give(&mut self) -> (r: bool)
        ensures
            (r, final(self).spec_value()) == give_outcome(old(self).spec_value()),
            final(self).has_waker() == (old(self).has_waker() && !r),
    {
        if !self.value {
            self.value = true;
            self.waker = false;
            true
        } else {
            false
        }
    }

    /// Clears the flag if it was set, waking the waiting task; returns whether it did.
    pub fn try_take(&mut self) -> (r: bool)
        ensures
            (r, final(self).spec_value()) == take_outcome(old(self).spec_value()),
            final(self).has_waker() == (old(self).has_waker() && !r),
    {
        if self.value {
            self.value = false;
            self.waker = false;
            true
        } else {
            false
        }
    }

    /// Waits until the flag equals `value`.
    pub fn wait(&self, value: bool) -> (r: Wait)
        ensures
            r.target() == value,
    {
        Wait { target: value }
    }

    /// Waits until the flag is clear, then sets it.
    pub fn give(&self) -> (r: Switch)
        ensures
            !r.clears(),
    {
        Switch { trigger: false }
    }

    /// Waits until the flag is set, then clears it.
    pub fn take(&self) -> (r: Switch)
        ensures
            r.clears(),
    {
        Switch { trigger: true }
    }
}

/// A pending wait for a flag to reach a value.
pub struct Wait {
    target: bool,
}

impl Wait {
    pub closed spec fn target(&self) -> bool {
        self.target
    }

    pub fn poll(&self, owner: &mut AsyncFlag) -> (r: Poll<()>)
        ensures
            final(owner).spec_value() == old(owner).spec_value(),
            final(owner).has_waker(),
            (r is Ready) == (old(owner).spec_value() == self.target()),
    {
        owner.waker = true;
        if owner.value == self.target {
            Poll::Ready(())
        } else {
            Poll::Pending
        }
    }
}

/// A pending attempt to flip a flag from one value to the other.
pub struct Switch {
    trigger: bool,
}

impl Switch {
    /// Whether this switch clears the flag (otherwise it sets it).
    pub closed spec fn clears(&self) -> bool {
        self.trigger
    }

    pub fn poll(&self, owner: &mut AsyncFlag) -> (r: Poll<()>)
        ensures
            final(owner).has_waker(),
            final(owner).spec_value() == !self.clears(),
            (r is Ready) == (old(owner).spec_value() == self.clears()),
    {
        owner.waker = true;
        let ok = if !self.trigger {
            let was = owner.value;
            owner.value = true;
            !was
        } else {
            let was = owner.value;
            owner.value = false;
            was
        };
        if ok {
            Poll::Ready(())
        } else {
            Poll::Pending
        }
    }
}

/// Setting a flag twice in a row: whatever the flag held, the second attempt fails.
pub proof fn lemma_give_twice(value: bool)
    ensures
        !give_outcome(give_outcome(value).1).0,
{
}

/// Clearing a flag twice in a row: whatever the flag held, the second attempt fails.
pub proof fn lemma_take_twice(value: bool)
    ensures
        !take_outcome(take_outcome(value).1).0,
{
}

} // verus!
