//! Scalar variables that the application writes and the host consumes.
use vstd::prelude::*;
use core::marker::PhantomData;
use crate::proc_state::ProcState;
use crate::raw::{HostCall, Poll, Variable, VariableView};
use crate::typing::{element_matches, Element, FerVarDir, FerVarKind};

verus! {

/// Typed handle of a scalar write variable.
pub struct WriteVariable<T> {
    raw: Variable,
    _phantom: PhantomData<T>,
}

impl<T: Element> View for WriteVariable<T> {
    type V = VariableView;

    closed spec fn view(&self) -> VariableView {
        self.raw@
    }
}

impl<T: Element> WriteVariable<T> {
    /// A scalar write variable whose element type is `T`.
    pub open spec fn fits(v: VariableView) -> bool {
        &&& v.wf()
        &&& v.type_.kind == FerVarKind::Scalar
        &&& v.type_.dir == FerVarDir::Write
        &&& element_matches::<T>(v.type_)
    }

    pub open spec fn wf(&self) -> bool {
        Self::fits(self@) && !self@.locked
    }

    pub fn from_raw(raw: Variable) -> (r: Self)
        requires
            Self::fits(raw@),
            !raw@.locked,
        ensures
            r@ == raw@,
            r.wf(),
    {
        WriteVariable { raw, _phantom: PhantomData }
    }

    pub fn raw(&self) -> (r: &Variable)
        ensures
            r@ == self@,
    {
        &self.raw
    }

    /// The host's side of the variable.
    pub fn raw_mut(&mut self) -> (r: &mut Variable)
        ensures
            r@ == old(self)@,
            final(self)@ == final(r)@,
    {
        &mut self.raw
    }

    /// Starts handing `value` to the host.
    pub fn write(&self, value: T) -> (r: WriteFuture<T>)
        ensures
            r.value() == value,
            !r.written(),
            !r.is_complete(),
    {
        WriteFuture { value, written: false, complete: false }
    }
}

/// A pending write of a scalar variable.
pub struct WriteFuture<T> {
    value: T,
    written: bool,
    complete: bool,
}

impl<T: Element> WriteFuture<T> {
    pub closed spec fn value(&self) -> T {
        self.value
    }

    /// Whether the value has gone into the buffer in this operation's processing window.
    pub closed spec fn written(&self) -> bool {
        self.written
    }

    pub closed spec fn is_complete(&self) -> bool {
        self.complete
    }

    /// How this future stands with respect to the variable it polls.
    pub open spec fn agrees(&self, v: VariableView) -> bool {
        self.written() ==> (v.state == ProcState::Ready || v.state == ProcState::Complete)
    }

    /// Advances the write by one step.
    ///
    /// Requests processing when the variable is idle, stores the value in the
    /// processing window, and resolves once the host has acknowledged.
    pub fn poll(&mut self, owner: &mut WriteVariable<T>) -> (r: (Poll<()>, HostCall))
        requires
            old(owner).wf(),
            !old(self).is_complete(),
            old(self).agrees(old(owner)@),
        ensures
            final(owner).wf(),
            final(owner)@.waker,
            final(owner)@.len == old(owner)@.len,
            final(owner)@.name == old(owner)@.name,
            final(owner)@.type_ == old(owner)@.type_,
            final(self).value() == old(self).value(),
            final(self).is_complete() == (r.0 is Ready),
            !final(self).is_complete() ==> final(self).agrees(final(owner)@),
            if old(self).written() {
                &&& final(owner)@.data == old(owner)@.data
                &&& if old(owner)@.state == ProcState::Complete {
                    &&& r == (Poll::Ready(()), HostCall::Nothing)
                    &&& final(owner)@.state == ProcState::Idle
                    &&& final(owner)@.trace == old(owner)@.trace.push(ProcState::Idle)
                } else {
                    &&& r == (Poll::<()>::Pending, HostCall::Nothing)
                    &&& final(owner)@.state == old(owner)@.state
                    &&& final(owner)@.trace == old(owner)@.trace
                    &&& final(self).written()
                }
            } else {
                &&& r.0 is Pending
                &&& old(owner)@.state == ProcState::Processing ==> {
                    &&& final(self).written()
                    &&& final(owner)@.data == old(owner)@.data.update(
                        0,
                        old(self).value().spec_to_bits(),
                    )
                    &&& r.1 == HostCall::CompleteProc
                    &&& final(owner)@.state == ProcState::Ready
                    &&& final(owner)@.trace == old(owner)@.trace.push(ProcState::Ready)
                }
                &&& old(owner)@.state != ProcState::Processing ==> {
                    &&& !final(self).written()
                    &&& final(owner)@.data == old(owner)@.data
                }
                &&& (old(owner)@.state == ProcState::Idle || old(owner)@.state
                    == ProcState::Complete) ==> {
                    &&& r.1 == HostCall::RequestProc
                    &&& final(owner)@.state == ProcState::Requested
                }
                &&& (old(owner)@.state == ProcState::Requested || old(owner)@.state
                    == ProcState::Ready) ==> {
                    &&& r.1 == HostCall::Nothing
                    &&& final(owner)@.state == old(owner)@.state
                    &&& final(owner)@.trace == old(owner)@.trace
                }
            },
    {
        if self.written {
            if owner.raw.await_complete() {
                self.complete = true;
                (Poll::Ready(()), HostCall::Nothing)
            } else {
                (Poll::Pending, HostCall::Nothing)
            }
        } else {
            let (open, call) = owner.raw.await_window();
            if open {
                owner.raw.open_window();
                owner.raw.store(0, self.value.to_bits());
                let done = owner.raw.close_window();
                self.written = true;
                (Poll::Pending, done)
            } else {
                (Poll::Pending, call)
            }
        }
    }

    /// Abandons the write: the waker is dropped, and any cycle in flight runs to its end
    /// on the host's side.
    pub fn cancel(self, owner: &mut WriteVariable<T>)
        requires
            old(owner).wf(),
        ensures
            final(owner).wf(),
            final(owner)@ == (VariableView { waker: false, ..old(owner)@ }),
    {
        owner.raw.clean_waker();
    }
}

} // verus!
