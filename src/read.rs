//! Scalar variables that the host produces and the application reads.
use vstd::prelude::*;
use core::marker::PhantomData;
use crate::proc_state::ProcState;
use crate::raw::{HostCall, Poll, Variable, VariableView};
use crate::typing::{element_matches, Element, FerVarDir, FerVarKind};

verus! {

/// Typed handle of a scalar read variable.
pub struct ReadVariable<T> {
    raw: Variable,
    _phantom: PhantomData<T>,
}

impl<T: Element> View for ReadVariable<T> {
    type V = VariableView;

    closed spec fn view(&self) -> VariableView {
        self.raw@
    }
}

impl<T: Element> ReadVariable<T> {
    /// A scalar read variable whose element type is `T`.
    pub open spec fn fits(v: VariableView) -> bool {
        &&& v.wf()
        &&& v.type_.kind == FerVarKind::Scalar
        &&& v.type_.dir == FerVarDir::Read
        &&& element_matches::<T>(v.type_)
    }

    pub open spec fn wf(&self) -> bool {
        Self::fits(self@) && !self@.locked
    }

    pub fn from_raw(raw: Variable) -> (r: Self)
        requires
            Self::fits(raw@),
            !raw@.locked,
        ensures
            r@ == raw@,
            r.wf(),
    {
        ReadVariable { raw, _phantom: PhantomData }
    }

    pub fn raw(&self) -> (r: &Variable)
        ensures
            r@ == self@,
    {
        &self.raw
    }

    /// The host's side of the variable.
    pub fn raw_mut(&mut self) -> (r: &mut Variable)
        ensures
            r@ == old(self)@,
            final(self)@ == final(r)@,
    {
        &mut self.raw
    }

    /// Starts reading the next value that the host produces.
    pub fn read(&self) -> (r: ReadFuture<T>)
        ensures
            r.captured() is None,
            !r.is_complete(),
    {
        ReadFuture { value: None, complete: false }
    }
}

/// A pending read of a scalar variable.
pub struct ReadFuture<T> {
    value: Option<T>,
    complete: bool,
}

impl<T: Element> ReadFuture<T> {
    /// The value taken from the buffer in this operation's processing window.
    pub closed spec fn captured(&self) -> Option<T> {
        self.value
    }

    pub closed spec fn is_complete(&self) -> bool {
        self.complete
    }

    /// How this future stands with respect to the variable it polls.
    pub open spec fn agrees(&self, v: VariableView) -> bool {
        self.captured() is Some ==> (v.state == ProcState::Ready || v.state == ProcState::Complete)
    }

    /// Advances the read by one step.
    ///
    /// Requests processing when the variable is idle, copies the value out in
    /// the processing window, and resolves with it once the host has acknowledged.
    pub fn poll(&mut self, owner: &mut ReadVariable<T>) -> (r: (Poll<T>, HostCall))
        requires
            old(owner).wf(),
            !old(self).is_complete(),
            old(self).agrees(old(owner)@),
        ensures
            final(owner).wf(),
            final(owner)@.waker,
            final(owner)@.data == old(owner)@.data,
            final(owner)@.len == old(owner)@.len,
            final(owner)@.name == old(owner)@.name,
            final(owner)@.type_ == old(owner)@.type_,
            final(self).is_complete() == (r.0 is Ready),
            !final(self).is_complete() ==> final(self).agrees(final(owner)@),
            match old(self).captured() {
                Some(v) => if old(owner)@.state == ProcState::Complete {
                    &&& r == (Poll::Ready(v), HostCall::Nothing)
                    &&& final(owner)@.state == ProcState::Idle
                    &&& final(owner)@.trace == old(owner)@.trace.push(ProcState::Idle)
                } else {
                    &&& r == (Poll::<T>::Pending, HostCall::Nothing)
                    &&& final(owner)@.state == old(owner)@.state
                    &&& final(owner)@.trace == old(owner)@.trace
                    &&& final(self).captured() == Some(v)
                },
                None => {
                    &&& r.0 is Pending
                    &&& old(owner)@.state == ProcState::Processing ==> {
                        &&& final(self).captured() == Some(
                            T::spec_from_bits(old(owner)@.data[0]),
                        )
                        &&& r.1 == HostCall::CompleteProc
                        &&& final(owner)@.state == ProcState::Ready
                        &&& final(owner)@.trace == old(owner)@.trace.push(ProcState::Ready)
                    }
                    &&& (old(owner)@.state == ProcState::Idle || old(owner)@.state
                        == ProcState::Complete) ==> {
                        &&& final(self).captured() is None
                        &&& r.1 == HostCall::RequestProc
                        &&& final(owner)@.state == ProcState::Requested
                    }
                    &&& (old(owner)@.state == ProcState::Requested || old(owner)@.state
                        == ProcState::Ready) ==> {
                        &&& final(self).captured() is None
                        &&& r.1 == HostCall::Nothing
                        &&& final(owner)@.state == old(owner)@.state
                        &&& final(owner)@.trace == old(owner)@.trace
                    }
                },
            },
    {
        match self.value {
            Some(v) => {
                if owner.raw.await_complete() {
                    self.value = None;
                    self.complete = true;
                    (Poll::Ready(v), HostCall::Nothing)
                } else {
                    (Poll::Pending, HostCall::Nothing)
                }
            },
            None => {
                let (open, call) = owner.raw.await_window();
                if open {
                    owner.raw.open_window();
                    let bits = owner.raw.load(0);
                    let done = owner.raw.close_window();
                    self.value = Some(T::from_bits(bits));
                    (Poll::Pending, done)
                } else {
                    (Poll::Pending, call)
                }
            },
        }
    }

    /// Abandons the read: the waker is dropped, and any cycle in flight runs to its end
    /// on the host's side.
    pub fn cancel(self, owner: &mut ReadVariable<T>)
        requires
            old(owner).wf(),
        ensures
            final(owner).wf(),
            final(owner)@ == (VariableView { waker: false, ..old(owner)@ }),
    {
        owner.raw.clean_waker();
    }
}

} // verus!
