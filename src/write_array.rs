//! Array variables that the application writes and the host consumes.
use vstd::prelude::*;
use core::marker::PhantomData;
use crate::proc_state::ProcState;
use crate::raw::{HostCall, Poll, Variable, VariableView};
use crate::typing::{encode, element_matches, Element, FerVarDir, FerVarKind};

verus! {

/// Typed handle of an array write variable.
pub struct WriteArrayVariable<T> {
    raw: Variable,
    max_len: usize,
    _phantom: PhantomData<T>,
}

impl<T: Element> View for WriteArrayVariable<T> {
    type V = VariableView;

    closed spec fn view(&self) -> VariableView {
        self.raw@
    }
}

impl<T: Element> WriteArrayVariable<T> {
    /// An array write variable whose element type is `T`.
    pub open spec fn fits(v: VariableView) -> bool {
        &&& v.wf()
        &&& v.type_.kind == FerVarKind::Array
        &&& v.type_.dir == FerVarDir::Write
        &&& element_matches::<T>(v.type_)
    }

    pub closed spec fn spec_max_len(&self) -> usize {
        self.max_len
    }

    /// Well formed; the lock may be held by an open guard.
    pub open spec fn wf(&self) -> bool {
        &&& Self::fits(self@)
        &&& self.spec_max_len() == self@.type_.array_max_len
    }

    pub fn from_raw(raw: Variable, max_len: usize) -> (r: Self)
        requires
            Self::fits(raw@),
            max_len == raw@.type_.array_max_len,
        ensures
            r@ == raw@,
            r.wf(),
    {
        WriteArrayVariable { raw, max_len, _phantom: PhantomData }
    }

    pub fn max_len(&self) -> (r: usize)
        ensures
            r == self.spec_max_len(),
    {
        self.max_len
    }

    pub fn raw(&self) -> (r: &Variable)
        ensures
            r@ == self@,
    {
        &self.raw
    }

    /// The host's side of the variable.
    pub fn raw_mut(&mut self) -> (r: &mut Variable)
        ensures
            r@ == old(self)@,
            final(self)@ == final(r)@,
            final(self).spec_max_len() == old(self).spec_max_len(),
    {
        &mut self.raw
    }

    /// Starts waiting for a processing window in which the array can be filled in place.
    pub fn init_in_place(&self) -> (r: InitInPlaceFuture<T>)
    {
        InitInPlaceFuture { _phantom: PhantomData }
    }

    /// Starts handing the elements of `src` to the host.
    pub fn write_from_slice(&self, src: Vec<T>) -> (r: WriteFromSlice<T>)
        requires
            self.wf(),
            src@.len() <= self.spec_max_len(),
        ensures
            r.source() == src@,
            !r.closing(),
            !r.is_complete(),
    {
        WriteFromSlice { src, closing: false, complete: false }
    }
}

/// A pending wait for the processing window of an array write variable.
pub struct InitInPlaceFuture<T> {
    _phantom: PhantomData<T>,
}

impl<T: Element> InitInPlaceFuture<T> {
    /// Advances the wait by one step; resolves with a guard that holds the lock.
    pub fn poll(&mut self, owner: &mut WriteArrayVariable<T>) -> (r: (
        Poll<WriteArrayGuard<T>>,
        HostCall,
    ))
        requires
            old(owner).wf(),
            !old(owner)@.locked,
        ensures
            final(owner).wf(),
            final(owner).spec_max_len() == old(owner).spec_max_len(),
            final(owner)@.waker,
            final(owner)@.data == old(owner)@.data,
            final(owner)@.len == old(owner)@.len,
            final(owner)@.name == old(owner)@.name,
            (r.0 is Ready) == (old(owner)@.state == ProcState::Processing),
            r.0 is Ready ==> final(owner)@.in_window() && r.1 == HostCall::Nothing
                && final(owner)@.trace == old(owner)@.trace,
            r.0 is Pending ==> !final(owner)@.locked,
            (old(owner)@.state == ProcState::Idle || old(owner)@.state == ProcState::Complete)
                ==> r.1 == HostCall::RequestProc && final(owner)@.state == ProcState::Requested,
            (old(owner)@.state == ProcState::Requested || old(owner)@.state == ProcState::Ready)
                ==> r.1 == HostCall::Nothing && final(owner)@.state == old(owner)@.state,
    {
        let (open, call) = owner.raw.await_window();
        if open {
            owner.raw.open_window();
            (Poll::Ready(WriteArrayGuard { _phantom: PhantomData }), HostCall::Nothing)
        } else {
            (Poll::Pending, call)
        }
    }
}

/// Access to the data buffer of an array write variable inside its processing window.
///
/// The guard must be committed with [`WriteArrayGuard::write`].
pub struct WriteArrayGuard<T> {
    _phantom: PhantomData<T>,
}

impl<T: Element> WriteArrayGuard<T> {
    /// Stores `value` at position `i` of the buffer.
    pub fn set(&self, owner: &mut WriteArrayVariable<T>, i: usize, value: T)
        requires
            old(owner).wf(),
            old(owner)@.in_window(),
            i < old(owner).spec_max_len(),
        ensures
            final(owner).wf(),
            final(owner).spec_max_len() == old(owner).spec_max_len(),
            final(owner)@ == (VariableView {
                data: old(owner)@.data.update(i as int, value.spec_to_bits()),
                ..old(owner)@
            }),
    {
        owner.raw.store(i, value.to_bits());
    }

    /// Sets the number of elements handed to the host.
    pub fn set_len(&self, owner: &mut WriteArrayVariable<T>, new_len: usize)
        requires
            old(owner).wf(),
            old(owner)@.in_window(),
            new_len <= old(owner).spec_max_len(),
        ensures
            final(owner).wf(),
            final(owner).spec_max_len() == old(owner).spec_max_len(),
            final(owner)@ == (VariableView { len: new_len as nat, ..old(owner)@ }),
    {
        owner.raw.array_set_len(new_len);
    }

    /// Commits the array: marks processing complete and releases the lock.
    pub fn write(self, owner: &mut WriteArrayVariable<T>) -> (r: (WriteArrayFuture<T>, HostCall))
        requires
            old(owner).wf(),
            old(owner)@.in_window(),
        ensures
            final(owner).wf(),
            final(owner).spec_max_len() == old(owner).spec_max_len(),
            r.1 == HostCall::CompleteProc,
            !final(owner)@.locked,
            final(owner)@.state == ProcState::Ready,
            final(owner)@.trace == old(owner)@.trace.push(ProcState::Ready),
            final(owner)@.data == old(owner)@.data,
            final(owner)@.len == old(owner)@.len,
    {
        let call = owner.raw.close_window();
        (WriteArrayFuture { _phantom: PhantomData }, call)
    }
}

/// A pending wait for the host to acknowledge a committed array.
pub struct WriteArrayFuture<T> {
    _phantom: PhantomData<T>,
}

impl<T: Element> WriteArrayFuture<T> {
    pub fn poll(&mut self, owner: &mut WriteArrayVariable<T>) -> (r: Poll<()>)
        requires
            old(owner).wf(),
            !old(owner)@.locked,
            old(owner)@.state == ProcState::Ready || old(owner)@.state == ProcState::Complete,
        ensures
            final(owner).wf(),
            final(owner).spec_max_len() == old(owner).spec_max_len(),
            !final(owner)@.locked,
            final(owner)@.waker,
            final(owner)@.name == old(owner)@.name,
            final(owner)@.type_ == old(owner)@.type_,
            final(owner)@.data == old(owner)@.data,
            final(owner)@.len == old(owner)@.len,
            (r is Ready) == (old(owner)@.state == ProcState::Complete),
            r is Ready ==> final(owner)@.state == ProcState::Idle && final(owner)@.trace == old(
                owner,
            )@.trace.push(ProcState::Idle),
            r is Pending ==> final(owner)@.state == old(owner)@.state && final(owner)@.trace
                == old(owner)@.trace,
    {
        if owner.raw.await_complete() {
            Poll::Ready(())
        } else {
            Poll::Pending
        }
    }
}

/// A pending write of a whole array from a caller's elements.
pub struct WriteFromSlice<T> {
    src: Vec<T>,
    closing: bool,
    complete: bool,
}

impl<T: Element> WriteFromSlice<T> {
    pub closed spec fn source(&self) -> Seq<T> {
        self.src@
    }

    /// Whether the elements are in the buffer and the operation waits for the host.
    pub closed spec fn closing(&self) -> bool {
        self.closing
    }

    pub closed spec fn is_complete(&self) -> bool {
        self.complete
    }

    pub open spec fn agrees(&self, v: VariableView) -> bool {
        self.closing() ==> (v.state == ProcState::Ready || v.state == ProcState::Complete)
    }

    /// Advances the write by one step.
    ///
    /// In the processing window the elements are copied to the front of the
    /// buffer and the length is set to their number; the operation resolves once
    /// the host has acknowledged.
    pub fn poll(&mut self, owner: &mut WriteArrayVariable<T>) -> (r: (Poll<()>, HostCall))
        requires
            old(owner).wf(),
            !old(owner)@.locked,
            !old(self).is_complete(),
            old(self).agrees(old(owner)@),
            old(self).source().len() <= old(owner).spec_max_len(),
        ensures
            final(owner).wf(),
            final(owner).spec_max_len() == old(owner).spec_max_len(),
            !final(owner)@.locked,
            final(self).source() == old(self).source(),
            final(self).is_complete() == (r.0 is Ready),
            !final(self).is_complete() ==> final(self).agrees(final(owner)@),
            final(owner)@.waker,
            final(owner)@.name == old(owner)@.name,
            final(owner)@.type_ == old(owner)@.type_,
            r.0 is Ready ==> final(owner)@.state == ProcState::Idle,
            old(self).closing() ==> {
                &&& final(owner)@.data == old(owner)@.data
                &&& final(owner)@.len == old(owner)@.len
                &&& (r.0 is Ready) == (old(owner)@.state == ProcState::Complete)
                &&& r.1 == HostCall::Nothing
            },
            !old(self).closing() ==> {
                &&& r.0 is Pending
                &&& if old(owner)@.state == ProcState::Processing {
                    &&& final(self).closing()
                    &&& r.1 == HostCall::CompleteProc
                    &&& final(owner)@.state == ProcState::Ready
                    &&& final(owner)@.contents() == encode::<T>(old(self).source())
                } else {
                    &&& !final(self).closing()
                    &&& final(owner)@.data == old(owner)@.data
                    &&& final(owner)@.len == old(owner)@.len
                    &&& (old(owner)@.state == ProcState::Idle || old(owner)@.state
                        == ProcState::Complete) ==> {
                        &&& r.1 == HostCall::RequestProc
                        &&& final(owner)@.state == ProcState::Requested
                    }
                    &&& (old(owner)@.state == ProcState::Requested || old(owner)@.state
                        == ProcState::Ready) ==> {
                        &&& r.1 == HostCall::Nothing
                        &&& final(owner)@.state == old(owner)@.state
                        &&& final(owner)@.trace == old(owner)@.trace
                    }
                }
            },
    {
        if self.closing {
            if owner.raw.await_complete() {
                self.complete = true;
                (Poll::Ready(()), HostCall::Nothing)
            } else {
                (Poll::Pending, HostCall::Nothing)
            }
        } else {
            let (open, call) = owner.raw.await_window();
            if !open {
                return (Poll::Pending, call);
            }
            owner.raw.open_window();
            let n = self.src.len();
            let mut i: usize = 0;
            while i < n
                invariant
                    owner.wf(),
                    owner@.in_window(),
                    owner.spec_max_len() == old(owner).spec_max_len(),
                    owner@.waker,
                    owner@.name == old(owner)@.name,
                    owner@.type_ == old(owner)@.type_,
                    n == self.src@.len(),
                    n <= owner@.data.len(),
                    0 <= i <= n,
                    forall|k: int| 0 <= k < i ==> owner@.data[k] == self.src@[k].spec_to_bits(),
                decreases n - i,
            {
                owner.raw.store(i, self.src[i].to_bits());
                i = i + 1;
            }
            owner.raw.array_set_len(n);
            assert(owner@.contents() =~= encode::<T>(self.src@));
            let done = owner.raw.close_window();
            self.closing = true;
            (Poll::Pending, done)
        }
    }
}

} // verus!
