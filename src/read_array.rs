//! Array variables that the host produces and the application reads.
use vstd::prelude::*;
use core::marker::PhantomData;
use crate::proc_state::ProcState;
use crate::raw::{HostCall, Poll, Variable, VariableView};
use crate::typing::{decode, element_matches, Element, FerVarDir, FerVarKind};

verus! {

/// Typed handle of an array read variable.
pub struct ReadArrayVariable<T> {
    raw: Variable,
    max_len: usize,
    _phantom: PhantomData<T>,
}

impl<T: Element> View for ReadArrayVariable<T> {
    type V = VariableView;

    closed spec fn view(&self) -> VariableView {
        self.raw@
    }
}

impl<T: Element> ReadArrayVariable<T> {
    /// An array read variable whose element type is `T`.
    pub open spec fn fits(v: VariableView) -> bool {
        &&& v.wf()
        &&& v.type_.kind == FerVarKind::Array
        &&& v.type_.dir == FerVarDir::Read
        &&& element_matches::<T>(v.type_)
    }

    pub closed spec fn spec_max_len(&self) -> usize {
        self.max_len
    }

    /// Well formed; the lock may be held by an open guard.
    pub open spec fn wf(&self) -> bool {
        &&& Self::fits(self@)
        &&& self.spec_max_len() == self@.type_.array_max_len
    }

    pub fn from_raw(raw: Variable, max_len: usize) -> (r: Self)
        requires
            Self::fits(raw@),
            max_len == raw@.type_.array_max_len,
        ensures
            r@ == raw@,
            r.wf(),
    {
        ReadArrayVariable { raw, max_len, _phantom: PhantomData }
    }

    pub fn max_len(&self) -> (r: usize)
        ensures
            r == self.spec_max_len(),
    {
        self.max_len
    }

    pub fn raw(&self) -> (r: &Variable)
        ensures
            r@ == self@,
    {
        &self.raw
    }

    /// The host's side of the variable.
    pub fn raw_mut(&mut self) -> (r: &mut Variable)
        ensures
            r@ == old(self)@,
            final(self)@ == final(r)@,
            final(self).spec_max_len() == old(self).spec_max_len(),
    {
        &mut self.raw
    }

    /// Starts waiting for a processing window in which the array can be read in place.
    pub fn read_in_place(&self) -> (r: ReadInPlaceFuture<T>)
    {
        ReadInPlaceFuture { _phantom: PhantomData }
    }

    /// Starts reading the next array into a caller's buffer.
    pub fn read_to_slice(&self) -> (r: ReadToSlice<T>)
        ensures
            !r.closing(),
            !r.is_complete(),
    {
        ReadToSlice { result: None, closing: false, complete: false, _phantom: PhantomData }
    }
}

/// A pending wait for the processing window of an array read variable.
pub struct ReadInPlaceFuture<T> {
    _phantom: PhantomData<T>,
}

impl<T: Element> ReadInPlaceFuture<T> {
    /// Advances the wait by one step; resolves with a guard that holds the lock.
    pub fn poll(&mut self, owner: &mut ReadArrayVariable<T>) -> (r: (
        Poll<ReadArrayGuard<T>>,
        HostCall,
    ))
        requires
            old(owner).wf(),
            !old(owner)@.locked,
        ensures
            final(owner).wf(),
            final(owner).spec_max_len() == old(owner).spec_max_len(),
            final(owner)@.waker,
            final(owner)@.data == old(owner)@.data,
            final(owner)@.len == old(owner)@.len,
            final(owner)@.name == old(owner)@.name,
            (r.0 is Ready) == (old(owner)@.state == ProcState::Processing),
            r.0 is Ready ==> final(owner)@.in_window() && r.1 == HostCall::Nothing
                && final(owner)@.trace == old(owner)@.trace,
            r.0 is Pending ==> !final(owner)@.locked,
            (old(owner)@.state == ProcState::Idle || old(owner)@.state == ProcState::Complete)
                ==> r.1 == HostCall::RequestProc && final(owner)@.state == ProcState::Requested,
            (old(owner)@.state == ProcState::Requested || old(owner)@.state == ProcState::Ready)
                ==> r.1 == HostCall::Nothing && final(owner)@.state == old(owner)@.state,
    {
        let (open, call) = owner.raw.await_window();
        if open {
            owner.raw.open_window();
            (Poll::Ready(ReadArrayGuard { _phantom: PhantomData }), HostCall::Nothing)
        } else {
            (Poll::Pending, call)
        }
    }
}

/// Access to the data buffer of an array read variable inside its processing window.
///
/// The guard must be closed with [`ReadArrayGuard::close`].
pub struct ReadArrayGuard<T> {
    _phantom: PhantomData<T>,
}

impl<T: Element> ReadArrayGuard<T> {
    /// Number of elements the host produced.
    pub fn len(&self, owner: &ReadArrayVariable<T>) -> (r: usize)
        requires
            owner.wf(),
            owner@.in_window(),
        ensures
            r == owner@.len,
    {
        owner.raw.array_len()
    }

    /// The elements the host produced.
    pub fn as_slice(&self, owner: &ReadArrayVariable<T>) -> (r: Vec<T>)
        requires
            owner.wf(),
            owner@.in_window(),
        ensures
            r@ == decode::<T>(owner@.contents()),
    {
        let n = owner.raw.array_len();
        let mut out: Vec<T> = Vec::new();
        let mut i: usize = 0;
        while i < n
            invariant
                owner.wf(),
                owner@.in_window(),
                n == owner@.len,
                0 <= i <= n,
                out@ == decode::<T>(owner@.contents()).subrange(0, i as int),
            decreases n - i,
        {
            let bits = owner.raw.load(i);
            out.push(T::from_bits(bits));
            i = i + 1;
            assert(out@ =~= decode::<T>(owner@.contents()).subrange(0, i as int));
        }
        assert(out@ =~= decode::<T>(owner@.contents()));
        out
    }

    /// Ends the access: marks processing complete and releases the lock.
    pub fn close(self, owner: &mut ReadArrayVariable<T>) -> (r: (CloseArrayFuture<T>, HostCall))
        requires
            old(owner).wf(),
            old(owner)@.in_window(),
        ensures
            final(owner).wf(),
            final(owner).spec_max_len() == old(owner).spec_max_len(),
            r.1 == HostCall::CompleteProc,
            !final(owner)@.locked,
            final(owner)@.state == ProcState::Ready,
            final(owner)@.trace == old(owner)@.trace.push(ProcState::Ready),
            final(owner)@.data == old(owner)@.data,
            final(owner)@.len == old(owner)@.len,
    {
        let call = owner.raw.close_window();
        (CloseArrayFuture { _phantom: PhantomData }, call)
    }
}

/// A pending wait for the host to acknowledge a closed read.
pub struct CloseArrayFuture<T> {
    _phantom: PhantomData<T>,
}

impl<T: Element> CloseArrayFuture<T> {
    pub fn poll(&mut self, owner: &mut ReadArrayVariable<T>) -> (r: Poll<()>)
        requires
            old(owner).wf(),
            !old(owner)@.locked,
            old(owner)@.state == ProcState::Ready || old(owner)@.state == ProcState::Complete,
        ensures
            final(owner).wf(),
            final(owner).spec_max_len() == old(owner).spec_max_len(),
            !final(owner)@.locked,
            final(owner)@.waker,
            final(owner)@.name == old(owner)@.name,
            final(owner)@.type_ == old(owner)@.type_,
            final(owner)@.data == old(owner)@.data,
            final(owner)@.len == old(owner)@.len,
            (r is Ready) == (old(owner)@.state == ProcState::Complete),
            r is Ready ==> final(owner)@.state == ProcState::Idle && final(owner)@.trace == old(
                owner,
            )@.trace.push(ProcState::Idle),
            r is Pending ==> final(owner)@.state == old(owner)@.state && final(owner)@.trace
                == old(owner)@.trace,
    {
        if owner.raw.await_complete() {
            Poll::Ready(())
        } else {
            Poll::Pending
        }
    }
}

/// A pending read of an array into a caller's buffer.
pub struct ReadToSlice<T> {
    result: Option<usize>,
    closing: bool,
    complete: bool,
    _phantom: PhantomData<T>,
}

impl<T: Element> ReadToSlice<T> {
    /// What the copy in the processing window gave.
    pub closed spec fn result(&self) -> Option<usize> {
        self.result
    }

    /// Whether the copy is done and the operation waits for the host's acknowledgement.
    pub closed spec fn closing(&self) -> bool {
        self.closing
    }

    pub closed spec fn is_complete(&self) -> bool {
        self.complete
    }

    pub open spec fn agrees(&self, v: VariableView) -> bool {
        self.closing() ==> (v.state == ProcState::Ready || v.state == ProcState::Complete)
    }

    /// Advances the read by one step.
    ///
    /// In the processing window the array is copied to the front of `dst`
    /// when it fits; the operation resolves with the number of elements copied,
    /// or `None` when `dst` was shorter than the array, once the host has acknowledged.
    pub fn poll(&mut self, owner: &mut ReadArrayVariable<T>, dst: &mut Vec<T>) -> (r: (
        Poll<Option<usize>>,
        HostCall,
    ))
        requires
            old(owner).wf(),
            !old(owner)@.locked,
            !old(self).is_complete(),
            old(self).agrees(old(owner)@),
        ensures
            final(owner).wf(),
            final(owner).spec_max_len() == old(owner).spec_max_len(),
            !final(owner)@.locked,
            final(owner)@.data == old(owner)@.data,
            final(owner)@.len == old(owner)@.len,
            final(self).is_complete() == (r.0 is Ready),
            !final(self).is_complete() ==> final(self).agrees(final(owner)@),
            final(owner)@.waker,
            final(owner)@.name == old(owner)@.name,
            final(owner)@.type_ == old(owner)@.type_,
            r.0 is Ready ==> final(owner)@.state == ProcState::Idle,
            final(dst)@.len() == old(dst)@.len(),
            r.0 == Poll::Ready(old(self).result()) <== old(self).closing() && old(owner)@.state
                == ProcState::Complete,
            old(self).closing() ==> {
                &&& final(dst)@ == old(dst)@
                &&& final(self).result() == old(self).result()
                &&& (r.0 is Ready) == (old(owner)@.state == ProcState::Complete)
                &&& r.1 == HostCall::Nothing
            },
            !old(self).closing() ==> {
                &&& r.0 is Pending
                &&& if old(owner)@.state == ProcState::Processing {
                    let n = old(owner)@.len as int;
                    let src = decode::<T>(old(owner)@.contents());
                    &&& final(self).closing()
                    &&& r.1 == HostCall::CompleteProc
                    &&& final(owner)@.state == ProcState::Ready
                    &&& if old(dst)@.len() >= n {
                        &&& final(self).result() == Some(n as usize)
                        &&& final(dst)@ == src + old(dst)@.subrange(n, old(dst)@.len() as int)
                    } else {
                        &&& final(self).result() is None
                        &&& final(dst)@ == old(dst)@
                    }
                } else {
                    &&& !final(self).closing()
                    &&& final(dst)@ == old(dst)@
                    &&& final(owner)@.data == old(owner)@.data
                    &&& (old(owner)@.state == ProcState::Idle || old(owner)@.state
                        == ProcState::Complete) ==> {
                        &&& r.1 == HostCall::RequestProc
                        &&& final(owner)@.state == ProcState::Requested
                    }
                    &&& (old(owner)@.state == ProcState::Requested || old(owner)@.state
                        == ProcState::Ready) ==> {
                        &&& r.1 == HostCall::Nothing
                        &&& final(owner)@.state == old(owner)@.state
                        &&& final(owner)@.trace == old(owner)@.trace
                    }
                }
            },
    {
        if self.closing {
            if owner.raw.await_complete() {
                self.complete = true;
                (Poll::Ready(self.result), HostCall::Nothing)
            } else {
                (Poll::Pending, HostCall::Nothing)
            }
        } else {
            let (open, call) = owner.raw.await_window();
            if !open {
                return (Poll::Pending, call);
            }
            owner.raw.open_window();
            let n = owner.raw.array_len();
            if dst.len() >= n {
                let ghost src = decode::<T>(owner@.contents());
                let ghost rest = dst@.subrange(n as int, dst@.len() as int);
                let mut i: usize = 0;
                while i < n
                    invariant
                        owner.wf(),
                        owner@.in_window(),
                        n == owner@.len,
                        src == decode::<T>(owner@.contents()),
                        0 <= i <= n,
                        n <= dst@.len(),
                        dst@.len() == old(dst)@.len(),
                        rest == old(dst)@.subrange(n as int, old(dst)@.len() as int),
                        forall|k: int| 0 <= k < i ==> dst@[k] == src[k],
                        forall|k: int| n <= k < dst@.len() ==> dst@[k] == old(dst)@[k],
                    decreases n - i,
                {
                    let bits = owner.raw.load(i);
                    dst.set(i, T::from_bits(bits));
                    i = i + 1;
                }
                assert(dst@ =~= src + rest);
                self.result = Some(n);
            } else {
                self.result = None;
            }
            let done = owner.raw.close_window();
            self.closing = true;
            (Poll::Pending, done)
        }
    }
}

} // verus!
