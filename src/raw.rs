//! One host variable as the bridge sees it: metadata, data buffer, lock and control block.
use vstd::prelude::*;
use crate::proc_state::{is_path, lemma_path_extend, lemma_path_prefix_closed, ProcState, ProtocolViolation};
use crate::typing::{FerVarDir, FerVarKind, FerVarType};

verus! {

/// A notification that the caller must forward to the host after a step.
#[derive(Clone, Copy, Debug, PartialEq, Eq, Structural)]
pub enum HostCall {
    /// Nothing to tell the host.
    Nothing,
    /// Ask the host to schedule processing of the variable.
    RequestProc,
    /// Tell the host that the application is done with the data buffer.
    CompleteProc,
}

/// Outcome of one poll of an operation.
#[derive(Debug, PartialEq, Eq, Structural)]
pub enum Poll<T> {
    Ready(T),
    Pending,
}

/// Per-variable control block: the processing state and the waker slot.
pub struct Info {
    proc_state: ProcState,
    waker: bool,
}

impl Info {
    pub closed spec fn state(&self) -> ProcState {
        self.proc_state
    }

    /// Whether a task waker sits in the slot.
    pub closed spec fn has_waker(&self) -> bool {
        self.waker
    }

    pub fn new() -> (r: Info)
        ensures
            r.state() == ProcState::Idle,
            !r.has_waker(),
    {
        Info { proc_state: ProcState::Idle, waker: false }
    }

    pub fn proc_state(&self) -> (r: ProcState)
        ensures
            r == self.state(),
    {
        self.proc_state
    }

    /// Registers the current task's waker, replacing any older one.
    pub fn set_waker(&mut self)
        ensures
            final(self).state() == old(self).state(),
            final(self).has_waker(),
    {
        self.waker = true;
    }

    /// Empties the waker slot.
    pub fn clean_waker(&mut self)
        ensures
            final(self).state() == old(self).state(),
            !final(self).has_waker(),
    {
        self.waker = false;
    }

    /// Wakes and removes the registered waker; returns whether there was one.
    pub fn try_wake(&mut self) -> (r: bool)
        ensures
            r == old(self).has_waker(),
            final(self).state() == old(self).state(),
            !final(self).has_waker(),
    {
        let woke = self.waker;
        self.waker = false;
        woke
    }

    fn swap_proc_state(&mut self, next: ProcState) -> (prev: ProcState)
        ensures
            prev == old(self).state(),
            final(self).state() == next,
            final(self).has_waker() == old(self).has_waker(),
    {
        let prev = self.proc_state;
        self.proc_state = next;
        prev
    }
}

/// Abstract value of a [`Variable`].
pub struct VariableView {
    pub name: Seq<char>,
    pub type_: FerVarType,
    pub state: ProcState,
    pub waker: bool,
    /// All cells of the data buffer.
    pub data: Seq<u64>,
    /// Current length; always 1 for scalars.
    pub len: nat,
    /// Whether the bridge holds the host lock of the variable.
    pub locked: bool,
    pub lock_count: nat,
    pub unlock_count: nat,
    /// Every state the variable has been in, oldest first.
    pub trace: Seq<ProcState>,
}

impl VariableView {
    pub open spec fn wf(self) -> bool {
        &&& self.data.len() == self.type_.capacity()
        &&& self.len <= self.data.len()
        &&& (self.type_.kind == FerVarKind::Scalar ==> self.len == 1)
        &&& self.lock_count == self.unlock_count + (if self.locked { 1nat } else { 0nat })
        &&& (self.locked ==> self.state == ProcState::Processing)
        &&& is_path(self.trace)
        &&& self.trace.last() == self.state
    }

    /// The elements that currently hold a value.
    pub open spec fn contents(self) -> Seq<u64> {
        self.data.subrange(0, self.len as int)
    }

    /// Whether the bridge may touch the data buffer now.
    pub open spec fn in_window(self) -> bool {
        self.locked && self.state == ProcState::Processing
    }

    /// Equal in everything but the data buffer and its length.
    pub open spec fn same_but_data(self, other: VariableView) -> bool {
        &&& self.name == other.name
        &&& self.type_ == other.type_
        &&& self.state == other.state
        &&& self.waker == other.waker
        &&& self.locked == other.locked
        &&& self.lock_count == other.lock_count
        &&& self.unlock_count == other.unlock_count
        &&& self.trace == other.trace
    }
}

/// One host variable with its control block.
pub struct Variable {
    name: String,
    type_: FerVarType,
    info: Info,
    data: Vec<u64>,
    len: usize,
    locked: bool,
    lock_count: Ghost<nat>,
    unlock_count: Ghost<nat>,
    trace: Ghost<Seq<ProcState>>,
}

impl View for Variable {
    type V = VariableView;

    closed spec fn view(&self) -> VariableView {
        VariableView {
            name: self.name@,
            type_: self.type_,
            state: self.info.state(),
            waker: self.info.has_waker(),
            data: self.data@,
            len: self.len as nat,
            locked: self.locked,
            lock_count: self.lock_count@,
            unlock_count: self.unlock_count@,
            trace: self.trace@,
        }
    }
}

impl Variable {
    /// Sets up the control block of a freshly announced host variable.
    pub fn new(name: String, type_: FerVarType) -> (r: Variable)
        ensures
            r@.wf(),
            r@.name == name@,
            r@.type_ == type_,
            r@.state == ProcState::Idle,
            !r@.waker,
            !r@.locked,
            r@.lock_count == 0,
            r@.trace == seq![ProcState::Idle],
            r@.len == (if type_.kind == FerVarKind::Scalar { 1nat } else { 0nat }),
            forall|i: int| 0 <= i < r@.data.len() ==> r@.data[i] == 0,
    {
        let cap: usize = match type_.kind {
            FerVarKind::Scalar => 1,
            FerVarKind::Array => type_.array_max_len,
        };
        let len: usize = match type_.kind {
            FerVarKind::Scalar => 1,
            FerVarKind::Array => 0,
        };
        let data: Vec<u64> = vec![0u64; cap];
        let ghost start = seq![ProcState::Idle];
        Variable {
            name,
            type_,
            info: Info::new(),
            data,
            len,
            locked: false,
            lock_count: Ghost(0),
            unlock_count: Ghost(0),
            trace: Ghost(start),
        }
    }

    pub fn name(&self) -> (r: String)
        ensures
            r@ == self@.name,
    {
        self.name.clone()
    }

    pub fn data_type(&self) -> (r: FerVarType)
        ensures
            r == self@.type_,
    {
        self.type_
    }

    pub fn proc_state(&self) -> (r: ProcState)
        ensures
            r == self@.state,
    {
        self.info.proc_state()
    }

    pub fn is_locked(&self) -> (r: bool)
        ensures
            r == self@.locked,
    {
        self.locked
    }

    /// Takes the host lock of the variable.
    pub(crate) fn lock(&mut self)
        requires
            !old(self)@.locked,
        ensures
            final(self)@ == (VariableView {
                locked: true,
                lock_count: old(self)@.lock_count + 1,
                ..old(self)@
            }),
    {
        self.locked = true;
        self.lock_count = Ghost(self.lock_count@ + 1);
    }

    /// Releases the host lock of the variable.
    pub(crate) fn unlock(&mut self)
        requires
            old(self)@.locked,
        ensures
            final(self)@ == (VariableView {
                locked: false,
                unlock_count: old(self)@.unlock_count + 1,
                ..old(self)@
            }),
    {
        self.locked = false;
        self.unlock_count = Ghost(self.unlock_count@ + 1);
    }

    /// Moves the control block along one legal edge and records it.
    fn transition(&mut self, next: ProcState)
        requires
            is_path(old(self)@.trace),
            old(self)@.trace.last() == old(self)@.state,
            old(self)@.state.is_step(next),
        ensures
            final(self)@ == (VariableView {
                state: next,
                trace: old(self)@.trace.push(next),
                ..old(self)@
            }),
            is_path(final(self)@.trace),
    {
        proof {
            lemma_path_extend(self.trace@, next);
        }
        let _ = self.info.swap_proc_state(next);
        self.trace = Ghost(self.trace@.push(next));
    }

    /// Marks the variable as requested; the caller forwards the returned call to the host.
    pub(crate) fn request_proc(&mut self) -> (r: HostCall)
        requires
            is_path(old(self)@.trace),
            old(self)@.trace.last() == old(self)@.state,
            old(self)@.locked,
            old(self)@.state == ProcState::Idle,
        ensures
            r == HostCall::RequestProc,
            final(self)@ == (VariableView {
                state: ProcState::Requested,
                trace: old(self)@.trace.push(ProcState::Requested),
                ..old(self)@
            }),
            is_path(final(self)@.trace),
    {
        self.transition(ProcState::Requested);
        HostCall::RequestProc
    }

    /// Ends the application's access to the data buffer.
    pub(crate) fn complete_proc(&mut self) -> (r: HostCall)
        requires
            is_path(old(self)@.trace),
            old(self)@.trace.last() == old(self)@.state,
            old(self)@.locked,
            old(self)@.state == ProcState::Processing,
        ensures
            r == HostCall::CompleteProc,
            final(self)@ == (VariableView {
                state: ProcState::Ready,
                trace: old(self)@.trace.push(ProcState::Ready),
                ..old(self)@
            }),
            is_path(final(self)@.trace),
    {
        self.transition(ProcState::Ready);
        HostCall::CompleteProc
    }

    /// Returns a completed variable to `Idle`.
    pub(crate) fn clean_proc(&mut self)
        requires
            is_path(old(self)@.trace),
            old(self)@.trace.last() == old(self)@.state,
            old(self)@.state == ProcState::Complete,
        ensures
            final(self)@ == (VariableView {
                state: ProcState::Idle,
                trace: old(self)@.trace.push(ProcState::Idle),
                ..old(self)@
            }),
            is_path(final(self)@.trace),
    {
        self.transition(ProcState::Idle);
    }

    /// Registers the waker of the task that polls the variable.
    pub fn set_waker(&mut self)
        ensures
            final(self)@ == (VariableView { waker: true, ..old(self)@ }),
    {
        self.info.set_waker();
    }

    /// Drops the registered waker, as an abandoned operation does.
    pub fn clean_waker(&mut self)
        ensures
            final(self)@ == (VariableView { waker: false, ..old(self)@ }),
    {
        self.info.clean_waker();
    }

    /// Host callback: the host opens a processing window.
    ///
    /// Legal from `Requested`, and from `Idle` for read variables, where the
    /// host may produce a value unasked. Returns whether a waiting task was woken.
    pub fn proc_begin(&mut self) -> (r: Result<bool, ProtocolViolation>)
        requires
            old(self)@.wf(),
            !old(self)@.locked,
        ensures
            final(self)@.wf(),
            match r {
                Ok(woke) => {
                    &&& (old(self)@.state == ProcState::Requested || (old(self)@.state
                        == ProcState::Idle && old(self)@.type_.dir == FerVarDir::Read))
                    &&& woke == old(self)@.waker
                    &&& final(self)@ == (VariableView {
                        state: ProcState::Processing,
                        waker: false,
                        trace: old(self)@.trace.push(ProcState::Processing),
                        ..old(self)@
                    })
                },
                Err(e) => {
                    &&& final(self)@ == old(self)@
                    &&& e == (if old(self)@.state == ProcState::Idle {
                        ProtocolViolation::UnrequestedWrite
                    } else {
                        ProtocolViolation::UnexpectedBegin(old(self)@.state)
                    })
                    &&& !(old(self)@.state == ProcState::Requested || (old(self)@.state
                        == ProcState::Idle && old(self)@.type_.dir == FerVarDir::Read))
                },
            },
    {
        let state = self.info.proc_state();
        match state {
            ProcState::Requested => {},
            ProcState::Idle => {
                if self.type_.dir == FerVarDir::Write {
                    return Err(ProtocolViolation::UnrequestedWrite);
                }
            },
            _ => {
                return Err(ProtocolViolation::UnexpectedBegin(state));
            },
        }
        self.transition(ProcState::Processing);
        let woke = self.info.try_wake();
        Ok(woke)
    }

    /// Host callback: the host acknowledges the application's completion.
    pub fn proc_end(&mut self) -> (r: Result<bool, ProtocolViolation>)
        requires
            old(self)@.wf(),
        ensures
            final(self)@.wf(),
            match r {
                Ok(woke) => {
                    &&& old(self)@.state == ProcState::Ready
                    &&& woke == old(self)@.waker
                    &&& final(self)@ == (VariableView {
                        state: ProcState::Complete,
                        waker: false,
                        trace: old(self)@.trace.push(ProcState::Complete),
                        ..old(self)@
                    })
                },
                Err(e) => {
                    &&& old(self)@.state != ProcState::Ready
                    &&& e == ProtocolViolation::UnexpectedEnd(old(self)@.state)
                    &&& final(self)@ == old(self)@
                },
            },
    {
        let state = self.info.proc_state();
        if state != ProcState::Ready {
            return Err(ProtocolViolation::UnexpectedEnd(state));
        }
        self.transition(ProcState::Complete);
        let woke = self.info.try_wake();
        Ok(woke)
    }

    /// Host side: fills the data buffer inside the host's processing window.
    pub fn host_store(&mut self, values: &Vec<u64>)
        requires
            old(self)@.wf(),
            !old(self)@.locked,
            old(self)@.state == ProcState::Processing,
            values@.len() <= old(self)@.data.len(),
            old(self)@.type_.kind == FerVarKind::Scalar ==> values@.len() == 1,
        ensures
            final(self)@.wf(),
            final(self)@.same_but_data(old(self)@),
            final(self)@.data == values@ + old(self)@.data.subrange(
                values@.len() as int,
                old(self)@.data.len() as int,
            ),
            final(self)@.len == values@.len(),
    {
        let n = values.len();
        let mut i: usize = 0;
        while i < n
            invariant
                0 <= i <= n,
                n == values@.len(),
                n <= self.data@.len(),
                self.data@.len() == old(self)@.data.len(),
                self@.same_but_data(old(self)@),
                self.len == old(self).len,
                forall|k: int| 0 <= k < i ==> self.data@[k] == values@[k],
                forall|k: int| n <= k < self.data@.len() ==> self.data@[k] == old(self).data@[k],
            decreases n - i,
        {
            self.data.set(i, values[i]);
            i = i + 1;
        }
        self.len = n;
        assert(self@.data =~= values@ + old(self)@.data.subrange(n as int, old(self)@.data.len() as int));
    }

    /// Host side: the values the application left in the buffer, read before the host ends processing.
    pub fn host_load(&self) -> (r: Vec<u64>)
        requires
            self@.wf(),
            !self@.locked,
            self@.state == ProcState::Ready,
        ensures
            r@ == self@.contents(),
    {
        self.load_all()
    }

    fn load_all(&self) -> (r: Vec<u64>)
        requires
            self@.len <= self@.data.len(),
        ensures
            r@ == self@.contents(),
    {
        let mut out: Vec<u64> = Vec::new();
        let mut i: usize = 0;
        while i < self.len
            invariant
                0 <= i <= self.len,
                self.len <= self.data@.len(),
                out@ == self.data@.subrange(0, i as int),
            decreases self.len - i,
        {
            out.push(self.data[i]);
            i = i + 1;
        }
        out
    }

    /// Number of cells in the data buffer.
    pub fn capacity(&self) -> (r: usize)
        ensures
            r == self@.data.len(),
    {
        self.data.len()
    }

    /// Reads one cell; only inside the processing window.
    pub fn load(&self, i: usize) -> (r: u64)
        requires
            self@.wf(),
            self@.in_window(),
            i < self@.data.len(),
        ensures
            r == self@.data[i as int],
    {
        self.data[i]
    }

    /// Writes one cell; only inside the processing window.
    pub fn store(&mut self, i: usize, bits: u64)
        requires
            old(self)@.wf(),
            old(self)@.in_window(),
            i < old(self)@.data.len(),
        ensures
            final(self)@ == (VariableView { data: old(self)@.data.update(i as int, bits), ..old(self)@ }),
    {
        self.data.set(i, bits);
    }

    /// Current length of an array; only inside the processing window.
    pub fn array_len(&self) -> (r: usize)
        requires
            self@.wf(),
            self@.in_window(),
        ensures
            r == self@.len,
    {
        self.len
    }

    /// Sets the current length of an array; only inside the processing window.
    pub fn array_set_len(&mut self, new_len: usize)
        requires
            old(self)@.wf(),
            old(self)@.in_window(),
            old(self)@.type_.kind == FerVarKind::Array,
            new_len <= old(self)@.data.len(),
        ensures
            final(self)@ == (VariableView { len: new_len as nat, ..old(self)@ }),
    {
        self.len = new_len;
    }

    /// Drives an operation towards a processing window.
    ///
    /// From `Idle` it requests processing; from `Complete` (a cycle left behind by
    /// an abandoned operation) it cleans up and requests anew. Returns whether
    /// the window is open, together with the call to forward to the host.
    pub fn await_window(&mut self) -> (r: (bool, HostCall))
        requires
            old(self)@.wf(),
            !old(self)@.locked,
        ensures
            final(self)@.wf(),
            final(self)@.waker,
            !final(self)@.locked,
            final(self)@.name == old(self)@.name,
            final(self)@.type_ == old(self)@.type_,
            final(self)@.data == old(self)@.data,
            final(self)@.len == old(self)@.len,
            r.0 == (old(self)@.state == ProcState::Processing),
            old(self)@.state == ProcState::Idle ==> {
                &&& final(self)@.state == ProcState::Requested
                &&& final(self)@.trace == old(self)@.trace.push(ProcState::Requested)
                &&& r.1 == HostCall::RequestProc
            },
            old(self)@.state == ProcState::Complete ==> {
                &&& final(self)@.state == ProcState::Requested
                &&& final(self)@.trace == old(self)@.trace.push(ProcState::Idle).push(
                    ProcState::Requested,
                )
                &&& r.1 == HostCall::RequestProc
            },
            old(self)@.state != ProcState::Idle && old(self)@.state != ProcState::Complete ==> {
                &&& final(self)@.state == old(self)@.state
                &&& final(self)@.trace == old(self)@.trace
                &&& r.1 == HostCall::Nothing
            },
    {
        self.set_waker();
        let state = self.proc_state();
        match state {
            ProcState::Idle => {
                self.lock();
                let call = self.request_proc();
                self.unlock();
                (false, call)
            },
            ProcState::Complete => {
                self.lock();
                self.clean_proc();
                let call = self.request_proc();
                self.unlock();
                (false, call)
            },
            ProcState::Processing => (true, HostCall::Nothing),
            _ => (false, HostCall::Nothing),
        }
    }

    /// Opens the processing window: takes the lock while the state is `Processing`.
    pub fn open_window(&mut self)
        requires
            old(self)@.wf(),
            !old(self)@.locked,
            old(self)@.state == ProcState::Processing,
        ensures
            final(self)@.wf(),
            final(self)@.in_window(),
            final(self)@ == (VariableView {
                locked: true,
                lock_count: old(self)@.lock_count + 1,
                ..old(self)@
            }),
    {
        self.lock();
    }

    /// Closes the processing window: marks processing complete and releases the lock.
    pub fn close_window(&mut self) -> (r: HostCall)
        requires
            old(self)@.wf(),
            old(self)@.in_window(),
        ensures
            r == HostCall::CompleteProc,
            final(self)@.wf(),
            final(self)@ == (VariableView {
                state: ProcState::Ready,
                trace: old(self)@.trace.push(ProcState::Ready),
                locked: false,
                unlock_count: old(self)@.unlock_count + 1,
                ..old(self)@
            }),
    {
        let call = self.complete_proc();
        self.unlock();
        call
    }

    /// Waits for the host to acknowledge completion, then returns the variable to `Idle`.
    ///
    /// Returns whether the operation has finished.
    pub fn await_complete(&mut self) -> (r: bool)
        requires
            old(self)@.wf(),
            !old(self)@.locked,
            old(self)@.state == ProcState::Ready || old(self)@.state == ProcState::Complete,
        ensures
            final(self)@.wf(),
            final(self)@.waker,
            !final(self)@.locked,
            final(self)@.name == old(self)@.name,
            final(self)@.type_ == old(self)@.type_,
            final(self)@.data == old(self)@.data,
            final(self)@.len == old(self)@.len,
            r == (old(self)@.state == ProcState::Complete),
            r ==> final(self)@.state == ProcState::Idle && final(self)@.trace == old(
                self,
            )@.trace.push(ProcState::Idle),
            !r ==> final(self)@.state == old(self)@.state && final(self)@.trace == old(
                self,
            )@.trace,
    {
        self.set_waker();
        if self.proc_state() == ProcState::Complete {
            self.lock();
            self.clean_proc();
            self.unlock();
            true
        } else {
            false
        }
    }
}

/// Every state sequence a variable has gone through is a path of the legal graph
/// from `Idle`, and so is each of its prefixes.
pub proof fn lemma_trace_prefix_closed(v: VariableView)
    requires
        v.wf(),
    ensures
        is_path(v.trace),
        forall|n: int| 1 <= n <= v.trace.len() ==> is_path(#[trigger] v.trace.subrange(0, n)),
{
    assert forall|n: int| 1 <= n <= v.trace.len() implies is_path(#[trigger] v.trace.subrange(0, n)) by {
        lemma_path_prefix_closed(v.trace, n);
    }
}

/// Whenever the bridge does not hold the lock, it has released it as often as it took it.
pub proof fn lemma_locks_balanced(v: VariableView)
    requires
        v.wf(),
        !v.locked,
    ensures
        v.lock_count == v.unlock_count,
{
}

} // verus!
