//! The per-variable processing state machine shared by the host and the task.
use vstd::prelude::*;

verus! {

/// Processing phase of one variable.
#[derive(Clone, Copy, Debug, PartialEq, Eq, Structural)]
pub enum ProcState {
    /// No outstanding work.
    Idle,
    /// The application has asked the host to process.
    Requested,
    /// The host has granted a processing window; the data buffer may be accessed.
    Processing,
    /// The application has finished with the data buffer and signalled done.
    Ready,
    /// The host has acknowledged; the task may finish its operation.
    Complete,
}

/// A host callback that arrived in a state the protocol does not allow.
#[derive(Clone, Copy, Debug, PartialEq, Eq, Structural)]
pub enum ProtocolViolation {
    /// The host started processing while the variable was in the given state.
    UnexpectedBegin(ProcState),
    /// The host started processing of a write variable that nobody requested.
    UnrequestedWrite,
    /// The host ended processing while the variable was in the given state.
    UnexpectedEnd(ProcState),
}

impl ProcState {
    /// One legal transition of the processing graph.
    pub open spec fn is_step(self, next: ProcState) -> bool {
        ||| self == ProcState::Idle && next == ProcState::Requested
        ||| self == ProcState::Requested && next == ProcState::Processing
        ||| self == ProcState::Idle && next == ProcState::Processing
        ||| self == ProcState::Processing && next == ProcState::Ready
        ||| self == ProcState::Ready && next == ProcState::Complete
        ||| self == ProcState::Complete && next == ProcState::Idle
    }

    pub open spec fn spec_to_raw(self) -> u8 {
        match self {
            ProcState::Idle => 0,
            ProcState::Requested => 1,
            ProcState::Processing => 2,
            ProcState::Ready => 3,
            ProcState::Complete => 4,
        }
    }

    pub open spec fn spec_from_raw(raw: u8) -> Option<ProcState> {
        if raw == 0 {
            Some(ProcState::Idle)
        } else if raw == 1 {
            Some(ProcState::Requested)
        } else if raw == 2 {
            Some(ProcState::Processing)
        } else if raw == 3 {
            Some(ProcState::Ready)
        } else if raw == 4 {
            Some(ProcState::Complete)
        } else {
            None
        }
    }

    /// Encoding used to keep the state in a single atomic byte.
    pub fn to_raw(self) -> (r: u8)
        ensures
            r == self.spec_to_raw(),
    {
        match self {
            ProcState::Idle => 0,
            ProcState::Requested => 1,
            ProcState::Processing => 2,
            ProcState::Ready => 3,
            ProcState::Complete => 4,
        }
    }

    pub fn from_raw(raw: u8) -> (r: Option<ProcState>)
        ensures
            r == Self::spec_from_raw(raw),
    {
        if raw == 0 {
            Some(ProcState::Idle)
        } else if raw == 1 {
            Some(ProcState::Requested)
        } else if raw == 2 {
            Some(ProcState::Processing)
        } else if raw == 3 {
            Some(ProcState::Ready)
        } else if raw == 4 {
            Some(ProcState::Complete)
        } else {
            None
        }
    }
}

/// Decoding an encoded state gives the state back, and only the five codes decode.
pub proof fn lemma_raw_round_trip(s: ProcState, raw: u8)
    ensures
        ProcState::spec_from_raw(s.spec_to_raw()) == Some(s),
        ProcState::spec_from_raw(raw) is Some <==> raw < 5,
        ProcState::spec_from_raw(raw) is Some ==> ProcState::spec_from_raw(raw).unwrap().spec_to_raw()
            == raw,
{
}

/// A sequence of observed states that starts at `Idle` and moves by legal steps only.
pub open spec fn is_path(trace: Seq<ProcState>) -> bool {
    &&& trace.len() >= 1
    &&& trace[0] == ProcState::Idle
    &&& forall|i: int| 0 <= i < trace.len() - 1 ==> #[trigger] trace[i].is_step(trace[i + 1])
}

/// Every non-empty prefix of a path is itself a path.
pub proof fn lemma_path_prefix_closed(trace: Seq<ProcState>, n: int)
    requires
        is_path(trace),
        1 <= n <= trace.len(),
    ensures
        is_path(trace.subrange(0, n)),
{
    let p = trace.subrange(0, n);
    assert forall|i: int| 0 <= i < p.len() - 1 implies #[trigger] p[i].is_step(p[i + 1]) by {
        assert(trace[i].is_step(trace[i + 1]));
    }
}

/// Extending a path by a legal step keeps it a path.
pub proof fn lemma_path_extend(trace: Seq<ProcState>, next: ProcState)
    requires
        is_path(trace),
        trace.last().is_step(next),
    ensures
        is_path(trace.push(next)),
{
    let t = trace.push(next);
    assert forall|i: int| 0 <= i < t.len() - 1 implies #[trigger] t[i].is_step(t[i + 1]) by {
        if i < trace.len() - 1 {
            assert(trace[i].is_step(trace[i + 1]));
        }
    }
}

} // verus!
