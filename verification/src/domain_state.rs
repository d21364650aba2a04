//! Normalization of hypervisor state codes into a closed vocabulary.

use vstd::prelude::*;

verus! {

/// Canonical runtime state of a domain.
///
/// Any state code outside the known range maps to `Unknown`; this is a
/// deliberate forward-compatibility policy, not an error.
#[derive(Clone, Copy, Debug, PartialEq, Eq, Structural)]
pub enum State {
    NoState,
    Running,
    Blocked,
    Paused,
    Shutdown,
    Shutoff,
    Crashed,
    PmSuspended,
    Unknown,
}

/// What `State::new` returns for each state code: the codes 0 through 7
/// map to their canonical state, every other code maps to `Unknown`.
pub open spec fn spec_normalize(code: int) -> State {
    if code == 0 {
        State::NoState
    } else if code == 1 {
        State::Running
    } else if code == 2 {
        State::Blocked
    } else if code == 3 {
        State::Paused
    } else if code == 4 {
        State::Shutdown
    } else if code == 5 {
        State::Shutoff
    } else if code == 6 {
        State::Crashed
    } else if code == 7 {
        State::PmSuspended
    } else {
        State::Unknown
    }
}

impl State {
    /// Normalizes a raw hypervisor state code. Total: codes the
    /// hypervisor may add in future protocol versions yield `Unknown`.
    /// A state embedded in a combined info tuple is normalized the same
    /// way: out-of-range combined codes also yield `Unknown`.
    pub fn new(s: u32) -> (r: State)
        ensures
            r == spec_normalize(s as int),
    {
        match s {
            0 => State::NoState,
            1 => State::Running,
            2 => State::Blocked,
            3 => State::Paused,
            4 => State::Shutdown,
            5 => State::Shutoff,
            6 => State::Crashed,
            7 => State::PmSuspended,
            _ => State::Unknown,
        }
    }

    /// The human-readable label of each state, as it appears both in the
    /// structured output and in the table.
    pub open spec fn spec_label(self) -> Seq<char> {
        match self {
            State::NoState => "none"@,
            State::Running => "running"@,
            State::Blocked => "blocked"@,
            State::Paused => "paused"@,
            State::Shutdown => "shutdown"@,
            State::Shutoff => "shutoff"@,
            State::Crashed => "crashed"@,
            State::PmSuspended => "suspended"@,
            State::Unknown => "unknown"@,
        }
    }

    /// Human-readable label of the state.
    pub fn label(&self) -> (r: &'static str)
        ensures
            r@ == self.spec_label(),
    {
        match self {
            State::NoState => "none",
            State::Running => "running",
            State::Blocked => "blocked",
            State::Paused => "paused",
            State::Shutdown => "shutdown",
            State::Shutoff => "shutoff",
            State::Crashed => "crashed",
            State::PmSuspended => "suspended",
            State::Unknown => "unknown",
        }
    }
}

} // verus!
