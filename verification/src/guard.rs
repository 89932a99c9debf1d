//! The guard that owns a child process: armed from the moment the child
//! lives, and torn down exactly once, whichever way its owner goes away.

use vstd::prelude::*;

verus! {

/// The two states of a guard.
#[derive(Clone, Copy, Debug, PartialEq, Eq, Structural)]
pub enum GuardState {
    /// The guard holds a child that has not been asked to terminate.
    Armed,
    /// The termination request has been issued.
    Disarmed,
}

/// The guard of one child process. There is no way back to `Armed`, and no
/// way to disarm without asking for termination.
#[derive(Debug)]
pub struct Guard {
    state: GuardState,
}

impl View for Guard {
    type V = GuardState;

    closed spec fn view(&self) -> GuardState {
        self.state
    }
}

impl Guard {
    /// A guard for a child that has just been spawned.
    pub fn arm() -> (r: Guard)
        ensures
            r@ == GuardState::Armed,
    {
        Guard { state: GuardState::Armed }
    }

    /// The state of the guard.
    pub fn state(&self) -> (r: GuardState)
        ensures
            r == self@,
    {
        self.state
    }

    /// Whether the guard still owes its child a termination request.
    pub fn is_armed(&self) -> (r: bool)
        ensures
            r == (self@ == GuardState::Armed),
    {
        self.state == GuardState::Armed
    }

    /// Tears the guard down. The result says whether the caller must now ask
    /// the child to terminate: it does on the first teardown and never again.
    /// What becomes of that request is of no concern to the guard: a child
    /// that has ended already ignores it.
    pub fn teardown(&mut self) -> (issue: bool)
        ensures
            final(self)@ == GuardState::Disarmed,
            issue == (old(self)@ == GuardState::Armed),
    {
        let issue: bool = self.state == GuardState::Armed;
        self.state = GuardState::Disarmed;
        issue
    }
}

} // verus!
