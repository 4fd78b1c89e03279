//! The one bit of a thread's signal mask that the harness depends on: whether
//! the fault signal is blocked.

use vstd::prelude::*;

verus! {

/// Whether the fault signal is blocked on a thread.
///
/// While the signal is blocked a fault cannot reach the handler. The runtime
/// blocks it for as long as the handler runs and unblocks it when the handler
/// returns; a handler that leaves by a jump has to unblock it itself. The
/// view is `true` while the signal is blocked.
#[derive(Debug)]
pub struct SignalMask {
    fault_blocked: bool,
}

impl SignalMask {
    /// Whether the fault signal is blocked.
    pub closed spec fn view(&self) -> bool {
        self.fault_blocked
    }

    /// The mask of a thread that can take the fault signal.
    pub fn new() -> (mask: Self)
        ensures
            !mask@,
    {
        SignalMask { fault_blocked: false }
    }

    /// Whether the fault signal is blocked.
    pub fn is_blocked(&self) -> (blocked: bool)
        ensures
            blocked == self@,
    {
        self.fault_blocked
    }

    /// Blocks the fault signal.
    pub fn block(&mut self)
        ensures
            final(self)@,
    {
        self.fault_blocked = true;
    }

    /// Unblocks the fault signal.
    pub fn unblock(&mut self)
        ensures
            !final(self)@,
    {
        self.fault_blocked = false;
    }
}

} // verus!
