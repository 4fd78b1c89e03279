//! Per-thread guard state: the reentrancy flag and the saved jump target.

use vstd::prelude::*;

verus! {

/// A saved execution context: the point at which a thread resumes when a
/// fault is intercepted. The value is opaque; only its identity matters.
#[derive(Clone, Copy, Debug, PartialEq, Eq, Structural)]
pub struct NonLocalContext {
    /// Identifies the resumption point.
    pub checkpoint: u64,
}

/// Refusal to establish a guard on a thread that already has one.
#[derive(Clone, Copy, Debug, PartialEq, Eq, Structural)]
pub struct NestedGuardError {
    /// The jump target of the guard that is still active.
    pub outer: NonLocalContext,
}

/// The guard state of one thread.
///
/// The reentrancy flag is set exactly while a jump target is saved. The view
/// of the state is that jump target: `None` when no guard is active.
#[derive(Debug)]
pub struct ThreadGuardState {
    jump_target: Option<NonLocalContext>,
    active: bool,
}

impl ThreadGuardState {
    #[verifier::type_invariant]
    spec fn flag_matches_target(self) -> bool {
        self.active == self.jump_target.is_some()
    }

    /// The saved jump target, `None` when the thread is not guarded.
    pub closed spec fn view(&self) -> Option<NonLocalContext> {
        self.jump_target
    }

    /// The state of a thread on which no guard is active.
    pub fn new() -> (state: Self)
        ensures
            state@ is None,
    {
        ThreadGuardState { jump_target: None, active: false }
    }

    /// The reentrancy flag.
    pub fn is_active(&self) -> (active: bool)
        ensures
            active == self@.is_some(),
    {
        proof {
            use_type_invariant(self);
        }
        self.active
    }

    /// The saved jump target, as the fault handler reads it.
    pub fn jump_target(&self) -> (target: Option<NonLocalContext>)
        ensures
            target == self@,
    {
        self.jump_target
    }

    /// Sets the reentrancy flag and saves `target`, unless a guard is active
    /// already: guards do not nest, and a refused attempt changes nothing.
    pub fn establish(&mut self, target: NonLocalContext) -> (established: Result<
        (),
        NestedGuardError,
    >)
        ensures
            old(self)@ is None ==> established is Ok && final(self)@ == Some(target),
            old(self)@ matches Some(outer) ==> established == Err::<(), NestedGuardError>(
                NestedGuardError { outer },
            ) && final(self)@ == old(self)@,
    {
        match self.jump_target {
            Some(outer) => Err(NestedGuardError { outer }),
            None => {
                *self = ThreadGuardState { jump_target: Some(target), active: true };
                Ok(())
            },
        }
    }

    /// Clears the reentrancy flag and forgets the jump target.
    pub fn clear(&mut self)
        ensures
            final(self)@ is None,
    {
        *self = ThreadGuardState { jump_target: None, active: false };
    }
}

} // verus!
