//! The guarded invocation trampoline: establishes the jump target, lets the
//! operation run through the exception relay, and observes whether control
//! came back by a normal return or by the interceptor's jump.

use crate::guard::{NonLocalContext, ThreadGuardState};
use crate::interceptor::{HandlerAction, InterceptorModel, ProcessInterceptorState, UnguardedFault};
use crate::mask::SignalMask;
use crate::relay::{relay, CapturedException};
use crate::signature::FaultSignature;
use vstd::prelude::*;

verus! {

/// The direction of a memory access.
#[derive(Clone, Copy, Debug, PartialEq, Eq, Structural)]
pub enum AccessKind {
    /// A load from the address.
    Read,
    /// A store to the address.
    Write,
}

/// A memory access that the hardware refused: the address is unmapped, or
/// protected against this kind of access.
#[derive(Clone, Copy, Debug, PartialEq, Eq, Structural)]
pub struct Access {
    /// Whether the operation read or wrote.
    pub kind: AccessKind,
    /// The address it tried to access.
    pub address: usize,
}

/// How an operation ended once it was invoked.
#[derive(Debug)]
pub enum Completion<P> {
    /// It returned: every access it made was to memory it may access.
    Returned,
    /// It raised an exception with this payload, without faulting.
    Raised(P),
    /// It made an invalid memory access and went no further.
    Faulted(Access),
}

/// Everything the harness depends on per thread.
#[derive(Debug)]
pub struct ThreadState<P> {
    /// The reentrancy flag and the jump target.
    pub guard: ThreadGuardState,
    /// The relay's slot.
    pub captured: CapturedException<P>,
    /// Whether the thread can take the fault signal.
    pub mask: SignalMask,
}

/// The mathematical content of a [`ThreadState`].
pub struct ThreadModel<P> {
    /// The saved jump target; `None` when no guard is active.
    pub guard: Option<NonLocalContext>,
    /// The payload in the relay's slot; `None` when it is empty.
    pub captured: Option<P>,
    /// Whether the fault signal is blocked.
    pub fault_blocked: bool,
}

impl<P> ThreadModel<P> {
    /// No guard is active, the relay's slot is empty and the fault signal is
    /// not blocked: the state in which every thread starts.
    pub open spec fn at_rest(self) -> bool {
        self.guard is None && self.captured is None && !self.fault_blocked
    }

    /// This thread with its guard cleared.
    pub open spec fn unguarded(self) -> ThreadModel<P> {
        ThreadModel { guard: None, captured: self.captured, fault_blocked: self.fault_blocked }
    }

    /// This thread with `captured` in the relay's slot.
    pub open spec fn holding(self, captured: Option<P>) -> ThreadModel<P> {
        ThreadModel { guard: self.guard, captured, fault_blocked: self.fault_blocked }
    }

    /// This thread with `target` as its jump target.
    pub open spec fn guarded_by(self, target: NonLocalContext) -> ThreadModel<P> {
        ThreadModel {
            guard: Some(target),
            captured: self.captured,
            fault_blocked: self.fault_blocked,
        }
    }

    /// The thread after the operation has ended and control is back in the
    /// trampoline, by a return or by the handler's jump; and what the
    /// trampoline observed.
    ///
    /// The guard is clear and the signal mask is as it was. An exception
    /// that the operation raised is in the relay's slot, and the signature is
    /// `NoFault` as for a return. A fault gives `Faulted` exactly when the
    /// handler intercepts it: a handler is registered, the fault reaches it,
    /// and a guard is active. Any other fault is left to the platform.
    pub open spec fn observe(self, interceptor: InterceptorModel, completion: Completion<P>) -> (
        ThreadModel<P>,
        Result<FaultSignature, UnguardedFault>,
    ) {
        match completion {
            Completion::Returned => (self.unguarded(), Ok(FaultSignature::NoFault)),
            Completion::Raised(payload) => (
                self.unguarded().holding(Some(payload)),
                Ok(FaultSignature::NoFault),
            ),
            Completion::Faulted(_) => (
                self.unguarded(),
                if self.guard is Some && interceptor.reaches_handler(self.fault_blocked) {
                    Ok(FaultSignature::Faulted)
                } else {
                    Err(UnguardedFault)
                },
            ),
        }
    }

    /// The thread after one pass through the trampoline, and how the pass
    /// ended.
    ///
    /// Where a guard is active the pass is refused and nothing changes.
    /// Otherwise the operation runs under a guard of the pass's own, and the
    /// pass ends with what the trampoline observes.
    pub open spec fn trampoline(
        self,
        interceptor: InterceptorModel,
        context: NonLocalContext,
        completion: Completion<P>,
    ) -> (ThreadModel<P>, Result<FaultSignature, UnguardedFault>) {
        match self.guard {
            Some(_) => (self, Ok(FaultSignature::NestedGuardError)),
            None => self.guarded_by(context).observe(interceptor, completion),
        }
    }
}

impl<P> ThreadState<P> {
    /// The jump target, the captured payload and the mask bit.
    pub open spec fn view(&self) -> ThreadModel<P> {
        ThreadModel { guard: self.guard@, captured: self.captured@, fault_blocked: self.mask@ }
    }

    /// The state of a thread that has made no guarded call yet.
    pub fn new() -> (thread: Self)
        ensures
            thread@.at_rest(),
    {
        ThreadState {
            guard: ThreadGuardState::new(),
            captured: CapturedException::new(),
            mask: SignalMask::new(),
        }
    }
}

/// The second half of a pass through the trampoline: the operation has been
/// invoked through the relay and has ended as `completion` says.
///
/// An exception goes into the relay's slot. A fault goes to the handler; if
/// the handler intercepts it, control comes back by its jump to the saved
/// target, and the stack in between is abandoned, not unwound. By whichever
/// way control came back, the guard is cleared before the pass returns. A
/// fault that the handler does not intercept ends the pass with
/// `UnguardedFault`.
pub fn observe<P>(
    interceptor: &ProcessInterceptorState,
    thread: &mut ThreadState<P>,
    completion: Completion<P>,
) -> (observed: Result<FaultSignature, UnguardedFault>)
    ensures
        (final(thread)@, observed) == old(thread)@.observe(interceptor@, completion),
{
    let observed = match completion {
        Completion::Returned => {
            relay(&mut thread.captured, Ok(()));
            Ok(FaultSignature::NoFault)
        },
        Completion::Raised(payload) => {
            relay(&mut thread.captured, Err(payload));
            Ok(FaultSignature::NoFault)
        },
        Completion::Faulted(_) => match interceptor.intercept(&thread.guard, &mut thread.mask) {
            HandlerAction::Jump { .. } => Ok(FaultSignature::Faulted),
            HandlerAction::Unhandled => Err(UnguardedFault),
        },
    };
    thread.guard.clear();
    observed
}

/// One pass through the trampoline on `thread`, for an operation that ends
/// as `completion` says.
///
/// A pass on a thread whose guard is active is refused with
/// `NestedGuardError`: the operation is not invoked and the thread's state is
/// not touched. Otherwise `context` is the jump target while the operation
/// runs, and the pass ends as [`observe`] says. The signature is `Faulted`
/// exactly when a fault was intercepted.
pub fn trampoline<P>(
    interceptor: &ProcessInterceptorState,
    thread: &mut ThreadState<P>,
    context: NonLocalContext,
    completion: Completion<P>,
) -> (passed: Result<FaultSignature, UnguardedFault>)
    ensures
        (final(thread)@, passed) == old(thread)@.trampoline(interceptor@, context, completion),
{
    match thread.guard.establish(context) {
        Err(_) => Ok(FaultSignature::NestedGuardError),
        Ok(_) => observe(interceptor, thread, completion),
    }
}

/// On a thread without a guard, with the handler registered and the fault
/// deliverable, a pass through the trampoline leaves the thread's guard and
/// mask as they were, and its signature is `Faulted` if and only if the
/// operation faulted.
pub proof fn theorem_signature_tells_fault<P>(
    thread: ThreadModel<P>,
    interceptor: InterceptorModel,
    context: NonLocalContext,
    completion: Completion<P>,
)
    requires
        thread.guard is None,
        interceptor.reaches_handler(thread.fault_blocked),
    ensures
        thread.trampoline(interceptor, context, completion).1 is Ok,
        thread.trampoline(interceptor, context, completion).1 == Ok::<
            FaultSignature,
            UnguardedFault,
        >(FaultSignature::Faulted) <==> completion is Faulted,
        thread.trampoline(interceptor, context, completion).0.guard is None,
        thread.trampoline(interceptor, context, completion).0.fault_blocked
            == thread.fault_blocked,
{
}

} // verus!
