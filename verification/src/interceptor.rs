//! The platform fault interceptor: the process-wide handler for invalid
//! memory accesses, its one-time installation, and what it decides when a
//! fault reaches it.

use crate::guard::{NonLocalContext, ThreadGuardState};
use crate::mask::SignalMask;
use vstd::prelude::*;

verus! {

/// The fault model of the platform the harness is built for.
#[derive(Clone, Copy, Debug, PartialEq, Eq, Structural)]
pub enum Platform {
    /// Faults arrive as signals; the runtime blocks the signal while its
    /// handler runs.
    Unix,
    /// Faults arrive as structured exceptions.
    Windows,
}

/// What the handler does so that control can leave the faulting context and
/// a later fault on the same thread is intercepted again.
#[derive(Clone, Copy, Debug, PartialEq, Eq, Structural)]
pub enum Restoration {
    /// Unblock the fault signal in the thread's signal mask. A jump out of
    /// the handler skips the return that would have unblocked it.
    UnblockSignal,
    /// Tell the runtime's exception continuation that the exception is
    /// handled.
    ContinueHandled,
}

/// The handler's decision on one fault.
#[derive(Clone, Copy, Debug, PartialEq, Eq, Structural)]
pub enum HandlerAction {
    /// The fault is not the harness's to intercept: the platform's default
    /// behaviour follows.
    Unhandled,
    /// Restore, then jump to `target`, discarding the stack above it. Nothing
    /// between the fault and the target is unwound or released.
    Jump {
        /// The saved execution context at which the thread resumes.
        target: NonLocalContext,
        /// What the handler does before it jumps.
        restoration: Restoration,
    },
}

/// A fault that the harness did not intercept: it did not reach the handler,
/// or no guard was active. What follows is the platform's default behaviour,
/// which the harness does not recover from.
#[derive(Clone, Copy, Debug, PartialEq, Eq, Structural)]
pub struct UnguardedFault;

impl Platform {
    /// Whether the runtime hands a fault to a registered handler, given
    /// whether the fault signal is blocked on the faulting thread. Only the
    /// signal path has a mask that can keep a fault from the handler.
    pub open spec fn delivers(self, fault_blocked: bool) -> bool {
        !(self == Platform::Unix && fault_blocked)
    }

    /// The restoration that this platform's handler owes before it jumps.
    pub open spec fn spec_restoration(self) -> Restoration {
        match self {
            Platform::Unix => Restoration::UnblockSignal,
            Platform::Windows => Restoration::ContinueHandled,
        }
    }

    /// The platform for a build target, given whether the target is
    /// unix-like and whether it is Windows. A unix-like target takes the
    /// signal path; a target that is neither has no interceptor.
    pub open spec fn spec_select(unix: bool, windows: bool) -> Option<Platform> {
        if unix {
            Some(Platform::Unix)
        } else if windows {
            Some(Platform::Windows)
        } else {
            None
        }
    }

    /// Chooses the interceptor implementation for a build target.
    pub fn select(unix: bool, windows: bool) -> (platform: Option<Platform>)
        ensures
            platform == Self::spec_select(unix, windows),
    {
        if unix {
            Some(Platform::Unix)
        } else if windows {
            Some(Platform::Windows)
        } else {
            None
        }
    }

    /// The restoration that this platform's handler performs before it jumps.
    pub fn restoration(self) -> (restoration: Restoration)
        ensures
            restoration == self.spec_restoration(),
    {
        match self {
            Platform::Unix => Restoration::UnblockSignal,
            Platform::Windows => Restoration::ContinueHandled,
        }
    }
}

/// The mathematical content of a [`ProcessInterceptorState`].
pub struct InterceptorModel {
    /// The platform whose handler is, or will be, registered.
    pub platform: Platform,
    /// Whether the handler is registered.
    pub installed: bool,
}

impl InterceptorModel {
    /// The state after one installation step.
    pub open spec fn install(self) -> InterceptorModel {
        InterceptorModel { platform: self.platform, installed: true }
    }

    /// Whether an installation step taken in this state registers the
    /// handler.
    pub open spec fn registers(self) -> bool {
        !self.installed
    }

    /// The state after the installation steps of `callers`, taken one after
    /// another in this order. Each entry names the thread that takes the
    /// step.
    pub open spec fn install_by(self, callers: Seq<nat>) -> InterceptorModel
        decreases callers.len(),
    {
        if callers.len() == 0 {
            self
        } else {
            self.install().install_by(callers.drop_first())
        }
    }

    /// Those of `callers` whose installation step registers the handler, in
    /// the order of their steps.
    pub open spec fn registrants(self, callers: Seq<nat>) -> Seq<nat>
        decreases callers.len(),
    {
        if callers.len() == 0 {
            Seq::empty()
        } else {
            let later = self.install().registrants(callers.drop_first());
            if self.registers() {
                seq![callers.first()] + later
            } else {
                later
            }
        }
    }

    /// Whether a fault raised on a thread reaches the handler, given whether
    /// the fault signal is blocked on that thread. It does not where no
    /// handler is registered, nor where faults arrive as signals and the
    /// signal is blocked.
    pub open spec fn reaches_handler(self, fault_blocked: bool) -> bool {
        self.installed && self.platform.delivers(fault_blocked)
    }

    /// What becomes of a fault raised on a thread whose saved jump target is
    /// `guard`. A fault that does not reach the handler, or that finds no
    /// guard active, is left to the platform. Otherwise the handler restores
    /// as the platform requires and jumps to the saved target.
    pub open spec fn intercept(self, guard: Option<NonLocalContext>, fault_blocked: bool)
        -> HandlerAction {
        match guard {
            Some(target) if self.reaches_handler(fault_blocked) => HandlerAction::Jump {
                target,
                restoration: self.platform.spec_restoration(),
            },
            _ => HandlerAction::Unhandled,
        }
    }
}

/// Process-wide interceptor state: set up once, never torn down.
#[derive(Debug)]
pub struct ProcessInterceptorState {
    platform: Platform,
    installed: bool,
}

impl ProcessInterceptorState {
    /// The platform and the installation flag.
    pub closed spec fn view(&self) -> InterceptorModel {
        InterceptorModel { platform: self.platform, installed: self.installed }
    }

    /// The state of a process in which nothing is installed yet.
    pub fn new(platform: Platform) -> (state: Self)
        ensures
            state@ == (InterceptorModel { platform, installed: false }),
    {
        ProcessInterceptorState { platform, installed: false }
    }

    /// The platform this interceptor is for.
    pub fn platform(&self) -> (platform: Platform)
        ensures
            platform == self@.platform,
    {
        self.platform
    }

    /// Whether the handler is registered.
    pub fn is_installed(&self) -> (installed: bool)
        ensures
            installed == self@.installed,
    {
        self.installed
    }

    /// The installation step. The first step registers the handler and says
    /// so by returning `true`; every later step finds it registered, changes
    /// nothing and returns `false`.
    pub fn install(&mut self) -> (registered: bool)
        ensures
            final(self)@ == old(self)@.install(),
            registered == old(self)@.registers(),
    {
        let registered = !self.installed;
        self.installed = true;
        registered
    }

    /// Takes a fault raised on the thread that owns `guard` and `mask` from
    /// the hardware to the handler's decision.
    ///
    /// Where faults arrive as signals, the runtime blocks the fault signal
    /// while the handler runs. The handler reads the guard state and never
    /// changes it: the thread that resumes at the jump target clears it.
    /// Before it jumps, the handler undoes the blocking, which its return
    /// would have undone; so the mask is the same after the fault as before
    /// it, whatever the decision.
    pub fn intercept(&self, guard: &ThreadGuardState, mask: &mut SignalMask) -> (action:
        HandlerAction)
        ensures
            action == self@.intercept(guard@, old(mask)@),
            final(mask)@ == old(mask)@,
    {
        if !self.installed {
            return HandlerAction::Unhandled;
        }
        // The runtime enters the handler.
        match self.platform {
            Platform::Unix => {
                if mask.is_blocked() {
                    return HandlerAction::Unhandled;
                }
                mask.block();
            },
            Platform::Windows => {},
        }
        // The handler decides.
        match guard.jump_target() {
            None => {
                // The handler returns, and the runtime undoes its blocking.
                match self.platform {
                    Platform::Unix => mask.unblock(),
                    Platform::Windows => {},
                }
                HandlerAction::Unhandled
            },
            Some(target) => {
                // The handler leaves by a jump, and has to restore itself.
                let restoration = self.platform.restoration();
                match restoration {
                    Restoration::UnblockSignal => mask.unblock(),
                    Restoration::ContinueHandled => {},
                }
                HandlerAction::Jump { target, restoration }
            },
        }
    }
}

/// A fault on a guarded thread that can take it is answered by a jump to the
/// saved target, after the restoration that the platform requires: on the
/// signal path, unblocking the fault signal.
pub proof fn theorem_guarded_fault_is_intercepted(
    interceptor: InterceptorModel,
    target: NonLocalContext,
)
    requires
        interceptor.installed,
    ensures
        interceptor.intercept(Some(target), false) == (HandlerAction::Jump {
            target,
            restoration: interceptor.platform.spec_restoration(),
        }),
        interceptor.platform == Platform::Unix ==> interceptor.platform.spec_restoration()
            == Restoration::UnblockSignal,
        interceptor.platform == Platform::Windows ==> interceptor.platform.spec_restoration()
            == Restoration::ContinueHandled,
{
}

/// A fault on a thread without an active guard is never intercepted.
pub proof fn theorem_unguarded_fault_is_left_alone(interceptor: InterceptorModel, fault_blocked: bool)
    ensures
        interceptor.intercept(None, fault_blocked) == HandlerAction::Unhandled,
{
}

/// One installation step does all that installation ever does: a second step
/// leaves the state as the first left it and registers nothing.
pub proof fn theorem_install_idempotent(state: InterceptorModel)
    ensures
        state.install().install() == state.install(),
        state.install().installed,
        !state.install().registers(),
{
}

/// Any number of installation steps, at least one, by whichever threads and
/// in whichever order they take effect, leave the state that a single step
/// leaves.
pub proof fn theorem_repeated_install_is_one_install(state: InterceptorModel, callers: Seq<nat>)
    requires
        callers.len() >= 1,
    ensures
        state.install_by(callers) == state.install(),
    decreases callers.len(),
{
    let later = callers.drop_first();
    if later.len() >= 1 {
        theorem_repeated_install_is_one_install(state.install(), later);
    } else {
        assert(state.install().install_by(later) == state.install());
    }
}

/// The first caller wins. Where the handler is not registered yet, the
/// caller whose step takes effect first registers it and no other does;
/// where it is registered, nobody registers it again.
pub proof fn theorem_first_caller_registers(state: InterceptorModel, callers: Seq<nat>)
    ensures
        state.registrants(callers) == if state.installed || callers.len() == 0 {
            Seq::<nat>::empty()
        } else {
            seq![callers.first()]
        },
    decreases callers.len(),
{
    if callers.len() > 0 {
        theorem_first_caller_registers(state.install(), callers.drop_first());
        if state.registers() {
            assert(seq![callers.first()] + Seq::<nat>::empty() =~= seq![callers.first()]);
        }
    }
}

} // verus!
