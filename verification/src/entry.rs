//! The public entry point: runs one guarded call and tells the caller what
//! became of it.

use crate::guard::NonLocalContext;
use crate::interceptor::{
    theorem_repeated_install_is_one_install, HandlerAction, InterceptorModel, Platform,
    ProcessInterceptorState, UnguardedFault,
};
use crate::relay::CapturedException;
use crate::signature::FaultSignature;
use crate::trampoline::{observe, trampoline, Access, Completion, ThreadModel, ThreadState};
use vstd::pervasive::unreached;
use vstd::prelude::*;

verus! {

/// Why a guarded call produced no signature for its caller.
#[derive(Debug, PartialEq, Eq)]
pub enum GuardFailure<P> {
    /// The operation raised an exception. The payload is the one it raised,
    /// unwrapped, for the caller to raise again.
    Raised(P),
    /// The call was made while another guarded call was running on the same
    /// thread. This is a programming error in the caller and is not retried.
    NestedGuard,
    /// The operation faulted and the fault was not intercepted. The harness
    /// does not support this: the platform's default behaviour, typically the
    /// end of the process, has taken over.
    UnguardedFault,
}

/// The text of the message that goes with a nested guarded call.
pub open spec fn nested_guard_text() -> Seq<char> {
    "Nested segmentation fault assertion is not supported."@
}

/// The message with which a caller reports `GuardFailure::NestedGuard`.
pub fn nested_guard_message() -> (message: &'static str)
    ensures
        message@ == nested_guard_text(),
{
    "Nested segmentation fault assertion is not supported."
}

/// What the entry point makes of the trampoline's signature, given what the
/// relay's slot holds: the slot afterwards, and the outcome for the caller.
///
/// After a pass without a fault, an exception in the slot is taken out and
/// handed on. After a fault the slot is emptied. A refused pass leaves the
/// slot to the call that owns it.
pub open spec fn resolution<P>(signature: FaultSignature, captured: Option<P>) -> (
    Option<P>,
    Result<FaultSignature, GuardFailure<P>>,
) {
    match signature {
        FaultSignature::NoFault => (
            None,
            match captured {
                Some(payload) => Err(GuardFailure::Raised(payload)),
                None => Ok(FaultSignature::NoFault),
            },
        ),
        FaultSignature::Faulted => (None, Ok(FaultSignature::Faulted)),
        FaultSignature::NestedGuardError => (captured, Err(GuardFailure::NestedGuard)),
    }
}

/// What [`check_segv`] returns for a resolved outcome: whether a fault was
/// intercepted, or the failure as it is.
pub open spec fn fault_observed<P>(outcome: Result<FaultSignature, GuardFailure<P>>) -> Result<
    bool,
    GuardFailure<P>,
> {
    match outcome {
        Ok(signature) => Ok(signature == FaultSignature::Faulted),
        Err(failure) => Err(failure),
    }
}

/// What a guarded call reports when nothing stands in its way: `Faulted` for
/// a fault, the exception itself for an exception, `NoFault` for a return.
pub open spec fn report<P>(completion: Completion<P>) -> Result<FaultSignature, GuardFailure<P>> {
    match completion {
        Completion::Faulted(_) => Ok(FaultSignature::Faulted),
        Completion::Raised(payload) => Err(GuardFailure::Raised(payload)),
        Completion::Returned => Ok(FaultSignature::NoFault),
    }
}

impl<P> ThreadModel<P> {
    /// The thread after a guarded call has begun with `context` as its jump
    /// target, and whether it could begin: it cannot while a guard is
    /// active, and then nothing changes.
    pub open spec fn begin(self, context: NonLocalContext) -> (
        ThreadModel<P>,
        Result<(), GuardFailure<P>>,
    ) {
        match self.guard {
            Some(_) => (self, Err(GuardFailure::NestedGuard)),
            None => (self.guarded_by(context), Ok(())),
        }
    }

    /// The thread after the guarded call that is under way has finished, and
    /// the call's outcome, for an operation that ended as `completion` says.
    ///
    /// The guard is clear and the relay's slot empty afterwards. The outcome
    /// is `Faulted` for a fault that the handler intercepts, the exception
    /// itself for an exception, `NoFault` for a return. When the operation
    /// returns, a payload that was in the slot comes out as if the operation
    /// had raised it.
    pub open spec fn finish(self, interceptor: InterceptorModel, completion: Completion<P>) -> (
        ThreadModel<P>,
        Result<FaultSignature, GuardFailure<P>>,
    ) {
        (
            self.unguarded().holding(None),
            match completion {
                Completion::Faulted(_) => if self.guard is Some && interceptor.reaches_handler(
                    self.fault_blocked,
                ) {
                    Ok(FaultSignature::Faulted)
                } else {
                    Err(GuardFailure::UnguardedFault)
                },
                Completion::Raised(payload) => Err(GuardFailure::Raised(payload)),
                Completion::Returned => match self.captured {
                    Some(stale) => Err(GuardFailure::Raised(stale)),
                    None => Ok(FaultSignature::NoFault),
                },
            },
        )
    }

    /// The thread after as many guarded calls on `platform`, one after
    /// another, as `completions` has entries.
    pub open spec fn after_calls(self, platform: Platform, completions: Seq<Completion<P>>)
        -> ThreadModel<P>
        decreases completions.len(),
    {
        if completions.len() == 0 {
            self
        } else {
            self.after_calls(platform, completions.drop_last()).run_guarded(
                platform,
                completions.last(),
            ).0
        }
    }

    /// The thread after one guarded call on `platform`, and the call's
    /// outcome.
    ///
    /// A call made while a guard is active fails and changes nothing.
    /// Otherwise the guard is clear and the relay's slot empty afterwards,
    /// and the outcome follows how the operation ended: `Faulted` for a fault
    /// that the platform delivers to the handler, the exception itself for an
    /// exception, `NoFault` for a return. When the operation returns, a
    /// payload that was in the slot before the call comes out as if the
    /// operation had raised it.
    pub open spec fn run_guarded(self, platform: Platform, completion: Completion<P>) -> (
        ThreadModel<P>,
        Result<FaultSignature, GuardFailure<P>>,
    ) {
        match self.guard {
            Some(_) => (self, Err(GuardFailure::NestedGuard)),
            None => (
                self.holding(None),
                match completion {
                    Completion::Faulted(_) => if platform.delivers(self.fault_blocked) {
                        Ok(FaultSignature::Faulted)
                    } else {
                        Err(GuardFailure::UnguardedFault)
                    },
                    Completion::Raised(payload) => Err(GuardFailure::Raised(payload)),
                    Completion::Returned => match self.captured {
                        Some(stale) => Err(GuardFailure::Raised(stale)),
                        None => Ok(FaultSignature::NoFault),
                    },
                },
            ),
        }
    }
}

/// Reads the trampoline's signature for the caller, consuming what the relay
/// left in `captured`.
pub fn resolve<P>(signature: FaultSignature, captured: &mut CapturedException<P>) -> (outcome:
    Result<FaultSignature, GuardFailure<P>>)
    ensures
        (final(captured)@, outcome) == resolution(signature, old(captured)@),
{
    match signature {
        FaultSignature::NoFault => match captured.take() {
            Some(payload) => Err(GuardFailure::Raised(payload)),
            None => Ok(FaultSignature::NoFault),
        },
        FaultSignature::Faulted => {
            let _ = captured.take();
            Ok(FaultSignature::Faulted)
        },
        FaultSignature::NestedGuardError => Err(GuardFailure::NestedGuard),
    }
}

/// Ends a guarded call whose pass through the trampoline ended as `passed`
/// says. A signature is resolved; after a fault that was not intercepted the
/// slot is emptied and the failure handed on.
fn conclude<P>(passed: Result<FaultSignature, UnguardedFault>, captured: &mut CapturedException<P>)
    -> (outcome: Result<FaultSignature, GuardFailure<P>>)
    ensures
        (final(captured)@, outcome) == match passed {
            Ok(signature) => resolution(signature, old(captured)@),
            Err(_) => (None, Err(GuardFailure::UnguardedFault)),
        },
{
    match passed {
        Ok(signature) => resolve(signature, captured),
        Err(UnguardedFault) => {
            let _ = captured.take();
            Err(GuardFailure::UnguardedFault)
        },
    }
}

/// Begins a guarded call on `thread`: installs the handler if it is not yet
/// installed, and establishes the guard with `context` as the jump target.
/// The operation is to run next, and [`finish`] is to follow it.
///
/// While a guard is active on the thread the call fails with `NestedGuard`
/// and the thread is left as it was.
pub fn begin<P>(
    interceptor: &mut ProcessInterceptorState,
    thread: &mut ThreadState<P>,
    context: NonLocalContext,
) -> (begun: Result<(), GuardFailure<P>>)
    ensures
        final(interceptor)@ == old(interceptor)@.install(),
        (final(thread)@, begun) == old(thread)@.begin(context),
{
    interceptor.install();
    match thread.guard.establish(context) {
        Ok(_) => Ok(()),
        Err(_) => Err(GuardFailure::NestedGuard),
    }
}

/// Finishes the guarded call that is under way on `thread`, for an operation
/// that ended as `completion` says, and reports the call's outcome.
pub fn finish<P>(
    interceptor: &ProcessInterceptorState,
    thread: &mut ThreadState<P>,
    completion: Completion<P>,
) -> (outcome: Result<FaultSignature, GuardFailure<P>>)
    ensures
        (final(thread)@, outcome) == old(thread)@.finish(interceptor@, completion),
{
    let passed = observe(interceptor, thread, completion);
    conclude(passed, &mut thread.captured)
}

/// Runs one guarded call on `thread`, for an operation that ends as
/// `completion` says, and reports whether an invalid memory access occurred.
///
/// The handler is installed first, if it is not yet. `Ok` carries `Faulted`
/// or `NoFault`, never `NestedGuardError`: a nested call fails with
/// `GuardFailure::NestedGuard`, whatever the inner operation would have done.
pub fn run_guarded<P>(
    interceptor: &mut ProcessInterceptorState,
    thread: &mut ThreadState<P>,
    context: NonLocalContext,
    completion: Completion<P>,
) -> (outcome: Result<FaultSignature, GuardFailure<P>>)
    ensures
        final(interceptor)@ == old(interceptor)@.install(),
        (final(thread)@, outcome) == old(thread)@.run_guarded(
            old(interceptor)@.platform,
            completion,
        ),
{
    interceptor.install();
    let passed = trampoline(interceptor, thread, context, completion);
    conclude(passed, &mut thread.captured)
}

/// Decides what a guarded call returns once the native trampoline has come
/// back with `code`: `Ok(true)` when a fault was intercepted, `Ok(false)`
/// when the operation returned, and a failure when the operation raised an
/// exception or the call was nested.
///
/// `code` must be one of the three codes that stand for a signature.
pub fn check_segv<P>(code: i32, captured: &mut CapturedException<P>) -> (outcome: Result<
    bool,
    GuardFailure<P>,
>)
    requires
        FaultSignature::spec_from_code(code) is Some,
    ensures
        final(captured)@ == resolution(
            FaultSignature::spec_from_code(code).unwrap(),
            old(captured)@,
        ).0,
        outcome == fault_observed(
            resolution(FaultSignature::spec_from_code(code).unwrap(), old(captured)@).1,
        ),
{
    match FaultSignature::from_code(code) {
        Some(signature) => match resolve(signature, captured) {
            Ok(signature) => Ok(signature.faulted()),
            Err(failure) => Err(failure),
        },
        None => unreached(),
    }
}

/// An invalid memory access, read or write, at whatever address, is reported
/// as `Faulted` by a guarded call that is not nested, on a thread that the
/// platform delivers faults for.
pub proof fn theorem_invalid_access_is_reported<P>(
    thread: ThreadModel<P>,
    platform: Platform,
    access: Access,
)
    requires
        thread.guard is None,
        platform.delivers(thread.fault_blocked),
    ensures
        thread.run_guarded(platform, Completion::Faulted(access)).1 == Ok::<
            FaultSignature,
            GuardFailure<P>,
        >(FaultSignature::Faulted),
{
}

/// An operation that only touches memory it may access, and so returns, is
/// reported as `NoFault` by a guarded call on a thread at rest.
pub proof fn theorem_valid_access_reports_no_fault<P>(thread: ThreadModel<P>, platform: Platform)
    requires
        thread.at_rest(),
    ensures
        thread.run_guarded(platform, Completion::Returned) == (
            thread,
            Ok::<FaultSignature, GuardFailure<P>>(FaultSignature::NoFault),
        ),
{
}

/// Two faulting guarded calls in a row on one thread are both reported as
/// `Faulted`: the first leaves the signal mask as it found it, so the second
/// fault reaches the handler as the first did.
pub proof fn theorem_fault_twice_in_a_row<P>(
    thread: ThreadModel<P>,
    platform: Platform,
    first: Access,
    second: Access,
)
    requires
        thread.guard is None,
        platform.delivers(thread.fault_blocked),
    ensures
        ({
            let (after_first, first_outcome) = thread.run_guarded(
                platform,
                Completion::Faulted(first),
            );
            let (after_second, second_outcome) = after_first.run_guarded(
                platform,
                Completion::Faulted(second),
            );
            &&& first_outcome == Ok::<FaultSignature, GuardFailure<P>>(FaultSignature::Faulted)
            &&& second_outcome == Ok::<FaultSignature, GuardFailure<P>>(FaultSignature::Faulted)
            &&& after_second == after_first
        }),
{
}

/// Where faults arrive as signals, a fault on a thread that has the fault
/// signal blocked is lost to the harness. This is what a handler that jumped
/// without unblocking the signal would do to the next guarded call.
pub proof fn theorem_blocked_signal_loses_the_fault<P>(thread: ThreadModel<P>, access: Access)
    requires
        thread.guard is None,
        thread.fault_blocked,
    ensures
        thread.run_guarded(Platform::Unix, Completion::Faulted(access)).1 == Err::<
            FaultSignature,
            GuardFailure<P>,
        >(GuardFailure::UnguardedFault),
{
}

/// A guarded call made while a guard is active on the thread fails with
/// `NestedGuard` and leaves the thread as it was, whether the inner
/// operation would have faulted, raised or returned.
pub proof fn theorem_nested_call_is_refused<P>(
    thread: ThreadModel<P>,
    platform: Platform,
    completion: Completion<P>,
)
    requires
        thread.guard is Some,
    ensures
        thread.run_guarded(platform, completion) == (
            thread,
            Err::<FaultSignature, GuardFailure<P>>(GuardFailure::NestedGuard),
        ),
{
}

/// An exception raised by the operation comes out of the guarded call with
/// the payload it was raised with, in place of any signature.
pub proof fn theorem_exception_is_raised_again<P>(
    thread: ThreadModel<P>,
    platform: Platform,
    payload: P,
)
    requires
        thread.guard is None,
    ensures
        thread.run_guarded(platform, Completion::Raised(payload)).1 == Err::<
            FaultSignature,
            GuardFailure<P>,
        >(GuardFailure::Raised(payload)),
{
}

/// Whatever a guarded call that is not nested comes to, nothing of it stays
/// behind on the thread: the guard is clear, the relay's slot is empty, and
/// the signal mask is as the call found it. A thread at rest is at rest
/// again.
pub proof fn theorem_call_leaves_nothing_behind<P>(
    thread: ThreadModel<P>,
    platform: Platform,
    completion: Completion<P>,
)
    requires
        thread.guard is None,
    ensures
        thread.run_guarded(platform, completion).0 == thread.holding(None),
        thread.at_rest() ==> thread.run_guarded(platform, completion).0.at_rest(),
{
}

/// A guarded call is its beginning followed, where it could begin, by its
/// finish under the installed handler; and it is as well a pass through the
/// trampoline followed by the entry point's reading of how the pass ended.
pub proof fn theorem_call_is_composed<P>(
    thread: ThreadModel<P>,
    interceptor: InterceptorModel,
    context: NonLocalContext,
    completion: Completion<P>,
)
    ensures
        thread.run_guarded(interceptor.platform, completion) == match thread.begin(context).1 {
            Ok(_) => thread.begin(context).0.finish(interceptor.install(), completion),
            Err(failure) => (thread, Err::<FaultSignature, GuardFailure<P>>(failure)),
        },
        ({
            let (passed, ended) = thread.trampoline(interceptor.install(), context, completion);
            thread.run_guarded(interceptor.platform, completion) == match ended {
                Ok(signature) => (
                    passed.holding(resolution(signature, passed.captured).0),
                    resolution(signature, passed.captured).1,
                ),
                Err(_) => (
                    passed.holding(None),
                    Err::<FaultSignature, GuardFailure<P>>(GuardFailure::UnguardedFault),
                ),
            }
        }),
{
}

/// A fault on a thread that has no guarded call under way is never reported
/// as `Faulted`: it was not the harness's to intercept.
pub proof fn theorem_fault_outside_a_call_is_unguarded<P>(
    thread: ThreadModel<P>,
    interceptor: InterceptorModel,
    access: Access,
)
    requires
        thread.guard is None,
    ensures
        thread.finish(interceptor, Completion::Faulted(access)).1 == Err::<
            FaultSignature,
            GuardFailure<P>,
        >(GuardFailure::UnguardedFault),
{
}

/// While a guarded call is under way, a fault that reaches the handler is
/// answered by a jump to the checkpoint that this very call began with.
pub proof fn theorem_fault_resumes_at_the_calls_checkpoint<P>(
    thread: ThreadModel<P>,
    interceptor: InterceptorModel,
    context: NonLocalContext,
)
    requires
        thread.guard is None,
        interceptor.platform.delivers(thread.fault_blocked),
    ensures
        thread.begin(context).1 is Ok,
        interceptor.install().intercept(thread.begin(context).0.guard, thread.fault_blocked) == (
            HandlerAction::Jump {
                target: context,
                restoration: interceptor.platform.spec_restoration(),
            }
        ),
{
}

/// Every guarded call starts clean. On a thread that was at rest, however
/// many guarded calls came before and however each of them ended, the thread
/// is at rest again, and the next call reports what its own operation did
/// and nothing else.
pub proof fn theorem_every_call_starts_clean<P>(
    thread: ThreadModel<P>,
    platform: Platform,
    earlier: Seq<Completion<P>>,
    next: Completion<P>,
)
    requires
        thread.at_rest(),
    ensures
        thread.after_calls(platform, earlier) == thread,
        thread.after_calls(platform, earlier).run_guarded(platform, next).1 == report(next),
    decreases earlier.len(),
{
    if earlier.len() > 0 {
        theorem_every_call_starts_clean(thread, platform, earlier.drop_last(), earlier.last());
    }
}

/// Calls on other threads do not interfere. Between the beginning of a
/// guarded call and its finish, other threads can do nothing to the state the
/// call shares with them but take installation steps; whatever they did, the
/// call ends as it would have ended alone.
pub proof fn theorem_other_threads_do_not_interfere<P>(
    thread: ThreadModel<P>,
    interceptor: InterceptorModel,
    others: Seq<nat>,
    context: NonLocalContext,
    completion: Completion<P>,
)
    requires
        thread.guard is None,
    ensures
        thread.begin(context).0.finish(interceptor.install().install_by(others), completion)
            == thread.run_guarded(interceptor.platform, completion),
{
    if others.len() >= 1 {
        theorem_repeated_install_is_one_install(interceptor.install(), others);
    }
}

} // verus!
