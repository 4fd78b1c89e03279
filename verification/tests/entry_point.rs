use segv_test::entry::{
    begin, check_segv, finish, nested_guard_message, resolve, run_guarded, GuardFailure,
};
use segv_test::guard::NonLocalContext;
use segv_test::interceptor::{Platform, ProcessInterceptorState};
use segv_test::relay::CapturedException;
use segv_test::signature::FaultSignature;
use segv_test::trampoline::{Access, AccessKind, Completion, ThreadState};

fn here() -> NonLocalContext {
    NonLocalContext { checkpoint: 0x5e9 }
}

fn write_to(address: usize) -> Completion<String> {
    Completion::Faulted(Access { kind: AccessKind::Write, address })
}

fn read_from(address: usize) -> Completion<String> {
    Completion::Faulted(Access { kind: AccessKind::Read, address })
}

fn raise(payload: &str) -> Completion<String> {
    Completion::Raised(payload.to_string())
}

fn at_rest(thread: &ThreadState<String>) -> bool {
    !thread.guard.is_active() && thread.captured.is_empty() && !thread.mask.is_blocked()
}

#[test]
fn invalid_accesses_are_reported_as_faults() {
    for platform in [Platform::Unix, Platform::Windows] {
        for address in [0x08, 0x10, 0xdead_0000, usize::MAX] {
            let mut interceptor = ProcessInterceptorState::new(platform);
            let mut thread = ThreadState::new();
            let written = run_guarded(&mut interceptor, &mut thread, here(), write_to(address));
            assert_eq!(written, Ok(FaultSignature::Faulted));
            assert!(at_rest(&thread));
            let read = run_guarded(&mut interceptor, &mut thread, here(), read_from(address));
            assert_eq!(read, Ok(FaultSignature::Faulted));
            assert!(at_rest(&thread));
        }
    }
}

#[test]
fn valid_access_is_reported_as_no_fault() {
    for platform in [Platform::Unix, Platform::Windows] {
        let mut interceptor = ProcessInterceptorState::new(platform);
        let mut thread: ThreadState<String> = ThreadState::new();
        let outcome = run_guarded(&mut interceptor, &mut thread, here(), Completion::Returned);
        assert_eq!(outcome, Ok(FaultSignature::NoFault));
        assert!(at_rest(&thread));
    }
}

#[test]
fn faulting_twice_in_a_row_is_caught_twice() {
    for platform in [Platform::Unix, Platform::Windows] {
        let mut interceptor = ProcessInterceptorState::new(platform);
        let mut thread = ThreadState::new();
        let first = run_guarded(&mut interceptor, &mut thread, here(), write_to(0x08));
        let second = run_guarded(&mut interceptor, &mut thread, here(), write_to(0x08));
        assert_eq!(first, Ok(FaultSignature::Faulted));
        assert_eq!(second, Ok(FaultSignature::Faulted));
        assert!(at_rest(&thread));
    }
}

#[test]
fn jump_without_unblocking_would_lose_the_next_fault() {
    let mut interceptor = ProcessInterceptorState::new(Platform::Unix);
    let mut thread = ThreadState::new();
    let first = run_guarded(&mut interceptor, &mut thread, here(), write_to(0x08));
    assert_eq!(first, Ok(FaultSignature::Faulted));

    // What the thread would look like had the handler skipped its
    // restoration: the runtime's blocking of the fault signal still stands.
    thread.mask.block();
    let second = run_guarded(&mut interceptor, &mut thread, here(), write_to(0x08));
    assert_eq!(second, Err(GuardFailure::UnguardedFault));

    // Calls that do not fault are not affected.
    let third = run_guarded(&mut interceptor, &mut thread, here(), Completion::Returned);
    assert_eq!(third, Ok(FaultSignature::NoFault));

    thread.mask.unblock();
    let fourth = run_guarded(&mut interceptor, &mut thread, here(), write_to(0x08));
    assert_eq!(fourth, Ok(FaultSignature::Faulted));
}

#[test]
fn blocked_signal_does_not_matter_to_structured_exceptions() {
    let mut interceptor = ProcessInterceptorState::new(Platform::Windows);
    let mut thread = ThreadState::new();
    thread.mask.block();
    let outcome = run_guarded(&mut interceptor, &mut thread, here(), write_to(0x08));
    assert_eq!(outcome, Ok(FaultSignature::Faulted));
    assert!(thread.mask.is_blocked());
}

#[test]
fn nested_call_fails_whatever_the_inner_operation_does() {
    for inner in [write_to(0x08), read_from(0x08), Completion::Returned, raise("boom")] {
        let mut interceptor = ProcessInterceptorState::new(Platform::Unix);
        let mut thread = ThreadState::new();
        assert_eq!(begin(&mut interceptor, &mut thread, here()), Ok(()));

        let nested = run_guarded(
            &mut interceptor,
            &mut thread,
            NonLocalContext { checkpoint: 2 },
            inner,
        );
        assert_eq!(nested, Err(GuardFailure::NestedGuard));
        // The outer call is still under way, with its own jump target.
        assert_eq!(thread.guard.jump_target(), Some(here()));
        assert!(thread.captured.is_empty());

        let outer = finish(&interceptor, &mut thread, write_to(0x08));
        assert_eq!(outer, Ok(FaultSignature::Faulted));
        assert!(at_rest(&thread));
    }
}

#[test]
fn nested_begin_fails_and_changes_nothing() {
    let mut interceptor = ProcessInterceptorState::new(Platform::Unix);
    let mut thread: ThreadState<String> = ThreadState::new();
    assert_eq!(begin(&mut interceptor, &mut thread, here()), Ok(()));
    assert_eq!(
        begin(&mut interceptor, &mut thread, NonLocalContext { checkpoint: 2 }),
        Err(GuardFailure::NestedGuard)
    );
    assert_eq!(thread.guard.jump_target(), Some(here()));
}

#[test]
fn exception_is_raised_again_with_its_payload() {
    let mut interceptor = ProcessInterceptorState::new(Platform::Unix);
    let mut thread = ThreadState::new();
    let outcome = run_guarded(&mut interceptor, &mut thread, here(), raise("boom"));
    assert_eq!(outcome, Err(GuardFailure::Raised("boom".to_string())));
    assert!(at_rest(&thread));

    // Nothing of it is left for the next call.
    let next = run_guarded(&mut interceptor, &mut thread, here(), Completion::Returned);
    assert_eq!(next, Ok(FaultSignature::NoFault));
}

#[test]
fn payload_of_any_type_comes_back_unchanged() {
    let mut interceptor = ProcessInterceptorState::new(Platform::Windows);
    let mut thread = ThreadState::new();
    let payload = vec![1u8, 2, 3];
    let outcome = run_guarded(
        &mut interceptor,
        &mut thread,
        here(),
        Completion::Raised(payload.clone()),
    );
    assert_eq!(outcome, Err(GuardFailure::Raised(payload)));
}

#[test]
fn entry_point_installs_the_handler_once() {
    let mut interceptor = ProcessInterceptorState::new(Platform::Unix);
    let mut thread = ThreadState::new();
    assert!(!interceptor.is_installed());
    let _ = run_guarded(&mut interceptor, &mut thread, here(), write_to(0x08));
    assert!(interceptor.is_installed());
    // The handler is registered: a further installation step registers nothing.
    assert!(!interceptor.install());
    let _ = run_guarded(&mut interceptor, &mut thread, here(), write_to(0x08));
    assert!(interceptor.is_installed());
    assert_eq!(interceptor.platform(), Platform::Unix);
}

#[test]
fn nested_call_installs_the_handler_too() {
    let mut interceptor = ProcessInterceptorState::new(Platform::Unix);
    let mut thread: ThreadState<String> = ThreadState::new();
    assert_eq!(thread.guard.establish(here()), Ok(()));
    let nested = run_guarded(&mut interceptor, &mut thread, here(), Completion::Returned);
    assert_eq!(nested, Err(GuardFailure::NestedGuard));
    assert!(interceptor.is_installed());
}

#[test]
fn threads_do_not_affect_each_other() {
    let mut interceptor = ProcessInterceptorState::new(Platform::Unix);
    let mut first: ThreadState<String> = ThreadState::new();
    let mut second: ThreadState<String> = ThreadState::new();

    // A call is under way on the first thread while the second makes its own.
    assert_eq!(begin(&mut interceptor, &mut first, here()), Ok(()));
    let other = run_guarded(&mut interceptor, &mut second, here(), write_to(0x08));
    assert_eq!(other, Ok(FaultSignature::Faulted));
    let other = run_guarded(&mut interceptor, &mut second, here(), raise("boom"));
    assert_eq!(other, Err(GuardFailure::Raised("boom".to_string())));

    assert_eq!(first.guard.jump_target(), Some(here()));
    assert!(first.captured.is_empty());
    assert_eq!(finish(&interceptor, &mut first, Completion::Returned), Ok(FaultSignature::NoFault));
}

#[test]
fn stale_payload_comes_out_when_the_operation_returns() {
    let mut interceptor = ProcessInterceptorState::new(Platform::Unix);
    let mut thread = ThreadState::new();
    thread.captured.store("stale".to_string());
    let outcome = run_guarded(&mut interceptor, &mut thread, here(), Completion::Returned);
    assert_eq!(outcome, Err(GuardFailure::Raised("stale".to_string())));
    assert!(at_rest(&thread));
}

#[test]
fn stale_payload_is_dropped_by_a_fault_and_replaced_by_an_exception() {
    let mut interceptor = ProcessInterceptorState::new(Platform::Unix);
    let mut thread = ThreadState::new();
    thread.captured.store("stale".to_string());
    let outcome = run_guarded(&mut interceptor, &mut thread, here(), write_to(0x08));
    assert_eq!(outcome, Ok(FaultSignature::Faulted));
    assert!(at_rest(&thread));

    thread.captured.store("stale".to_string());
    let outcome = run_guarded(&mut interceptor, &mut thread, here(), raise("boom"));
    assert_eq!(outcome, Err(GuardFailure::Raised("boom".to_string())));
    assert!(at_rest(&thread));
}

#[test]
fn fault_outside_a_guarded_call_is_unguarded() {
    let mut interceptor = ProcessInterceptorState::new(Platform::Unix);
    interceptor.install();
    let mut thread = ThreadState::new();
    let outcome = finish(&interceptor, &mut thread, write_to(0x08));
    assert_eq!(outcome, Err(GuardFailure::UnguardedFault));
}

#[test]
fn resolve_reads_each_signature() {
    let mut captured: CapturedException<String> = CapturedException::new();
    assert_eq!(resolve(FaultSignature::NoFault, &mut captured), Ok(FaultSignature::NoFault));
    assert_eq!(resolve(FaultSignature::Faulted, &mut captured), Ok(FaultSignature::Faulted));
    assert_eq!(
        resolve(FaultSignature::NestedGuardError, &mut captured),
        Err(GuardFailure::NestedGuard)
    );
    assert!(captured.is_empty());
}

#[test]
fn resolve_consumes_the_captured_exception() {
    let mut captured = CapturedException::new();
    captured.store("boom".to_string());
    assert_eq!(
        resolve(FaultSignature::NoFault, &mut captured),
        Err(GuardFailure::Raised("boom".to_string()))
    );
    assert!(captured.is_empty());
    assert_eq!(resolve(FaultSignature::NoFault, &mut captured), Ok(FaultSignature::NoFault));
}

#[test]
fn resolve_leaves_the_slot_to_the_outer_call_when_nested() {
    let mut captured = CapturedException::new();
    captured.store("outer".to_string());
    assert_eq!(
        resolve(FaultSignature::NestedGuardError, &mut captured),
        Err(GuardFailure::NestedGuard)
    );
    assert_eq!(captured.take(), Some("outer".to_string()));
}

#[test]
fn check_segv_reads_the_native_codes() {
    let mut captured: CapturedException<String> = CapturedException::new();
    assert_eq!(check_segv(0, &mut captured), Ok(false));
    assert_eq!(check_segv(1, &mut captured), Ok(true));
    assert_eq!(check_segv(2, &mut captured), Err(GuardFailure::NestedGuard));
    assert!(captured.is_empty());
}

#[test]
fn check_segv_raises_what_the_relay_captured() {
    let mut captured = CapturedException::new();
    captured.store("boom".to_string());
    assert_eq!(check_segv(0, &mut captured), Err(GuardFailure::Raised("boom".to_string())));
    assert!(captured.is_empty());
    assert_eq!(check_segv(0, &mut captured), Ok(false));
}

#[test]
fn check_segv_empties_the_slot_after_a_fault() {
    let mut captured = CapturedException::new();
    captured.store("stale".to_string());
    assert_eq!(check_segv(1, &mut captured), Ok(true));
    assert!(captured.is_empty());
}

#[test]
fn nested_guard_has_its_message() {
    assert_eq!(nested_guard_message(), "Nested segmentation fault assertion is not supported.");
}

#[test]
fn scenario_of_five_calls() {
    let mut interceptor = ProcessInterceptorState::new(Platform::Unix);
    let mut thread = ThreadState::new();

    assert_eq!(
        run_guarded(&mut interceptor, &mut thread, here(), write_to(0x08)),
        Ok(FaultSignature::Faulted)
    );
    assert_eq!(
        run_guarded(&mut interceptor, &mut thread, here(), Completion::Returned),
        Ok(FaultSignature::NoFault)
    );
    assert_eq!(
        run_guarded(&mut interceptor, &mut thread, here(), write_to(0x08)),
        Ok(FaultSignature::Faulted)
    );
    assert_eq!(
        run_guarded(&mut interceptor, &mut thread, here(), write_to(0x08)),
        Ok(FaultSignature::Faulted)
    );

    // An outer call whose operation is a guarded call of its own.
    assert_eq!(begin(&mut interceptor, &mut thread, here()), Ok(()));
    let inner = run_guarded(&mut interceptor, &mut thread, here(), write_to(0x08));
    assert_eq!(inner, Err(GuardFailure::NestedGuard));
    let outer = finish(&interceptor, &mut thread, raise(nested_guard_message()));
    assert_eq!(
        outer,
        Err(GuardFailure::Raised(
            "Nested segmentation fault assertion is not supported.".to_string()
        ))
    );

    assert_eq!(
        run_guarded(&mut interceptor, &mut thread, here(), raise("boom")),
        Err(GuardFailure::Raised("boom".to_string()))
    );
    assert!(at_rest(&thread));
}
