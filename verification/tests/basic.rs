use segv_test::assertion::expect_fault;
use segv_test::entry::{begin, finish, nested_guard_message, run_guarded, GuardFailure};
use segv_test::guard::NonLocalContext;
use segv_test::interceptor::{Platform, ProcessInterceptorState};
use segv_test::trampoline::{Access, AccessKind, Completion, ThreadState};

// An address that no process has mapped. Not zero: a write through a null
// pointer is caught by a debug check before the hardware sees it.
const INVALID_ADDRESS: usize = 0x08;

fn checkpoint() -> NonLocalContext {
    NonLocalContext { checkpoint: 1 }
}

fn write_to_invalid_address() -> Completion<String> {
    Completion::Faulted(Access { kind: AccessKind::Write, address: INVALID_ADDRESS })
}

fn read_from_invalid_address() -> Completion<String> {
    Completion::Faulted(Access { kind: AccessKind::Read, address: INVALID_ADDRESS })
}

// Runs one guarded call and fails as the assertion does: with the message
// when no fault was seen, with the payload when the operation raised.
fn assert_segv(
    interceptor: &mut ProcessInterceptorState,
    thread: &mut ThreadState<String>,
    completion: Completion<String>,
    message: Option<&str>,
) {
    match run_guarded(interceptor, thread, checkpoint(), completion) {
        Ok(signature) => {
            if let Err(text) = expect_fault(signature.faulted(), message) {
                panic!("{}", text);
            }
        }
        Err(GuardFailure::Raised(payload)) => panic!("{}", payload),
        Err(GuardFailure::NestedGuard) => panic!("{}", nested_guard_message()),
        Err(GuardFailure::UnguardedFault) => panic!("the fault was not intercepted"),
    }
}

#[test]
fn test_basic_success_write() {
    let mut interceptor = ProcessInterceptorState::new(Platform::Unix);
    let mut thread = ThreadState::new();
    assert_segv(&mut interceptor, &mut thread, write_to_invalid_address(), None);
}

#[test]
fn test_basic_success_read() {
    let mut interceptor = ProcessInterceptorState::new(Platform::Unix);
    let mut thread = ThreadState::new();
    assert_segv(&mut interceptor, &mut thread, read_from_invalid_address(), None);
}

#[test]
fn test_basic_success_twice() {
    // On the signal path the second call is intercepted only because the
    // handler unblocked the fault signal before it jumped out of the first.
    let mut interceptor = ProcessInterceptorState::new(Platform::Unix);
    let mut thread = ThreadState::new();

    assert_segv(&mut interceptor, &mut thread, write_to_invalid_address(), None);

    assert_segv(&mut interceptor, &mut thread, write_to_invalid_address(), None);
}

#[test]
#[should_panic(expected = "Expected a segmentation fault.")]
fn test_basic_failure() {
    let mut interceptor = ProcessInterceptorState::new(Platform::Unix);
    let mut thread = ThreadState::new();
    // The write goes to a local variable: the operation returns.
    assert_segv(&mut interceptor, &mut thread, Completion::Returned, None);
}

#[test]
#[should_panic(expected = "Nested segmentation fault assertion is not supported.")]
fn test_nested_failure() {
    let mut interceptor = ProcessInterceptorState::new(Platform::Unix);
    let mut thread: ThreadState<String> = ThreadState::new();

    // The outer assertion begins and invokes its operation, which is the
    // inner assertion.
    assert_eq!(begin(&mut interceptor, &mut thread, checkpoint()), Ok(()));
    let inner = run_guarded(
        &mut interceptor,
        &mut thread,
        NonLocalContext { checkpoint: 2 },
        write_to_invalid_address(),
    );
    assert_eq!(inner, Err(GuardFailure::NestedGuard));

    // The inner failure is raised inside the outer operation, so the outer
    // operation ends by raising it.
    let raised = Completion::Raised(nested_guard_message().to_string());
    match finish(&interceptor, &mut thread, raised) {
        Err(GuardFailure::Raised(payload)) => panic!("{}", payload),
        other => panic!("the outer call came to {:?}", other),
    }
}

#[test]
#[should_panic(expected = "Hello world, 1234!")]
fn test_nested_failure_custom_message() {
    let mut interceptor = ProcessInterceptorState::new(Platform::Unix);
    let mut thread = ThreadState::new();
    let message = format!("Hello world, {}!", 1234);
    assert_segv(&mut interceptor, &mut thread, Completion::Returned, Some(message.as_str()));
}
