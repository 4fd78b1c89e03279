//! A fault-trapping test harness, as a verified state machine.
//!
//! A test hands the harness an operation that is expected to make an invalid
//! memory access. The harness runs the operation under a guard, intercepts
//! the fault instead of letting it end the process, and resumes the test
//! right after the call, which reports whether the fault occurred.
//!
//! This library holds the state of the harness and takes every decision in
//! it. It does not touch memory, install handlers or jump: those effects are
//! the caller's, who tells the library how the operation ended and does what
//! the library answers. A guarded call is [`entry::begin`], the operation,
//! and [`entry::finish`]; [`entry::run_guarded`] is the three in one, for an
//! operation whose end is known.
//!
//! - [`signature`]: the three-way result of a pass through the trampoline.
//! - [`guard`]: the per-thread reentrancy flag and jump target.
//! - [`mask`]: whether the fault signal is blocked on a thread.
//! - [`relay`]: the slot that carries an exception out of the guarded run.
//! - [`interceptor`]: the process-wide handler, its installation, and its
//!   decision on a fault.
//! - [`trampoline`]: the guarded invocation itself.
//! - [`entry`]: the public entry point and what holds of every guarded call.
//! - [`assertion`]: the assertion that an operation faults.

pub mod assertion;
pub mod entry;
pub mod guard;
pub mod interceptor;
pub mod mask;
pub mod relay;
pub mod signature;
pub mod trampoline;
