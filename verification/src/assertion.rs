//! The assertion that sits on top of the entry point: an operation is
//! expected to fault, and the assertion fails with a message when it did not.

use vstd::prelude::*;

verus! {

/// The text of the message with which the assertion fails when the caller
/// gave none.
pub open spec fn default_failure_text() -> Seq<char> {
    "Expected a segmentation fault."@
}

/// The message with which the assertion fails when the caller gave none.
pub fn default_failure_message() -> (message: &'static str)
    ensures
        message@ == default_failure_text(),
{
    "Expected a segmentation fault."
}

/// Asserts that a guarded call observed a fault. Where it did not, the
/// assertion fails with the caller's message, or with the default message
/// when the caller gave none.
pub fn expect_fault<'a>(faulted: bool, message: Option<&'a str>) -> (verdict: Result<(), &'a str>)
    ensures
        faulted ==> verdict is Ok,
        !faulted ==> verdict is Err && verdict->Err_0@ == match message {
            Some(text) => text@,
            None => default_failure_text(),
        },
{
    if faulted {
        Ok(())
    } else {
        match message {
            Some(text) => Err(text),
            None => Err(default_failure_message()),
        }
    }
}

} // verus!
