//! The exception capture relay: a one-slot, per-thread holder that carries an
//! exception raised inside a guarded operation across the native boundary.

use vstd::prelude::*;

verus! {

/// The slot in which the relay leaves an exception for the entry point.
///
/// The view is the payload held, `None` when the slot is empty.
#[derive(Debug)]
pub struct CapturedException<P> {
    slot: Option<P>,
}

impl<P> CapturedException<P> {
    /// The payload held, if any.
    pub closed spec fn view(&self) -> Option<P> {
        self.slot
    }

    /// An empty slot.
    pub fn new() -> (captured: Self)
        ensures
            captured@ is None,
    {
        CapturedException { slot: None }
    }

    /// Whether nothing is held.
    pub fn is_empty(&self) -> (empty: bool)
        ensures
            empty == (self@ is None),
    {
        self.slot.is_none()
    }

    /// Puts `payload` in the slot. The slot holds one payload at most: what
    /// was there before is dropped.
    pub fn store(&mut self, payload: P)
        ensures
            final(self)@ == Some(payload),
    {
        self.slot = Some(payload);
    }

    /// Hands over what the slot holds and leaves it empty, whatever it held.
    pub fn take(&mut self) -> (payload: Option<P>)
        ensures
            payload == old(self)@,
            final(self)@ is None,
    {
        self.slot.take()
    }
}

/// Receives the result of running the operation inside the trampoline. An
/// exception is kept in the slot, its payload untouched, so that nothing
/// unwinds across the native boundary; a normal return leaves the slot as it
/// was.
pub fn relay<P>(captured: &mut CapturedException<P>, result: Result<(), P>)
    ensures
        final(captured)@ == match result {
            Ok(_) => old(captured)@,
            Err(payload) => Some(payload),
        },
{
    if let Err(payload) = result {
        captured.store(payload);
    }
}

} // verus!
