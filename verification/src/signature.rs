//! The three-way result of one pass through the guarded invocation trampoline.

use vstd::prelude::*;

verus! {

/// How a guarded run ended, as the trampoline reports it.
#[derive(Clone, Copy, Debug, PartialEq, Eq, Structural)]
pub enum FaultSignature {
    /// The operation came back without an intercepted fault.
    NoFault,
    /// The operation was cut short by an intercepted invalid memory access.
    Faulted,
    /// A guard was already active on the thread; the operation never ran.
    NestedGuardError,
}

impl FaultSignature {
    /// The signature that a native return code stands for, if any.
    pub open spec fn spec_from_code(code: i32) -> Option<FaultSignature> {
        if code == 0 {
            Some(FaultSignature::NoFault)
        } else if code == 1 {
            Some(FaultSignature::Faulted)
        } else if code == 2 {
            Some(FaultSignature::NestedGuardError)
        } else {
            None
        }
    }

    /// The native return code of a signature.
    pub open spec fn spec_code(self) -> i32 {
        match self {
            FaultSignature::NoFault => 0,
            FaultSignature::Faulted => 1,
            FaultSignature::NestedGuardError => 2,
        }
    }

    /// Decodes the integer that the native trampoline hands back.
    pub fn from_code(code: i32) -> (signature: Option<FaultSignature>)
        ensures
            signature == Self::spec_from_code(code),
    {
        if code == 0 {
            Some(FaultSignature::NoFault)
        } else if code == 1 {
            Some(FaultSignature::Faulted)
        } else if code == 2 {
            Some(FaultSignature::NestedGuardError)
        } else {
            None
        }
    }

    /// Encodes a signature as the integer that crosses the native boundary.
    pub fn code(self) -> (code: i32)
        ensures
            code == self.spec_code(),
    {
        match self {
            FaultSignature::NoFault => 0,
            FaultSignature::Faulted => 1,
            FaultSignature::NestedGuardError => 2,
        }
    }

    /// Whether a fault was intercepted.
    pub fn faulted(self) -> (faulted: bool)
        ensures
            faulted == (self == FaultSignature::Faulted),
    {
        match self {
            FaultSignature::Faulted => true,
            _ => false,
        }
    }
}

/// Decoding undoes encoding, and only the three codes decode.
pub proof fn theorem_code_round_trip(signature: FaultSignature, code: i32)
    ensures
        FaultSignature::spec_from_code(signature.spec_code()) == Some(signature),
        FaultSignature::spec_from_code(code) == Some(signature) <==> code == signature.spec_code(),
        FaultSignature::spec_from_code(code) is Some <==> 0 <= code <= 2,
{
}

} // verus!
