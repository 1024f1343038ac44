//! The flat error enumeration shared by every fallible operation.

use vstd::prelude::*;

verus! {

/// Every failure the library can report.
///
/// Each fallible operation returns exactly one of these kinds; nothing is
/// logged or swallowed internally.
#[derive(Clone, Copy, Debug, PartialEq, Eq, Structural)]
pub enum Error {
    /// The physical CPU count does not fit the native CPU-index width.
    TryFromIntError,
    /// The session-creation call returned a null handle.
    FailedToCreate,
    /// The per-CPU read call returned the error sentinel.
    FailedToRead,
    /// A delta was requested between readings from different CPUs.
    InconsistentCore,
}

impl Error {
    /// A human-readable description of the error.
    pub fn message(&self) -> (r: &'static str)
        ensures
            *self == Error::TryFromIntError ==> r@ == "TryFromIntError"@,
            *self == Error::FailedToCreate ==> r@ == "Failed to create reader"@,
            *self == Error::FailedToRead ==> r@ == "Failed to read cpu instruction number"@,
            *self == Error::InconsistentCore ==> r@
                == "Cpu core of InstructionNumberInstant are inconsistent and cannot be subtracted"@,
    {
        match self {
            Error::TryFromIntError => "TryFromIntError",
            Error::FailedToCreate => "Failed to create reader",
            Error::FailedToRead => "Failed to read cpu instruction number",
            Error::InconsistentCore => (
                "Cpu core of InstructionNumberInstant are inconsistent and cannot be subtracted"
            ),
        }
    }
}

} // verus!
