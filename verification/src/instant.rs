//! An immutable point-in-time reading of one CPU's instruction count.

use crate::error::Error;
use crate::instruction_number::{wrap_to_i64, InstructionNumber};
use vstd::prelude::*;

verus! {

/// A point-in-time reading: the CPU it was taken on, and the count
/// recorded at that instant.
///
/// Readings taken on different CPUs are unrelated: only readings of the
/// same CPU may be subtracted from one another.
#[derive(Clone, Copy, Debug, PartialEq, Eq, Structural)]
pub struct InstructionNumberInstant {
    /// The zero-based index of the CPU the reading was taken on.
    pub cpu: i32,
    /// The instruction count recorded at that instant.
    pub value: InstructionNumber,
}

impl InstructionNumberInstant {
    /// Packages a reading; normally only a reader produces these.
    pub fn new(cpu: i32, value: InstructionNumber) -> (r: Self)
        ensures
            r.cpu == cpu,
            r.value == value,
    {
        InstructionNumberInstant { cpu, value }
    }

    /// The instructions retired between `other` and `self`, two readings
    /// of the same CPU. Callers who have not already established the
    /// same-CPU invariant must use
    /// [`Self::instruction_number_since_checked`] instead.
    pub fn instruction_number_since(&self, other: Self) -> (r: InstructionNumber)
        requires
            self.cpu == other.cpu,
        ensures
            r@ == wrap_to_i64(self.value@ - other.value@),
    {
        self.instruction_number_since_checked(other).unwrap()
    }

    /// The instructions retired between `other` and `self`; fails with
    /// [`Error::InconsistentCore`] exactly when the two readings were
    /// taken on different CPUs.
    pub fn instruction_number_since_checked(&self, other: Self) -> (r: Result<
        InstructionNumber,
        Error,
    >)
        ensures
            self.cpu == other.cpu ==> (r matches Ok(d) && d@ == wrap_to_i64(
                self.value@ - other.value@,
            )),
            self.cpu != other.cpu ==> r == Err::<InstructionNumber, Error>(Error::InconsistentCore),
    {
        if self.cpu == other.cpu {
            Ok(self.value.wrapping_sub(other.value))
        } else {
            Err(Error::InconsistentCore)
        }
    }
}

} // verus!
