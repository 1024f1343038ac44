//! Safe, verified core of a per-CPU retired-instruction counter reader.
//!
//! The library models three things: [`InstructionNumber`], a 64-bit signed
//! count with explicit wraparound arithmetic; [`InstructionNumberInstant`],
//! an immutable per-CPU reading; and the decision logic of a counter
//! session's lifecycle (construction planning, read-outcome mapping and
//! teardown ordering), kept apart from the unsafe calls that drive the
//! actual hardware session.

pub mod error;
pub mod instant;
pub mod instruction_number;
pub mod reader;

pub use error::Error;
pub use instant::InstructionNumberInstant;
pub use instruction_number::InstructionNumber;
pub use reader::{SessionRequest, SessionTeardownStep};
