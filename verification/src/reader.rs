//! The decision logic of a counter session's lifecycle.
//!
//! The session itself is an opaque operating-system resource, driven
//! through unsafe calls that cannot stand in verified code. Every choice
//! the code around those calls makes — how the creation request is built,
//! how each call's outcome is read, and in which order teardown proceeds —
//! is computed here over plain values, with a contract.

use crate::error::Error;
use crate::instant::InstructionNumberInstant;
use crate::instruction_number::InstructionNumber;
use vstd::prelude::*;

verus! {

/// The process id handed to session creation: the chosen process, or -1,
/// the sentinel meaning all processes.
pub open spec fn spec_target_pid(pid: Option<i32>) -> int {
    match pid {
        Option::Some(p) => p as int,
        Option::None => -1,
    }
}

/// Whether `s` is the ordered list of CPU indices `0, 1, .., s.len() - 1`.
pub open spec fn is_cpu_identity_list(s: Seq<i32>) -> bool {
    forall|i: int| 0 <= i < s.len() ==> s[i] == i
}

/// What a counter session is asked to cover: an ordered list of CPU
/// indices and a process-id filter (-1 for all processes).
pub struct SessionRequest {
    /// The CPUs to track, in order.
    pub cpus: Vec<i32>,
    /// The process to track, or -1 for all processes.
    pub pid: i32,
}

/// One step of session teardown.
#[derive(Clone, Copy, Debug, PartialEq, Eq, Structural)]
pub enum SessionTeardownStep {
    /// Stop counting on every tracked CPU.
    Disable,
    /// Release every resource the session holds.
    Destroy,
}

/// Relies on `num_cpus::get_physical`: the number of physical cores of
/// the running machine, documented to always be at least 1.
#[verifier::external_body]
fn physical_cpu_count() -> (n: usize)
    ensures
        n >= 1,
{
    num_cpus::get_physical()
}

/// Converts a physical CPU count to the native CPU-index width; fails
/// with [`Error::TryFromIntError`] exactly when the count does not fit.
pub fn checked_cpu_index_count(count: usize) -> (r: Result<i32, Error>)
    ensures
        count <= i32::MAX ==> r == Ok::<i32, Error>(count as i32),
        count > i32::MAX ==> r == Err::<i32, Error>(Error::TryFromIntError),
{
    if count <= i32::MAX as usize {
        Ok(count as i32)
    } else {
        Err(Error::TryFromIntError)
    }
}

/// The ordered list of CPU indices `0 .. count`.
pub fn cpu_index_list(count: i32) -> (r: Vec<i32>)
    requires
        count >= 0,
    ensures
        r@.len() == count as int,
        is_cpu_identity_list(r@),
{
    let mut cpus: Vec<i32> = Vec::new();
    let mut i: i32 = 0;
    while i < count
        invariant
            0 <= i <= count,
            cpus@.len() == i as int,
            is_cpu_identity_list(cpus@),
        decreases count - i,
    {
        cpus.push(i);
        i = i + 1;
    }
    cpus
}

/// The process id handed to session creation, as
/// [`spec_target_pid`] states it.
pub fn target_pid(pid: Option<i32>) -> (r: i32)
    ensures
        r as int == spec_target_pid(pid),
{
    match pid {
        Option::Some(p) => p,
        Option::None => -1,
    }
}

/// Builds the creation request for a session covering every physical CPU
/// of the running machine, tracking `pid` (or all processes when `None`).
/// Fails with [`Error::TryFromIntError`] exactly when the machine's
/// physical CPU count does not fit the native CPU-index width.
pub fn session_request(pid: Option<i32>) -> (r: Result<SessionRequest, Error>)
    ensures
        r matches Ok(req) ==> {
            &&& req.cpus@.len() >= 1
            &&& is_cpu_identity_list(req.cpus@)
            &&& req.pid as int == spec_target_pid(pid)
        },
        r matches Err(e) ==> e == Error::TryFromIntError,
{
    let count = physical_cpu_count();
    match checked_cpu_index_count(count) {
        Ok(c) => Ok(
            SessionRequest { cpus: cpu_index_list(c), pid: target_pid(pid) },
        ),
        Err(e) => Err(e),
    }
}

/// Reads the outcome of session creation: a null handle means the
/// collaborator failed (and has already cleaned up after itself), so the
/// reader must not be built and nothing further — in particular no enable
/// call — may touch the handle.
pub fn validate_created_handle(handle_is_null: bool) -> (r: Result<(), Error>)
    ensures
        handle_is_null ==> r == Err::<(), Error>(Error::FailedToCreate),
        !handle_is_null ==> r == Ok::<(), Error>(()),
{
    if handle_is_null {
        Err(Error::FailedToCreate)
    } else {
        Ok(())
    }
}

/// Turns the raw result of a per-CPU read into a reading: the sentinel -1
/// means the read failed; any other value is the count at this instant,
/// taken unchanged.
pub fn sample_from_read(cpu: i32, raw: i64) -> (r: Result<InstructionNumberInstant, Error>)
    ensures
        raw == -1 ==> r == Err::<InstructionNumberInstant, Error>(Error::FailedToRead),
        raw != -1 ==> (r matches Ok(s) && s.cpu == cpu && s.value@ == raw as int),
{
    if raw == -1 {
        Err(Error::FailedToRead)
    } else {
        Ok(InstructionNumberInstant::new(cpu, InstructionNumber::new(raw)))
    }
}

/// The steps of session teardown, in the order they must run: disable
/// first, then destroy, each exactly once.
pub fn teardown_steps() -> (r: Vec<SessionTeardownStep>)
    ensures
        r@ == seq![SessionTeardownStep::Disable, SessionTeardownStep::Destroy],
{
    let mut steps: Vec<SessionTeardownStep> = Vec::new();
    steps.push(SessionTeardownStep::Disable);
    steps.push(SessionTeardownStep::Destroy);
    proof {
        assert(steps@ =~= seq![SessionTeardownStep::Disable, SessionTeardownStep::Destroy]);
    }
    steps
}

} // verus!
