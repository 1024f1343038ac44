use cpu_instructions_reader::error::Error;
use cpu_instructions_reader::reader::{
    checked_cpu_index_count, cpu_index_list, sample_from_read, session_request, target_pid,
    teardown_steps,
};
use cpu_instructions_reader::reader::validate_created_handle;
use cpu_instructions_reader::{InstructionNumber, InstructionNumberInstant, SessionTeardownStep};

#[test]
fn same_cpu_delta() {
    let later = InstructionNumberInstant::new(0, InstructionNumber::new(100));
    let earlier = InstructionNumberInstant::new(0, InstructionNumber::new(40));
    assert_eq!(
        later.instruction_number_since_checked(earlier),
        Ok(InstructionNumber::new(60))
    );
    assert_eq!(
        later.instruction_number_since(earlier),
        InstructionNumber::new(60)
    );
}

#[test]
fn cross_cpu_delta_fails() {
    let a = InstructionNumberInstant::new(0, InstructionNumber::new(100));
    let b = InstructionNumberInstant::new(1, InstructionNumber::new(40));
    assert_eq!(
        a.instruction_number_since_checked(b),
        Err(Error::InconsistentCore)
    );
}

#[test]
fn delta_wraps_like_the_native_type() {
    let later = InstructionNumberInstant::new(2, InstructionNumber::new(i64::MIN));
    let earlier = InstructionNumberInstant::new(2, InstructionNumber::new(1));
    assert_eq!(
        later.instruction_number_since(earlier),
        InstructionNumber::new(i64::MAX)
    );
}

#[test]
fn read_sentinel_fails() {
    assert_eq!(sample_from_read(0, -1), Err(Error::FailedToRead));
}

#[test]
fn read_value_is_taken_unchanged() {
    let sample = sample_from_read(3, 42).unwrap();
    assert_eq!(sample.cpu, 3);
    assert_eq!(sample.value, InstructionNumber::new(42));

    let negative = sample_from_read(0, -2).unwrap();
    assert_eq!(negative.value, InstructionNumber::new(-2));
}

#[test]
fn null_handle_fails_creation() {
    assert_eq!(validate_created_handle(true), Err(Error::FailedToCreate));
    assert_eq!(validate_created_handle(false), Ok(()));
}

#[test]
fn cpu_count_conversion_is_checked() {
    assert_eq!(checked_cpu_index_count(8), Ok(8));
    assert_eq!(checked_cpu_index_count(i32::MAX as usize), Ok(i32::MAX));
    assert_eq!(
        checked_cpu_index_count(i32::MAX as usize + 1),
        Err(Error::TryFromIntError)
    );
}

#[test]
fn cpu_list_is_the_identity_list() {
    assert_eq!(cpu_index_list(4), vec![0, 1, 2, 3]);
    assert_eq!(cpu_index_list(0), Vec::<i32>::new());
}

#[test]
fn pid_sentinel_means_all_processes() {
    assert_eq!(target_pid(None), -1);
    assert_eq!(target_pid(Some(1234)), 1234);
}

#[test]
fn teardown_disables_before_destroying() {
    let steps = teardown_steps();
    assert_eq!(steps.len(), 2);
    assert_eq!(steps[0], SessionTeardownStep::Disable);
    assert_eq!(steps[1], SessionTeardownStep::Destroy);
}

#[test]
fn session_request_covers_every_physical_cpu() {
    let request = session_request(None).unwrap();
    assert_eq!(request.pid, -1);
    assert!(!request.cpus.is_empty());
    for (i, cpu) in request.cpus.iter().enumerate() {
        assert_eq!(*cpu, i as i32);
    }

    let filtered = session_request(Some(77)).unwrap();
    assert_eq!(filtered.pid, 77);
}

#[test]
fn error_messages_name_the_failure() {
    assert_eq!(Error::TryFromIntError.message(), "TryFromIntError");
    assert_eq!(Error::FailedToCreate.message(), "Failed to create reader");
    assert_eq!(
        Error::FailedToRead.message(),
        "Failed to read cpu instruction number"
    );
    assert_eq!(
        Error::InconsistentCore.message(),
        "Cpu core of InstructionNumberInstant are inconsistent and cannot be subtracted"
    );
}
