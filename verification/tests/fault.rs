use pipe_poll::fault::Fault;
use pipe_poll::readiness::{Operation, OsFailure};

#[test]
fn os_fault_names_call_and_error() {
    let fault = Fault::Os(OsFailure { operation: Operation::Wait, errno: 4 });
    assert_eq!(fault.diagnostic(), "epoll_wait failed: os error 4");
}

#[test]
fn invariant_violation_has_a_diagnostic() {
    assert_eq!(Fault::InvariantViolation.diagnostic(), "the captured text was taken before");
}
