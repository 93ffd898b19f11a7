use pipe2serial::completion::{classify_wait, issue_accepted, IoOutcome, IssueReport, WaitReport};

#[test]
fn zero_bytes_on_nonempty_buffer_is_timeout() {
    assert_eq!(classify_wait(8, WaitReport::Finished(0)), IoOutcome::TimedOut);
    assert_eq!(classify_wait(1, WaitReport::Finished(0)), IoOutcome::TimedOut);
    assert_eq!(classify_wait(4096, WaitReport::Finished(0)), IoOutcome::TimedOut);
}

#[test]
fn zero_length_buffer_succeeds_with_zero_bytes() {
    assert_eq!(classify_wait(0, WaitReport::Finished(0)), IoOutcome::Transferred(0));
}

#[test]
fn partial_transfer_reports_its_count() {
    assert_eq!(classify_wait(10, WaitReport::Finished(5)), IoOutcome::Transferred(5));
    assert_eq!(classify_wait(10, WaitReport::Finished(1)), IoOutcome::Transferred(1));
}

#[test]
fn full_transfer_reports_full_count() {
    assert_eq!(classify_wait(4, WaitReport::Finished(4)), IoOutcome::Transferred(4));
}

#[test]
fn wait_failure_is_a_hard_error() {
    assert_eq!(classify_wait(16, WaitReport::Failed(5)), IoOutcome::Failed(5));
    assert_eq!(classify_wait(0, WaitReport::Failed(6)), IoOutcome::Failed(6));
}

#[test]
fn issue_proceeds_unless_rejected() {
    assert!(issue_accepted(IssueReport::Accepted));
    assert!(issue_accepted(IssueReport::Pending));
    assert!(!issue_accepted(IssueReport::Rejected(2)));
}
