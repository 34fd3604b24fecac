use qubit_batch::{BatchTaskError, BatchTaskFailure, BatchTermination, FailureLimit, TaskFailurePolicy};

#[test]
fn business_errors_carry_no_panic_message() {
    let failed = BatchTaskError::Failed("invalid record");
    assert!(failed.is_failed());
    assert!(!failed.is_panicked());
    assert_eq!(failed.panic_message(), None);
}

#[test]
fn panics_keep_their_message() {
    let panicked: BatchTaskError<&'static str> = BatchTaskError::panicked("boom");
    assert!(panicked.is_panicked());
    assert!(!panicked.is_failed());
    assert_eq!(panicked.panic_message(), Some("boom"));
    let silent: BatchTaskError<&'static str> = BatchTaskError::panicked_without_message();
    assert!(silent.is_panicked());
    assert_eq!(silent.panic_message(), None);
    assert_eq!(silent, BatchTaskError::Panicked { message: None });
}

#[test]
fn failure_record_keeps_index_and_error() {
    let failure = BatchTaskFailure::new(4, BatchTaskError::Failed(17));
    assert_eq!(failure.index(), 4);
    assert_eq!(failure.error(), &BatchTaskError::Failed(17));
    assert_eq!(failure.into_error(), BatchTaskError::Failed(17));
}

#[test]
fn continue_policy_never_stops() {
    assert!(!TaskFailurePolicy::Continue.should_stop(0));
    assert!(!TaskFailurePolicy::Continue.should_stop(usize::MAX));
    assert_eq!(TaskFailurePolicy::default(), TaskFailurePolicy::Continue);
}

#[test]
fn stop_on_first_failure_stops_at_one() {
    assert!(!TaskFailurePolicy::StopOnFirstFailure.should_stop(0));
    assert!(TaskFailurePolicy::StopOnFirstFailure.should_stop(1));
    assert!(TaskFailurePolicy::StopOnFirstFailure.should_stop(5));
}

#[test]
fn stop_after_failures_stops_at_its_limit() {
    let policy = TaskFailurePolicy::StopAfterFailures(FailureLimit::new(3).expect("positive"));
    assert!(!policy.should_stop(0));
    assert!(!policy.should_stop(2));
    assert!(policy.should_stop(3));
    assert!(policy.should_stop(4));
}

#[test]
fn failure_limit_rejects_zero() {
    assert!(FailureLimit::new(0).is_none());
    assert_eq!(FailureLimit::new(2).map(FailureLimit::get), Some(2));
}

#[test]
fn termination_defaults_to_finished() {
    assert_eq!(BatchTermination::default(), BatchTermination::Finished);
}
