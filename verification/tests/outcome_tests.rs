use std::time::Duration;

use qubit_batch::outcome::count_failed_records;
use qubit_batch::sort::sort_by_index;
use qubit_batch::{
    BatchOutcomeBuildError, BatchOutcomeBuilder, BatchTaskError, BatchTaskFailure, BatchTermination,
};

fn failed(index: usize, error: &'static str) -> BatchTaskFailure<&'static str> {
    BatchTaskFailure::new(index, BatchTaskError::Failed(error))
}

fn panicked(index: usize) -> BatchTaskFailure<&'static str> {
    BatchTaskFailure::new(index, BatchTaskError::panicked("boom"))
}

#[test]
fn completed_count_above_declared_count_is_rejected() {
    let error = BatchOutcomeBuilder::<&'static str>::builder(1)
        .completed_count(2)
        .succeeded_count(2)
        .build()
        .expect_err("completed count should not exceed declared task count");
    assert_eq!(
        error,
        BatchOutcomeBuildError::CompletedCountExceeded { task_count: 1, completed_count: 2 }
    );
}

#[test]
fn failure_count_overflow_is_rejected_first() {
    let error = BatchOutcomeBuilder::<&'static str>::builder(1)
        .completed_count(5)
        .failed_count(usize::MAX)
        .panicked_count(1)
        .build()
        .expect_err("failed + panicked overflows");
    assert_eq!(
        error,
        BatchOutcomeBuildError::FailureCountOverflow { failed_count: usize::MAX, panicked_count: 1 }
    );
}

#[test]
fn terminal_count_overflow_is_rejected() {
    let error = BatchOutcomeBuilder::<&'static str>::builder(1)
        .succeeded_count(usize::MAX)
        .failed_count(1)
        .build()
        .expect_err("succeeded + failures overflows");
    assert_eq!(
        error,
        BatchOutcomeBuildError::TerminalCountOverflow { succeeded_count: usize::MAX, failure_count: 1 }
    );
}

#[test]
fn terminal_count_must_equal_completed_count() {
    let error = BatchOutcomeBuilder::<&'static str>::builder(4)
        .completed_count(3)
        .succeeded_count(1)
        .failed_count(1)
        .failures(vec![failed(0, "x")])
        .build()
        .expect_err("1 + 1 != 3");
    assert_eq!(
        error,
        BatchOutcomeBuildError::TerminalCountMismatch {
            completed_count: 3,
            terminal_count: 2,
            succeeded_count: 1,
            failed_count: 1,
            panicked_count: 0,
        }
    );
}

#[test]
fn failure_records_must_match_failure_count() {
    let error = BatchOutcomeBuilder::<&'static str>::builder(4)
        .completed_count(2)
        .succeeded_count(1)
        .failed_count(1)
        .build()
        .expect_err("one failure counted but none recorded");
    assert_eq!(error, BatchOutcomeBuildError::FailureDetailCountMismatch { expected: 1, actual: 0 });
}

#[test]
fn first_out_of_range_failure_index_is_reported() {
    let error = BatchOutcomeBuilder::<&'static str>::builder(3)
        .completed_count(3)
        .failed_count(3)
        .failures(vec![failed(1, "a"), failed(7, "b"), failed(9, "c")])
        .build()
        .expect_err("index 7 is outside 0..3");
    assert_eq!(error, BatchOutcomeBuildError::FailureIndexOutOfRange { index: 7, task_count: 3 });
}

#[test]
fn failure_variants_must_match_counters() {
    let error = BatchOutcomeBuilder::<&'static str>::builder(3)
        .completed_count(2)
        .failed_count(2)
        .failures(vec![failed(0, "a"), panicked(1)])
        .build()
        .expect_err("one of the two failures is a panic");
    assert_eq!(
        error,
        BatchOutcomeBuildError::FailureVariantCountMismatch {
            expected_failed: 2,
            actual_failed: 1,
            expected_panicked: 0,
            actual_panicked: 1,
        }
    );
}

#[test]
fn valid_outcome_sorts_failures_by_index() {
    let outcome = BatchOutcomeBuilder::builder(5)
        .completed_count(4)
        .succeeded_count(2)
        .failed_count(1)
        .panicked_count(1)
        .elapsed(Duration::from_millis(7))
        .failures(vec![panicked(3), failed(1, "bad")])
        .build()
        .expect("consistent counters");
    assert_eq!(outcome.task_count(), 5);
    assert_eq!(outcome.completed_count(), 4);
    assert_eq!(outcome.succeeded_count(), 2);
    assert_eq!(outcome.failed_count(), 1);
    assert_eq!(outcome.panicked_count(), 1);
    assert_eq!(outcome.failure_count(), 2);
    assert_eq!(outcome.elapsed(), Duration::from_millis(7));
    assert_eq!(outcome.termination(), BatchTermination::Finished);
    assert!(!outcome.is_success());
    let indexes: Vec<usize> = outcome.failures().iter().map(|f| f.index()).collect();
    assert_eq!(indexes, vec![1, 3]);
    assert!(outcome.failures()[0].error().is_failed());
    assert!(outcome.failures()[1].error().is_panicked());
    assert_eq!(outcome.into_failures().len(), 2);
}

#[test]
fn sorting_keeps_equal_indexes_in_original_order() {
    let sorted = sort_by_index(vec![failed(2, "first"), failed(0, "zero"), failed(2, "second"), failed(1, "one")]);
    let errors: Vec<&'static str> = sorted
        .iter()
        .map(|f| match f.error() {
            BatchTaskError::Failed(e) => *e,
            BatchTaskError::Panicked { .. } => "panic",
        })
        .collect();
    assert_eq!(errors, vec!["zero", "one", "first", "second"]);
}

#[test]
fn validate_returns_sorted_builder() {
    let builder = BatchOutcomeBuilder::builder(3)
        .completed_count(2)
        .failed_count(2)
        .failures(vec![failed(2, "b"), failed(0, "a")])
        .validate()
        .expect("consistent counters");
    let outcome = builder.build().expect("still consistent");
    assert_eq!(outcome.failures()[0].index(), 0);
    assert_eq!(outcome.failures()[1].index(), 2);
}

#[test]
fn empty_builder_is_a_successful_empty_outcome() {
    let outcome = BatchOutcomeBuilder::<&'static str>::builder(0).build().expect("empty outcome is valid");
    assert!(outcome.is_success());
    assert_eq!(outcome.elapsed(), Duration::ZERO);
    let incomplete = BatchOutcomeBuilder::<&'static str>::builder(2).build().expect("nothing completed yet");
    assert!(!incomplete.is_success());
}

#[test]
fn success_requires_every_declared_task_to_succeed() {
    let outcome = BatchOutcomeBuilder::<&'static str>::builder(3)
        .completed_count(3)
        .succeeded_count(3)
        .build()
        .expect("valid");
    assert!(outcome.is_success());
    assert_eq!(outcome.failure_count(), 0);
}

#[test]
fn counting_failed_records_ignores_panics() {
    let records = vec![failed(0, "a"), panicked(1), failed(2, "b")];
    assert_eq!(count_failed_records(&records), 2);
}

#[test]
fn duplicate_failure_indexes_are_rejected() {
    let error = BatchOutcomeBuilder::builder(2)
        .completed_count(2)
        .failed_count(2)
        .failures(vec![failed(0, "a"), failed(0, "b")])
        .validate()
        .expect_err("index 0 failed twice");
    assert_eq!(error, BatchOutcomeBuildError::DuplicateFailureIndex { index: 0 });
}

#[test]
fn out_of_range_index_is_reported_before_a_later_duplicate() {
    let error = BatchOutcomeBuilder::builder(2)
        .completed_count(2)
        .failed_count(2)
        .failures(vec![failed(5, "a"), failed(5, "b")])
        .build()
        .expect_err("index 5 is outside 0..2");
    assert_eq!(error, BatchOutcomeBuildError::FailureIndexOutOfRange { index: 5, task_count: 2 });
}
