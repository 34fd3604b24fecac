use std::time::Duration;

use qubit_batch::{BatchExecutionError, BatchOutcome, BatchOutcomeBuilder, ProgressFailure};
use qubit_progress::EmissionError;

fn empty(count: usize) -> BatchOutcome<&'static str> {
    BatchOutcomeBuilder::builder(count).elapsed(Duration::from_millis(3)).build().expect("valid")
}

fn failure() -> ProgressFailure {
    ProgressFailure::Emission(EmissionError::SequenceExhausted)
}

#[test]
fn variant_predicates_name_one_variant_each() {
    let shortfall: BatchExecutionError<&'static str> = BatchExecutionError::CountShortfall {
        expected: 3,
        actual: 2,
        outcome: empty(3),
        report_error: None,
    };
    assert!(shortfall.is_count_shortfall());
    assert!(!shortfall.is_count_exceeded());
    assert!(!shortfall.is_schedule_failed());
    assert!(!shortfall.is_incomplete_schedule());
    assert!(shortfall.progress_report_error().is_none());
    assert!(shortfall.scheduler_error().is_none());
    assert_eq!(shortfall.outcome().task_count(), 3);
    assert_eq!(shortfall.into_outcome().task_count(), 3);
}

#[test]
fn progress_report_error_is_found_in_every_variant() {
    let primary: BatchExecutionError<&'static str> =
        BatchExecutionError::ProgressReport { source: Box::new(failure()), outcome: empty(1) };
    assert!(matches!(primary.progress_report_error(), Some(ProgressFailure::Emission(_))));
    let secondary: BatchExecutionError<&'static str> = BatchExecutionError::IncompleteSchedule {
        expected: 4,
        accepted: 2,
        observed: 2,
        completed: 1,
        outcome: empty(4),
        report_error: Some(Box::new(failure())),
    };
    assert!(secondary.is_incomplete_schedule());
    assert!(secondary.progress_report_error().is_some());
    let exceeded: BatchExecutionError<&'static str> = BatchExecutionError::CountExceeded {
        expected: 1,
        observed_at_least: 2,
        outcome: empty(1),
        report_error: None,
    };
    assert!(exceeded.is_count_exceeded());
}

#[test]
fn mapping_scheduler_error_converts_only_schedule_failures() {
    let failed: BatchExecutionError<&'static str, &'static str> = BatchExecutionError::ScheduleFailed {
        source: "pool closed",
        outcome: empty(2),
        report_error: None,
    };
    let mapped = failed.map_scheduler_error(|s: &'static str| s.len());
    assert_eq!(mapped.scheduler_error(), Some(&11));
    assert_eq!(mapped.outcome().task_count(), 2);

    let shortfall: BatchExecutionError<&'static str, &'static str> = BatchExecutionError::CountShortfall {
        expected: 2,
        actual: 1,
        outcome: empty(2),
        report_error: None,
    };
    let mapped = shortfall.map_scheduler_error(|s: &'static str| s.len());
    match mapped {
        BatchExecutionError::CountShortfall { expected, actual, .. } => {
            assert_eq!(expected, 2);
            assert_eq!(actual, 1);
        }
        _ => panic!("variant must be kept"),
    }
}
