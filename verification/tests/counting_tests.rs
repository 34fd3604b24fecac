use std::time::Duration;

use qubit_batch::execution::BatchExecutionState as CountingState;
use qubit_batch::executor::{
    admit_counted_item, check_observed_count, outcome_progress_counters, BatchCallResult as SlotResult,
    ParallelBatchProgressState, ParallelBatchResultState, ProgressCounters,
};
use qubit_batch::result::{build_result, BatchExecutionError as CountError, SequentialCountingRun};
use qubit_batch::{BatchExecutionError, BatchOutcomeBuilder, BatchTaskError, SequentialStep, TaskRunOutcome};

#[test]
fn counting_run_stops_reading_at_the_first_excess_item() {
    let mut run = SequentialCountingRun::<&'static str>::new(1);
    assert_eq!(run.next_step(), SequentialStep::Run { index: 0 });
    run.record_outcome(TaskRunOutcome::Failed("bad"));
    assert_eq!(run.next_step(), SequentialStep::CountExceeded);
    let error = run.fail_count_exceeded(Duration::from_millis(1));
    assert!(error.is_count_exceeded());
    match error {
        CountError::CountExceeded { expected, observed_at_least, result } => {
            assert_eq!((expected, observed_at_least), (1, 2));
            assert_eq!(result.failed_count(), 1);
            assert_eq!(result.failure_count(), 1);
            assert!(!result.is_success());
        }
        _ => unreachable!(),
    }
}

#[test]
fn counting_run_reports_shortfall_with_result() {
    let mut run = SequentialCountingRun::<&'static str>::new(3);
    run.record_outcome(TaskRunOutcome::Succeeded);
    run.record_outcome(TaskRunOutcome::Panicked { message: None });
    let error = run.complete(Duration::from_millis(2)).expect_err("short source");
    assert!(error.is_count_shortfall());
    assert_eq!(error.result().completed_count(), 2);
    assert_eq!(error.result().panicked_count(), 1);
    let result = error.into_result();
    assert_eq!(result.failures()[0].index(), 1);
    assert_eq!(result.into_failures().len(), 1);
}

#[test]
fn counting_run_with_exact_source_succeeds() {
    let mut run = SequentialCountingRun::<&'static str>::new(2);
    run.record_outcome(TaskRunOutcome::Succeeded);
    run.record_outcome(TaskRunOutcome::Succeeded);
    let result = run.complete(Duration::from_millis(2)).expect("exact source");
    assert!(result.is_success());
    assert_eq!(result.task_count(), 2);
    assert_eq!(result.succeeded_count(), 2);
    assert_eq!(result.elapsed(), Duration::from_millis(2));
}

#[test]
fn built_result_holds_its_parts() {
    let result = build_result::<&'static str>(4, 3, 3, 0, 0, Duration::from_secs(1), Vec::new());
    assert_eq!(result.task_count(), 4);
    assert!(!result.is_success());
}

#[test]
fn progress_counters_wrap_like_shared_counters() {
    let mut state = ParallelBatchProgressState::new();
    state.record_task_started();
    state.record_task_started();
    state.record_task_succeeded();
    state.record_task_failed();
    assert_eq!(state.completed_count(), 2);
    state.record_task_panicked();
    assert_eq!(
        state.progress_counters(5),
        ProgressCounters {
            total_count: Some(5),
            active_count: usize::MAX,
            completed_count: 3,
            succeeded_count: 1,
            failed_count: 2,
        }
    );
}

#[test]
fn result_state_builds_a_sorted_outcome() {
    let mut state = ParallelBatchResultState::<&'static str>::new();
    state.record_task_panicked(2, BatchTaskError::panicked("boom"));
    state.record_task_succeeded();
    state.record_task_failed(0, "bad");
    let outcome = state.into_outcome(3, 3, Duration::from_millis(1));
    assert_eq!(outcome.failures()[0].index(), 0);
    assert_eq!(outcome.failures()[1].index(), 2);
    let counters = outcome_progress_counters(&outcome);
    assert_eq!(counters.failed_count, 2);
    assert_eq!(counters.total_count, Some(3));
}

#[test]
fn counted_admission_and_final_count_check() {
    assert_eq!(admit_counted_item(0, 2), (SequentialStep::Run { index: 0 }, 1));
    assert_eq!(admit_counted_item(2, 2), (SequentialStep::CountExceeded, 3));
    let outcome = BatchOutcomeBuilder::<&'static str>::builder(2).build().expect("valid");
    let error = check_observed_count(2, 1, outcome.clone()).expect_err("short");
    assert!(matches!(error, BatchExecutionError::CountShortfall { expected: 2, actual: 1, .. }));
    let error = check_observed_count(2, 3, outcome.clone()).expect_err("long");
    assert!(matches!(error, BatchExecutionError::CountExceeded { observed_at_least: 3, .. }));
    assert!(check_observed_count(2, 2, outcome).is_ok());
}

#[test]
fn slot_result_keeps_values_by_position() {
    let outcome = BatchOutcomeBuilder::<&'static str>::builder(2).build().expect("valid");
    let result = SlotResult::new(outcome, vec![Some(1), None]);
    assert_eq!(result.values(), &[Some(1), None]);
    assert_eq!(result.outcome().task_count(), 2);
    let (outcome, values) = result.into_parts();
    assert_eq!(outcome.task_count(), 2);
    assert_eq!(values.len(), 2);
}

#[test]
fn counting_state_tracks_active_tasks() {
    let mut state = CountingState::<&'static str>::new(3);
    state.record_task_started();
    state.record_task_succeeded();
    state.record_task_started();
    state.record_task_failed(1, "bad");
    state.record_task_panicked(2, BatchTaskError::panicked_without_message());
    let counters = state.progress_counters();
    assert_eq!(counters.active_count, 0);
    assert_eq!(counters.completed_count, 3);
    assert_eq!(counters.failed_count, 2);
    assert_eq!(state.completed_count(), 3);
    assert_eq!(state.task_count(), 3);
    let outcome = state.into_outcome(Duration::from_millis(9));
    assert_eq!(outcome.panicked_count(), 1);
}
