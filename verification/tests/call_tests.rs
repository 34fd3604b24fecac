use std::time::Duration;

use qubit_batch::call::{call_result_of, collect_call_outputs};
use qubit_batch::{
    BatchCallError, BatchCallOutput, BatchCallResult, BatchCallResultBuildError, BatchExecutionError,
    BatchOutcome, BatchOutcomeBuilder, BatchTaskError, BatchTaskFailure,
};

fn outcome(task_count: usize, succeeded: usize, failed_indexes: &[usize]) -> BatchOutcome<&'static str> {
    let failures: Vec<BatchTaskFailure<&'static str>> = failed_indexes
        .iter()
        .map(|&i| BatchTaskFailure::new(i, BatchTaskError::Failed("bad")))
        .collect();
    BatchOutcomeBuilder::builder(task_count)
        .completed_count(succeeded + failed_indexes.len())
        .succeeded_count(succeeded)
        .failed_count(failed_indexes.len())
        .elapsed(Duration::from_millis(1))
        .failures(failures)
        .build()
        .expect("valid outcome")
}

#[test]
fn output_parts_round_trip() {
    let output = BatchCallOutput::new(3, "value");
    assert_eq!(output.index(), 3);
    assert_eq!(*output.value(), "value");
    assert_eq!(output.clone().into_value(), "value");
    assert_eq!(output.into_parts(), (3, "value"));
}

#[test]
fn matching_outputs_build_a_result() {
    let result = BatchCallResult::try_new(
        outcome(3, 2, &[1]),
        vec![BatchCallOutput::new(0, 10), BatchCallOutput::new(2, 30)],
    )
    .expect("outputs match the outcome");
    assert_eq!(result.outputs().len(), 2);
    assert_eq!(*result.outputs()[1].value(), 30);
    assert_eq!(result.outcome().succeeded_count(), 2);
    let (outcome, outputs) = result.into_parts();
    assert_eq!(outcome.failed_count(), 1);
    assert_eq!(outputs[0].index(), 0);
}

#[test]
fn outputs_must_be_strictly_increasing() {
    let error = BatchCallResult::try_new(
        outcome(3, 2, &[]),
        vec![BatchCallOutput::new(1, 10), BatchCallOutput::new(1, 30)],
    )
    .expect_err("duplicate index");
    assert_eq!(error, BatchCallResultBuildError::OutputIndexOutOfOrder { previous_index: 1, index: 1 });
}

#[test]
fn outputs_must_stay_below_the_task_count() {
    let error = BatchCallResult::try_new(outcome(2, 1, &[]), vec![BatchCallOutput::new(5, 10)])
        .expect_err("index 5 is outside 0..2");
    assert_eq!(error, BatchCallResultBuildError::OutputIndexOutOfRange { index: 5, task_count: 2 });
}

#[test]
fn failed_tasks_must_not_have_outputs() {
    let error = BatchCallResult::try_new(
        outcome(3, 1, &[0]),
        vec![BatchCallOutput::new(0, 10)],
    )
    .expect_err("task 0 failed");
    assert_eq!(error, BatchCallResultBuildError::FailureOutputPresent { index: 0 });
}

#[test]
fn output_count_must_match_successes() {
    let error = BatchCallResult::try_new(outcome(3, 2, &[]), vec![BatchCallOutput::new(0, 10)])
        .expect_err("two successes but one output");
    assert_eq!(
        error,
        BatchCallResultBuildError::SucceededOutputCountMismatch { succeeded_count: 2, output_count: 1 }
    );
}

#[test]
fn collected_outputs_are_sorted_by_index() {
    let outputs = collect_call_outputs(vec![(2, "c"), (0, "a"), (1, "b")]);
    let parts: Vec<(usize, &str)> = outputs.into_iter().map(BatchCallOutput::into_parts).collect();
    assert_eq!(parts, vec![(0, "a"), (1, "b"), (2, "c")]);
}

#[test]
fn call_error_keeps_outputs_when_mapping_scheduler_error() {
    let source: BatchExecutionError<&'static str, String> = BatchExecutionError::ScheduleFailed {
        source: "rejected".to_string(),
        outcome: outcome(3, 1, &[]),
        report_error: None,
    };
    let error = BatchCallError::new(source, vec![BatchCallOutput::new(0, 42)]);
    assert!(error.source().is_schedule_failed());
    let mapped = error.map_scheduler_error(|s: String| s.len());
    assert_eq!(*mapped.outputs()[0].value(), 42);
    assert_eq!(mapped.source().scheduler_error(), Some(&8));
    assert_eq!(mapped.outcome().succeeded_count(), 1);
    let (source, outputs) = mapped.into_parts();
    assert!(source.is_schedule_failed());
    assert_eq!(outputs.len(), 1);
}

#[test]
fn call_error_of_count_shortfall_keeps_values() {
    let source: BatchExecutionError<&'static str> = BatchExecutionError::CountShortfall {
        expected: 2,
        actual: 1,
        outcome: outcome(2, 1, &[]),
        report_error: None,
    };
    let error = BatchCallError::new(source, vec![BatchCallOutput::new(0, 42)]);
    assert!(error.source().is_count_shortfall());
    let mapped = error.map_scheduler_error::<std::io::Error, _>(|never| match never {});
    assert!(mapped.source().is_count_shortfall());
    assert!(matches!(mapped.source(), BatchExecutionError::CountShortfall { expected: 2, actual: 1, .. }));
    assert_eq!(*mapped.outputs()[0].value(), 42);
    assert_eq!(mapped.into_outputs().len(), 1);
}

#[test]
fn outputs_must_belong_to_completed_tasks() {
    let outcome = BatchOutcomeBuilder::<()>::builder(3).completed_count(1).succeeded_count(1).build().unwrap();
    let error = BatchCallResult::try_new(outcome, vec![BatchCallOutput::new(2, 7)])
        .expect_err("task 2 did not complete");
    assert_eq!(error, BatchCallResultBuildError::OutputIndexNotCompleted { index: 2, completed_count: 1 });
}

#[test]
fn call_result_of_pairs_an_outcome_with_its_outputs() {
    let execution: Result<BatchOutcome<&'static str>, BatchExecutionError<&'static str>> = Ok(outcome(2, 2, &[]));
    let result = call_result_of(execution, vec![BatchCallOutput::new(0, 1), BatchCallOutput::new(1, 2)])
        .expect("outputs match")
        .expect("execution succeeded");
    assert_eq!(result.outputs().len(), 2);

    let execution: Result<BatchOutcome<&'static str>, BatchExecutionError<&'static str>> = Ok(outcome(2, 2, &[]));
    let error = call_result_of(execution, vec![BatchCallOutput::new(0, 1)]).err();
    assert_eq!(
        error,
        Some(BatchCallResultBuildError::SucceededOutputCountMismatch { succeeded_count: 2, output_count: 1 })
    );

    let execution: Result<BatchOutcome<&'static str>, BatchExecutionError<&'static str>> =
        Err(BatchExecutionError::CountShortfall { expected: 3, actual: 2, outcome: outcome(3, 2, &[]), report_error: None });
    let error = call_result_of(execution, vec![BatchCallOutput::new(0, 1), BatchCallOutput::new(1, 2)])
        .expect("no validation for a batch error")
        .expect_err("batch error");
    assert_eq!(error.outputs().len(), 2);
    assert!(error.source().is_count_shortfall());
}
