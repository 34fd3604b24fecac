use std::time::Duration;

use qubit_batch::run::{empty_outcome, progress_start_failed, SequentialEnd};
use qubit_batch::{
    BatchExecutionError, BatchOutcome, BatchTaskError, BatchTermination, FailureLimit, ProgressFailure,
    SequentialBatchExecutor, SequentialBatchRun, SequentialStep, TaskFailurePolicy, TaskRunOutcome, TerminalReport,
};
use qubit_batch::{CallRunOutcome, SequentialCallRun};
use qubit_progress::EmissionError;

/// Drives a sequential run over `items` the way an executor does: observe,
/// run, record, stop on policy; then report the terminal event.
fn drive<E>(
    policy: TaskFailurePolicy,
    count: usize,
    items: Vec<TaskRunOutcome<E>>,
    terminal_fails: bool,
) -> Result<BatchOutcome<E>, BatchExecutionError<E>> {
    let elapsed = Duration::from_millis(5);
    let mut run = SequentialBatchRun::new(count, policy);
    for outcome in items {
        match run.observe_item() {
            SequentialStep::CountExceeded => {
                return Err(run.fail_count_exceeded(TerminalReport::Reported { elapsed }));
            }
            SequentialStep::Run { .. } => {
                if run.record_outcome(outcome) {
                    break;
                }
            }
        }
    }
    let report = if terminal_fails {
        TerminalReport::Failed { elapsed, failure: ProgressFailure::Emission(EmissionError::SequenceExhausted) }
    } else {
        TerminalReport::Reported { elapsed }
    };
    run.complete(report)
}

#[derive(Debug, Clone, PartialEq, Eq)]
struct ImportError {
    record_id: u64,
}

#[test]
fn import_keeps_the_index_of_the_invalid_record() {
    let records = [(101u64, "alice@example.com"), (102, "not-an-email"), (103, "carol@example.com")];
    let outcomes: Vec<TaskRunOutcome<ImportError>> = records
        .iter()
        .map(|(record_id, email)| {
            if email.contains('@') {
                TaskRunOutcome::Succeeded
            } else {
                TaskRunOutcome::Failed(ImportError { record_id: *record_id })
            }
        })
        .collect();
    let outcome = drive(TaskFailurePolicy::Continue, 3, outcomes, false).expect("array length is exact");
    assert_eq!(outcome.task_count(), 3);
    assert_eq!(outcome.succeeded_count(), 2);
    assert_eq!(outcome.failed_count(), 1);
    assert_eq!(outcome.failures()[0].index(), 1);
    assert!(matches!(outcome.failures()[0].error(), BatchTaskError::Failed(ImportError { record_id: 102 })));
    assert_eq!(outcome.termination(), BatchTermination::Finished);
}

#[test]
fn short_source_reports_count_shortfall_with_partial_outcome() {
    let error = drive::<&'static str>(
        TaskFailurePolicy::Continue,
        3,
        vec![TaskRunOutcome::Succeeded, TaskRunOutcome::Succeeded],
        false,
    )
    .expect_err("iterator yields fewer items than declared");
    assert!(error.is_count_shortfall());
    assert_eq!(error.outcome().completed_count(), 2);
    match error {
        BatchExecutionError::CountShortfall { expected, actual, report_error, .. } => {
            assert_eq!(expected, 3);
            assert_eq!(actual, 2);
            assert!(report_error.is_none());
        }
        _ => unreachable!(),
    }
}

#[test]
fn long_source_reports_count_exceeded_after_one_extra_item() {
    let error = drive::<&'static str>(
        TaskFailurePolicy::Continue,
        1,
        vec![TaskRunOutcome::Succeeded, TaskRunOutcome::Succeeded, TaskRunOutcome::Succeeded],
        false,
    )
    .expect_err("source yields more items than declared");
    match error {
        BatchExecutionError::CountExceeded { expected, observed_at_least, outcome, .. } => {
            assert_eq!(expected, 1);
            assert_eq!(observed_at_least, 2);
            assert_eq!(outcome.completed_count(), 1);
        }
        _ => unreachable!(),
    }
}

#[test]
fn stop_on_first_failure_stops_consuming_the_source() {
    let items: Vec<TaskRunOutcome<&'static str>> = (0..10).map(|_| TaskRunOutcome::Failed("failed")).collect();
    let outcome = drive(TaskFailurePolicy::StopOnFirstFailure, 10, items, false)
        .expect("policy stops return an outcome");
    assert_eq!(outcome.termination(), BatchTermination::StoppedByTaskFailurePolicy);
    assert_eq!(outcome.completed_count(), 1);
    assert_eq!(outcome.failed_count(), 1);
}

#[test]
fn policy_stop_on_the_last_task_still_reports_the_stop() {
    let items = vec![TaskRunOutcome::Succeeded, TaskRunOutcome::Failed("last")];
    let outcome = drive(TaskFailurePolicy::StopOnFirstFailure, 2, items, false).expect("policy stop");
    assert_eq!(outcome.completed_count(), outcome.task_count());
    assert_eq!(outcome.termination(), BatchTermination::StoppedByTaskFailurePolicy);
}

#[test]
fn stop_after_two_failures_runs_until_the_second() {
    let policy = TaskFailurePolicy::StopAfterFailures(FailureLimit::new(2).expect("positive"));
    let items = vec![
        TaskRunOutcome::Failed("a"),
        TaskRunOutcome::Succeeded,
        TaskRunOutcome::Panicked { message: Some("boom".to_string()) },
        TaskRunOutcome::Succeeded,
    ];
    let outcome = drive(policy, 4, items, false).expect("policy stop");
    assert_eq!(outcome.completed_count(), 3);
    assert_eq!(outcome.failed_count(), 1);
    assert_eq!(outcome.panicked_count(), 1);
    assert_eq!(outcome.failures()[1].error().panic_message(), Some("boom"));
    assert_eq!(outcome.termination(), BatchTermination::StoppedByTaskFailurePolicy);
}

#[test]
fn finished_can_include_task_failures() {
    let items = vec![TaskRunOutcome::Failed("a"), TaskRunOutcome::Succeeded];
    let outcome = drive(TaskFailurePolicy::Continue, 2, items, false).expect("exact source");
    assert_eq!(outcome.termination(), BatchTermination::Finished);
    assert!(!outcome.is_success());
}

#[test]
fn failed_terminal_report_becomes_a_progress_error() {
    let error = drive::<&'static str>(TaskFailurePolicy::Continue, 1, vec![TaskRunOutcome::Succeeded], true)
        .expect_err("terminal report failed");
    assert!(matches!(error, BatchExecutionError::ProgressReport { .. }));
    assert!(error.outcome().is_success());
}

#[test]
fn failed_terminal_report_is_secondary_to_a_shortfall() {
    let error = drive::<&'static str>(TaskFailurePolicy::Continue, 2, vec![TaskRunOutcome::Succeeded], true)
        .expect_err("short source");
    assert!(error.is_count_shortfall());
    assert!(error.progress_report_error().is_some());
}

#[test]
fn end_of_run_tells_which_terminal_event_to_report() {
    let mut run = SequentialBatchRun::<&'static str>::new(1, TaskFailurePolicy::Continue);
    assert_eq!(run.end(), SequentialEnd::CountShortfall);
    assert_eq!(run.observe_item(), SequentialStep::Run { index: 0 });
    assert!(!run.record_outcome(TaskRunOutcome::Succeeded));
    assert_eq!(run.end(), SequentialEnd::Finished);
    assert!(run.end().reports_finished());
    let mut failing = SequentialBatchRun::<&'static str>::new(1, TaskFailurePolicy::Continue);
    failing.observe_item();
    failing.record_outcome(TaskRunOutcome::Failed("x"));
    assert_eq!(failing.end(), SequentialEnd::TaskFailures);
    assert!(!failing.end().reports_finished());
}

#[test]
fn progress_report_between_tasks_fails_the_run() {
    let mut run = SequentialBatchRun::<&'static str>::new(2, TaskFailurePolicy::Continue);
    run.observe_item();
    run.record_outcome(TaskRunOutcome::Succeeded);
    let error = run.fail_progress_report(
        Duration::from_millis(2),
        ProgressFailure::Emission(EmissionError::SequenceExhausted),
    );
    assert!(matches!(error, BatchExecutionError::ProgressReport { .. }));
    assert_eq!(error.outcome().completed_count(), 1);
}

#[test]
fn start_failure_carries_an_empty_outcome() {
    let error: BatchExecutionError<&'static str> =
        progress_start_failed(4, ProgressFailure::Emission(EmissionError::SequenceExhausted));
    assert_eq!(error.outcome().task_count(), 4);
    assert_eq!(error.outcome().completed_count(), 0);
    assert_eq!(error.outcome().elapsed(), Duration::ZERO);
    let outcome: BatchOutcome<&'static str> = empty_outcome(0);
    assert!(outcome.is_success());
    assert_eq!(outcome.elapsed(), Duration::ZERO);
}

#[test]
fn executor_run_uses_its_policy() {
    let executor = SequentialBatchExecutor::builder()
        .task_failure_policy(TaskFailurePolicy::StopOnFirstFailure)
        .report_interval(Duration::from_secs(1))
        .build();
    assert_eq!(executor.report_interval(), Duration::from_secs(1));
    let mut run = executor.start_run::<&'static str>(3);
    run.observe_item();
    assert!(run.record_outcome(TaskRunOutcome::Failed("x")));
    assert!(run.is_stopped());
    assert_eq!(SequentialBatchExecutor::new().task_failure_policy(), TaskFailurePolicy::Continue);
}

#[test]
fn default_report_interval_is_five_seconds() {
    assert_eq!(SequentialBatchExecutor::new().report_interval(), Duration::from_secs(5));
    assert_eq!(SequentialBatchExecutor::builder().build().report_interval(), Duration::from_secs(5));
}

#[test]
fn callable_run_keeps_values_of_successful_tasks() {
    let mut run = SequentialCallRun::<u32, &'static str>::new(3, TaskFailurePolicy::Continue);
    let outcomes = vec![CallRunOutcome::Succeeded(10), CallRunOutcome::Failed("bad"), CallRunOutcome::Succeeded(30)];
    for outcome in outcomes {
        assert!(matches!(run.observe_item(), SequentialStep::Run { .. }));
        assert!(!run.record_outcome(outcome));
    }
    let result = run.complete(TerminalReport::Reported { elapsed: Duration::from_millis(2) }).expect("all ran");
    let parts: Vec<(usize, u32)> = result.outputs().iter().map(|o| (o.index(), *o.value())).collect();
    assert_eq!(parts, vec![(0, 10), (2, 30)]);
    assert_eq!(result.outcome().succeeded_count(), 2);
    assert_eq!(result.outcome().failures()[0].index(), 1);
}

#[test]
fn callable_run_keeps_values_when_the_source_is_too_long() {
    let mut run = SequentialCallRun::<u32, &'static str>::new(1, TaskFailurePolicy::Continue);
    run.observe_item();
    run.record_outcome(CallRunOutcome::Succeeded(5));
    assert_eq!(run.observe_item(), SequentialStep::CountExceeded);
    let error = run.fail_count_exceeded(TerminalReport::Reported { elapsed: Duration::from_millis(2) });
    assert_eq!(error.outputs().len(), 1);
    assert_eq!(error.outputs()[0].index(), 0);
    assert_eq!(error.outcome().succeeded_count(), 1);
    assert!(matches!(error.source(), BatchExecutionError::CountExceeded { expected: 1, observed_at_least: 2, .. }));
    assert_eq!(error.outcome().completed_count(), 1);
}
