use std::time::Duration;

use qubit_batch::parallel::{
    complete_parallel, coordinator_result, coordinator_terminal, next_execution_id, parallel_state, schedule_failed,
    CoordinatorTerminal, ParallelFinish,
};
use qubit_batch::{
    BatchExecutionError, BatchExecutionState, BatchTermination, ParallelBatchAcceptanceState,
    ParallelBatchExecution, ParallelBatchExecutionContext, ParallelBatchExecutor, ParallelBatchExecutorBuildError,
    ParallelBatchTask, ProgressFailure, TaskExecutionStatus, TaskFailurePolicy, TaskRunOutcome, TerminalReport,
};
use qubit_progress::EmissionError;

fn reported() -> TerminalReport {
    TerminalReport::Reported { elapsed: Duration::from_millis(4) }
}

#[test]
fn stopped_admission_is_observable_and_never_reopens() {
    let mut state = ParallelBatchAcceptanceState::new(2);
    state.stop();
    assert!(state.try_record_observed().is_none());
    assert!(state.should_stop());
    assert_eq!(state.observed_count(), 0);
}

#[test]
fn each_admission_counts_once() {
    let mut state = ParallelBatchAcceptanceState::new(2);
    state.record_observed();
    state.record_accepted();
    state.record_observed();
    state.record_accepted();
    assert_eq!(state.observed_count(), 2);
    assert_eq!(state.accepted_count(), 2);
    assert_eq!(state.task_count(), 2);
    assert_eq!(state.try_record_observed(), Some(3));
}

#[test]
fn context_assigns_consecutive_indexes_and_rejects_excess() {
    let mut context = ParallelBatchExecutionContext::new(7, parallel_state::<&'static str>(2, TaskFailurePolicy::Continue));
    let first = context.accept_task(false, "a").expect("first is admitted");
    let second = context.accept_task(false, "b").expect("second is admitted");
    assert!(context.accept_task(false, "c").is_none());
    assert_eq!(context.state().observed_count(), 3);
    assert_eq!(context.state().accepted_count(), 2);
    assert_eq!(first.into_parts(), (7, 0, "a"));
    assert_eq!(second.into_parts(), (7, 1, "b"));
}

#[test]
fn failed_reporter_blocks_admission() {
    let mut context = ParallelBatchExecutionContext::new(1, parallel_state::<&'static str>(2, TaskFailurePolicy::Continue));
    assert!(context.accept_task(true, "a").is_none());
    assert_eq!(context.state().observed_count(), 0);
    assert!(!context.can_pull(true));
    assert!(context.can_pull(false));
}

#[test]
fn absent_item_marks_the_source_exhausted() {
    let mut context = ParallelBatchExecutionContext::new(1, parallel_state::<&'static str>(1, TaskFailurePolicy::Continue));
    assert!(context.take_pulled::<&'static str>(false, None).is_none());
    assert!(context.state().source_exhausted());
    assert!(!context.can_pull(false));
    assert!(!context.can_pull(true));
}

fn run_parallel(
    count: usize,
    policy: TaskFailurePolicy,
    items: Vec<TaskRunOutcome<&'static str>>,
) -> BatchExecutionState<&'static str> {
    let mut context = ParallelBatchExecutionContext::new(3, parallel_state(count, policy));
    let mut items = items.into_iter();
    while context.can_pull(false) {
        let pulled = items.next();
        let token = context.take_pulled(false, pulled.as_ref().map(|_| ()));
        if let (Some(token), Some(outcome)) = (token, pulled) {
            let (id, index, ()) = token.into_parts();
            context.record_task_outcome(id, index, outcome);
        }
    }
    context.into_state()
}

#[test]
fn exhausted_exact_source_finishes() {
    let state = run_parallel(2, TaskFailurePolicy::Continue, vec![TaskRunOutcome::Succeeded, TaskRunOutcome::Succeeded]);
    assert_eq!(qubit_batch::parallel::parallel_finish(&state, 2), ParallelFinish::Finished);
    let outcome = complete_parallel::<_, String>(state, 2, reported()).expect("finished");
    assert!(outcome.is_success());
    assert_eq!(outcome.termination(), BatchTermination::Finished);
}

#[test]
fn policy_stop_before_exhaustion_returns_stopped_outcome() {
    let state = run_parallel(
        3,
        TaskFailurePolicy::StopOnFirstFailure,
        vec![TaskRunOutcome::Failed("x"), TaskRunOutcome::Succeeded, TaskRunOutcome::Succeeded],
    );
    assert_eq!(qubit_batch::parallel::parallel_finish(&state, 3), ParallelFinish::StoppedByPolicy);
    let outcome = complete_parallel::<_, String>(state, 3, reported()).expect("policy stop");
    assert_eq!(outcome.termination(), BatchTermination::StoppedByTaskFailurePolicy);
    assert_eq!(outcome.completed_count(), 1);
}

#[test]
fn exhausted_short_source_is_a_shortfall_even_after_a_policy_stop() {
    let state = run_parallel(3, TaskFailurePolicy::StopOnFirstFailure, vec![TaskRunOutcome::Failed("x")]);
    // the failure stopped admission before the source was probed again
    assert_eq!(qubit_batch::parallel::parallel_finish(&state, 3), ParallelFinish::StoppedByPolicy);
    let mut context = ParallelBatchExecutionContext::new(3, parallel_state::<&'static str>(3, TaskFailurePolicy::StopOnFirstFailure));
    let token = context.take_pulled(false, Some(())).expect("admitted");
    let (id, index, ()) = token.into_parts();
    context.record_task_outcome(id, index, TaskRunOutcome::Failed("x"));
    let mut state = context.into_state();
    state.mark_source_exhausted();
    assert_eq!(qubit_batch::parallel::parallel_finish(&state, 3), ParallelFinish::CountShortfall);
    let error = complete_parallel::<_, String>(state, 3, reported()).expect_err("short source");
    assert!(error.is_count_shortfall());
}

#[test]
fn unfinished_accepted_task_is_an_incomplete_schedule() {
    let mut context = ParallelBatchExecutionContext::new(9, parallel_state::<&'static str>(2, TaskFailurePolicy::Continue));
    let _token: ParallelBatchTask<&'static str> = context.accept_task(false, "a").expect("admitted");
    let state = context.into_state();
    assert_eq!(qubit_batch::parallel::parallel_finish(&state, 2), ParallelFinish::IncompleteSchedule);
    let error = complete_parallel::<_, String>(state, 2, reported()).expect_err("task never ran");
    match error {
        BatchExecutionError::IncompleteSchedule { expected, accepted, observed, completed, .. } => {
            assert_eq!((expected, accepted, observed, completed), (2, 1, 1, 0));
        }
        _ => unreachable!(),
    }
}

#[test]
fn scheduler_that_skips_exhaustion_is_incomplete() {
    let mut context = ParallelBatchExecutionContext::new(9, parallel_state::<&'static str>(1, TaskFailurePolicy::Continue));
    let token = context.accept_task(false, ()).expect("admitted");
    let (id, index, ()) = token.into_parts();
    assert_eq!(context.record_task_outcome(id, index, TaskRunOutcome::Succeeded), TaskExecutionStatus::Succeeded);
    let state = context.into_state();
    assert_eq!(qubit_batch::parallel::parallel_finish(&state, 1), ParallelFinish::MissingExhaustion);
    let error = complete_parallel::<_, String>(state, 1, reported()).expect_err("never saw the end");
    assert!(error.is_incomplete_schedule());
}

#[test]
fn excess_items_are_a_count_error() {
    let state = run_parallel(1, TaskFailurePolicy::Continue, vec![TaskRunOutcome::Succeeded, TaskRunOutcome::Succeeded]);
    assert_eq!(qubit_batch::parallel::parallel_finish(&state, 1), ParallelFinish::CountExceeded);
    let error = complete_parallel::<_, String>(state, 1, reported()).expect_err("too many");
    assert!(error.is_count_exceeded());
}

#[test]
fn scheduler_failure_keeps_its_error() {
    let state = parallel_state::<&'static str>(2, TaskFailurePolicy::Continue);
    let error = schedule_failed(state, "rejected", TerminalReport::Failed {
        elapsed: Duration::from_millis(1),
        failure: ProgressFailure::Emission(EmissionError::SequenceExhausted),
    });
    assert_eq!(error.scheduler_error(), Some(&"rejected"));
    assert!(error.progress_report_error().is_some());
}

#[test]
fn execution_ids_increase_until_exhausted() {
    let mut counter = 1u64;
    assert_eq!(next_execution_id(&mut counter), Some(1));
    assert_eq!(next_execution_id(&mut counter), Some(2));
    let mut last = u64::MAX;
    assert_eq!(next_execution_id(&mut last), None);
    assert_eq!(last, u64::MAX);
}

#[test]
fn counting_driver_reports_shortfall_and_failures() {
    let mut state = BatchExecutionState::<&'static str>::new(2, TaskFailurePolicy::Continue);
    state.record_task_observed();
    state.record_task_outcome(0, TaskRunOutcome::Failed("bad"));
    assert_eq!(ParallelBatchExecution::finish_kind(&state, 2, 1), ParallelFinish::CountShortfall);
    assert_eq!(ParallelBatchExecution::finish_kind(&state, 1, 1), ParallelFinish::TaskFailures);
    let outcome = ParallelBatchExecution::finish(state, 1, 1, reported()).expect("exact count");
    assert_eq!(outcome.failed_count(), 1);
    let empty = ParallelBatchExecution::empty_outcome::<&'static str>(3);
    assert_eq!(empty.task_count(), 3);
    assert_eq!(empty.completed_count(), 0);
}

#[test]
fn parallel_configuration_rules() {
    assert_eq!(ParallelBatchExecutor::new(0).err(), Some(ParallelBatchExecutorBuildError::ZeroThreadCount));
    let executor = ParallelBatchExecutor::builder(8).sequential_threshold(10).build().expect("positive threads");
    assert_eq!(executor.thread_count(), 8);
    assert!(executor.runs_sequentially(10));
    assert!(!executor.runs_sequentially(11));
    assert_eq!(executor.worker_count(3), 3);
    assert_eq!(executor.worker_count(30), 8);
    let single = ParallelBatchExecutor::new(1).expect("one thread");
    assert!(single.runs_sequentially(1000));
    assert_eq!(single.sequential_threshold(), 100);
    assert_eq!(single.sequential_executor().task_failure_policy(), TaskFailurePolicy::Continue);
    assert_eq!(single.report_interval(), Duration::from_secs(5));
    assert_eq!(single.sequential_executor().report_interval(), Duration::from_secs(5));
}

#[test]
fn zero_report_interval_is_accepted() {
    let executor = ParallelBatchExecutor::builder(2).report_interval(Duration::ZERO).build().expect("two threads");
    assert_eq!(executor.report_interval(), Duration::ZERO);
    let error = ParallelBatchExecutor::builder(0).report_interval(Duration::ZERO).build().err();
    assert_eq!(error, Some(ParallelBatchExecutorBuildError::ZeroThreadCount));
}

#[derive(Debug, PartialEq)]
struct SchedulerDown;

#[test]
fn coordinator_reports_finished_for_a_clean_run() {
    let state = run_parallel(1, TaskFailurePolicy::Continue, vec![TaskRunOutcome::Succeeded]);
    let scheduled: Result<(), SchedulerDown> = Ok(());
    let terminal = coordinator_terminal(&state, 1, &scheduled, &Ok(()));
    assert_eq!(terminal, CoordinatorTerminal::ReportFinished);
    let outcome = coordinator_result(state, 1, scheduled, Ok(()), Some(reported()), Duration::from_millis(4))
        .expect("clean run");
    assert!(outcome.is_success());
    assert_eq!(outcome.completed_count(), 1);
}

#[test]
fn coordinator_puts_the_scheduler_error_first() {
    let state = run_parallel(2, TaskFailurePolicy::Continue, vec![TaskRunOutcome::Succeeded]);
    let scheduled: Result<(), SchedulerDown> = Err(SchedulerDown);
    assert_eq!(coordinator_terminal(&state, 2, &scheduled, &Ok(())), CoordinatorTerminal::ReportFailed);
    let error = coordinator_result(state, 2, scheduled, Ok(()), Some(reported()), Duration::from_millis(4))
        .expect_err("scheduler failed");
    assert!(matches!(error, BatchExecutionError::ScheduleFailed { source: SchedulerDown, .. }));
    assert_eq!(error.outcome().completed_count(), 1);
}

#[test]
fn scheduler_that_skips_exhaustion_is_told_to_report_failure() {
    let mut context = ParallelBatchExecutionContext::new(5, parallel_state::<&'static str>(1, TaskFailurePolicy::Continue));
    let token = context.take_pulled(false, Some(())).expect("admitted");
    let (id, index, ()) = token.into_parts();
    context.record_task_outcome(id, index, TaskRunOutcome::Succeeded);
    let state = context.into_state();
    let scheduled: Result<(), SchedulerDown> = Ok(());
    assert_eq!(coordinator_terminal(&state, 1, &scheduled, &Ok(())), CoordinatorTerminal::ReportFailed);
    let error = coordinator_result(state, 1, scheduled, Ok(()), Some(reported()), Duration::from_millis(4))
        .expect_err("exhaustion was never observed");
    assert!(matches!(
        error,
        BatchExecutionError::IncompleteSchedule { expected: 1, accepted: 1, observed: 1, completed: 1, .. }
    ));
}
