//! The sequential batch run as a state machine: the caller pulls items,
//! runs each task and reports progress; this machine decides task indexes,
//! count errors, policy stops and the final result.
use std::time::Duration;
use vstd::prelude::*;

use crate::error::{BatchExecutionError, ProgressFailure};
use crate::outcome::{is_valid_outcome, seconds, BatchOutcome, BatchOutcomeBuilder, OutcomeParts};
use crate::policy::{BatchTermination, TaskFailurePolicy};
use crate::sort::sorted_by_index;
use crate::state::{
    is_consistent_execution, outcome_parts_of, BatchExecutionState, ExecutionView, TaskRunOutcome,
};

verus! {

/// How a terminal progress report went.
#[derive(Debug)]
pub enum TerminalReport {
    /// The terminal event was delivered; `elapsed` is the run's duration.
    Reported {
        /// Elapsed time of the run.
        elapsed: Duration,
    },
    /// Delivering the terminal event failed.
    Failed {
        /// Elapsed time of the run.
        elapsed: Duration,
        /// The reporter's failure.
        failure: ProgressFailure,
    },
}

impl TerminalReport {
    /// The elapsed time carried by this report.
    pub open spec fn spec_elapsed(self) -> Duration {
        match self {
            TerminalReport::Reported { elapsed } => elapsed,
            TerminalReport::Failed { elapsed, .. } => elapsed,
        }
    }

    /// The reporter failure carried by this report, if any.
    pub open spec fn spec_failure(self) -> Option<ProgressFailure> {
        match self {
            TerminalReport::Reported { .. } => None,
            TerminalReport::Failed { failure, .. } => Some(failure),
        }
    }
}

/// Splits a terminal report into its elapsed time and optional boxed
/// failure.
pub fn split_terminal_report(report: TerminalReport) -> (r: (Duration, Option<Box<ProgressFailure>>))
    ensures
        r.0 == report.spec_elapsed(),
        match report.spec_failure() {
            Some(f) => r.1 matches Some(b) && *b == f,
            None => r.1 is None,
        },
{
    match report {
        TerminalReport::Reported { elapsed } => (elapsed, None),
        TerminalReport::Failed { elapsed, failure } => (elapsed, Some(Box::new(failure))),
    }
}

/// The outcome a consistent execution state yields for `elapsed` and
/// `termination`.
pub open spec fn final_outcome_parts<E>(
    v: ExecutionView<E>,
    elapsed: Duration,
    termination: BatchTermination,
) -> OutcomeParts<E> {
    OutcomeParts { failures: sorted_by_index(v.failures), ..outcome_parts_of(v, elapsed, termination) }
}

/// The outcome of a batch whose progress run could not start: the declared
/// count, nothing completed, zero elapsed time.
pub open spec fn is_empty_outcome_of<E>(o: OutcomeParts<E>, count: usize) -> bool {
    &&& o.task_count == count
    &&& o.completed_count == 0
    &&& o.succeeded_count == 0
    &&& o.failed_count == 0
    &&& o.panicked_count == 0
    &&& o.termination == BatchTermination::Finished
    &&& o.elapsed == seconds(0)
    &&& o.failures.len() == 0
    &&& is_valid_outcome(o)
}

/// Builds the empty outcome of a batch of `count` declared tasks that did
/// not run.
pub fn empty_outcome<E>(count: usize) -> (r: BatchOutcome<E>)
    ensures
        is_empty_outcome_of(r@, count),
{
    let b = BatchOutcomeBuilder::<E>::builder(count);
    proof {
        assert(!exists|k: int| crate::outcome::first_bad_failure_at(b@.failures, b@.task_count, k));
        assert(b@.failures.len() == 0);
        assert(sorted_by_index(b@.failures) == b@.failures);
    }
    match b.build() {
        Ok(o) => o,
        Err(_) => vstd::pervasive::unreached(),
    }
}

/// The error returned when the progress run of a batch of `count` tasks
/// could not start: a progress-report error carrying `failure` and the
/// empty outcome.
pub fn progress_start_failed<E, S>(count: usize, failure: ProgressFailure) -> (r: BatchExecutionError<E, S>)
    ensures
        r matches BatchExecutionError::ProgressReport { source, outcome } && *source == failure
            && is_empty_outcome_of(outcome@, count),
{
    BatchExecutionError::ProgressReport { source: Box::new(failure), outcome: empty_outcome(count) }
}

/// What the caller must do with the next observed source item.
#[derive(Debug, Clone, Copy, PartialEq, Eq, Structural)]
pub enum SequentialStep {
    /// Run the item as the task at `index`, then record its outcome.
    Run {
        /// Zero-based task index.
        index: usize,
    },
    /// The source yielded more items than declared: stop and report the
    /// count error.
    CountExceeded,
}

/// How a sequential run ends once the source is no longer consumed.
#[derive(Debug, Clone, Copy, PartialEq, Eq, Structural)]
pub enum SequentialEnd {
    /// The task failure policy stopped the run.
    StoppedByPolicy,
    /// The source ended before the declared count.
    CountShortfall,
    /// Every declared task ran and at least one failed.
    TaskFailures,
    /// Every declared task ran and succeeded.
    Finished,
}

impl SequentialEnd {
    /// Whether the terminal progress event is the finished one (otherwise
    /// the run reports a failed terminal event).
    pub open spec fn spec_reports_finished(self) -> bool {
        self == SequentialEnd::Finished
    }

    /// Returns whether the caller must report the finished terminal event
    /// rather than the failed one.
    pub fn reports_finished(self) -> (r: bool)
        ensures
            r == self.spec_reports_finished(),
    {
        match self {
            SequentialEnd::Finished => true,
            _ => false,
        }
    }
}

/// The counters of a sequential run, as the contracts speak of them.
pub ghost struct SequentialRunView<E> {
    /// Task accounting.
    pub state: ExecutionView<E>,
    /// Declared task count.
    pub count: usize,
    /// Items observed from the source.
    pub actual_count: usize,
    /// Whether the task failure policy stopped the run.
    pub stopped: bool,
}

/// The run is consistent: its accounting is consistent, it observed at most
/// one item beyond the declared count, every observed item but possibly the
/// last one has completed, a stop happened only at the policy's limit, and
/// every failure belongs to a completed task.
pub open spec fn is_consistent_run<E>(v: SequentialRunView<E>) -> bool {
    &&& is_consistent_execution(v.state)
    &&& v.state.acceptance.task_count == v.count
    &&& v.state.acceptance.observed_count == v.actual_count
    &&& v.actual_count <= v.count + 1
    &&& v.state.completed_count <= v.actual_count <= v.state.completed_count + 1
    &&& v.stopped ==> v.state.task_failure_policy.spec_should_stop(v.state.failures.len() as int)
    &&& forall|j: int| 0 <= j < v.state.failures.len() ==> v.state.failures[j].spec_index() < v.state.completed_count
}

/// The run is between tasks: every observed item has completed.
pub open spec fn is_idle_run<E>(v: SequentialRunView<E>) -> bool {
    v.state.completed_count == v.actual_count
}

/// How a run ends: a policy stop wins, then a shortfall of source items,
/// then the presence of task failures.
pub open spec fn sequential_end_of<E>(v: SequentialRunView<E>) -> SequentialEnd {
    if v.stopped {
        SequentialEnd::StoppedByPolicy
    } else if v.actual_count < v.count {
        SequentialEnd::CountShortfall
    } else if v.state.failures.len() > 0 {
        SequentialEnd::TaskFailures
    } else {
        SequentialEnd::Finished
    }
}

/// The result a sequential run ends with, given how the terminal progress
/// report went: a shortfall of source items gives a count error carrying a
/// failed terminal report as secondary error; otherwise the outcome, with
/// `StoppedByTaskFailurePolicy` termination after a policy stop, or a
/// progress-report error when the terminal report failed.
pub open spec fn is_sequential_completion<E>(
    v: SequentialRunView<E>,
    report: TerminalReport,
    r: Result<BatchOutcome<E>, BatchExecutionError<E>>,
) -> bool {
    let termination = if v.stopped {
        BatchTermination::StoppedByTaskFailurePolicy
    } else {
        BatchTermination::Finished
    };
    let parts = final_outcome_parts(v.state, report.spec_elapsed(), termination);
    if sequential_end_of(v) == SequentialEnd::CountShortfall {
        r matches Err(BatchExecutionError::CountShortfall { expected, actual, outcome, report_error })
            && expected == v.count && actual == v.actual_count && outcome@ == parts
            && crate::error::spec_unbox(report_error) == report.spec_failure()
    } else {
        match report.spec_failure() {
            None => r matches Ok(o) && o@ == parts,
            Some(f) => r matches Err(BatchExecutionError::ProgressReport { source, outcome })
                && *source == f && outcome@ == parts,
        }
    }
}

/// How a sequential run ends, over every run: a policy stop wins; a run the
/// policy did not stop whose source ended short ends in a count shortfall
/// whatever its tasks returned; a full run ends with task failures exactly
/// when some task failed.
pub proof fn lemma_sequential_end_rules<E>(v: SequentialRunView<E>)
    ensures
        v.stopped ==> sequential_end_of(v) == SequentialEnd::StoppedByPolicy,
        !v.stopped && v.actual_count < v.count ==> sequential_end_of(v) == SequentialEnd::CountShortfall,
        !v.stopped && v.actual_count >= v.count ==> (sequential_end_of(v) == SequentialEnd::TaskFailures
            <==> v.state.failures.len() > 0),
        sequential_end_of(v) == SequentialEnd::Finished <==> (!v.stopped && v.actual_count >= v.count
            && v.state.failures.len() == 0),
{
}

/// What a completed sequential run returns, over every run and terminal
/// report: a short source the policy did not stop is a count shortfall
/// naming the declared and observed counts, whatever the tasks returned;
/// an outcome is returned only when the terminal report was delivered and
/// the source was not short, and it carries the policy-stop termination
/// exactly when the policy stopped the run, with the run's counts.
pub proof fn lemma_sequential_completion_rules<E>(
    v: SequentialRunView<E>,
    report: TerminalReport,
    r: Result<BatchOutcome<E>, BatchExecutionError<E>>,
)
    requires
        is_sequential_completion(v, report, r),
    ensures
        !v.stopped && v.actual_count < v.count ==> (r matches Err(
            BatchExecutionError::CountShortfall { expected, actual, .. },
        ) && expected == v.count && actual == v.actual_count),
        r is Ok ==> report.spec_failure() is None && (v.stopped || v.actual_count >= v.count),
        r matches Ok(o) ==> ((o@.termination == BatchTermination::StoppedByTaskFailurePolicy) <==> v.stopped),
        r matches Ok(o) ==> o@.task_count == v.state.acceptance.task_count && o@.completed_count
            == v.state.completed_count && o@.succeeded_count == v.state.succeeded_count,
{
    lemma_sequential_end_rules(v);
}

/// Sequential execution of one batch on the caller thread.
pub struct SequentialBatchRun<E> {
    state: BatchExecutionState<E>,
    count: usize,
    actual_count: usize,
    stopped: bool,
}

impl<E> View for SequentialBatchRun<E> {
    type V = SequentialRunView<E>;

    closed spec fn view(&self) -> SequentialRunView<E> {
        SequentialRunView {
            state: self.state@,
            count: self.count,
            actual_count: self.actual_count,
            stopped: self.stopped,
        }
    }
}

impl<E> SequentialBatchRun<E> {
    /// Starts a run of `count` declared tasks under `task_failure_policy`.
    pub fn new(count: usize, task_failure_policy: TaskFailurePolicy) -> (r: Self)
        ensures
            is_consistent_run(r@),
            is_idle_run(r@),
            r@.count == count,
            r@.actual_count == 0,
            !r@.stopped,
            r@.state.failures.len() == 0,
            r@.state.completed_count == 0,
            r@.state.task_failure_policy == task_failure_policy,
    {
        SequentialBatchRun {
            state: BatchExecutionState::new(count, task_failure_policy),
            count,
            actual_count: 0,
            stopped: false,
        }
    }

    /// Returns the number of items observed from the source.
    pub fn observed_count(&self) -> (r: usize)
        ensures
            r == self@.actual_count,
    {
        self.actual_count
    }

    /// Returns whether the task failure policy has stopped the run.
    pub fn is_stopped(&self) -> (r: bool)
        ensures
            r == self@.stopped,
    {
        self.stopped
    }

    /// Records one item pulled from the source and says what to do with it:
    /// run it as the next task, or report that the source yielded more
    /// items than declared.
    pub fn observe_item(&mut self) -> (r: SequentialStep)
        requires
            is_consistent_run(old(self)@),
            is_idle_run(old(self)@),
            !old(self)@.stopped,
            old(self)@.actual_count <= old(self)@.count,
            old(self)@.actual_count < usize::MAX,
        ensures
            is_consistent_run(final(self)@),
            final(self)@.actual_count == old(self)@.actual_count + 1,
            final(self)@.state.completed_count == old(self)@.state.completed_count,
            final(self)@.state.failures == old(self)@.state.failures,
            final(self)@.state.succeeded_count == old(self)@.state.succeeded_count,
            final(self)@.state.task_failure_policy == old(self)@.state.task_failure_policy,
            final(self)@.count == old(self)@.count,
            !final(self)@.stopped,
            final(self)@.actual_count > final(self)@.count ==> r == SequentialStep::CountExceeded,
            final(self)@.actual_count <= final(self)@.count ==> r == (SequentialStep::Run {
                index: old(self)@.actual_count,
            }),
    {
        self.actual_count = self.state.record_task_observed();
        if self.actual_count > self.count {
            SequentialStep::CountExceeded
        } else {
            SequentialStep::Run { index: self.actual_count - 1 }
        }
    }

    /// Records the outcome of the task run for the last observed item and
    /// returns whether the task failure policy now stops the run.
    pub fn record_outcome(&mut self, outcome: TaskRunOutcome<E>) -> (r: bool)
        requires
            is_consistent_run(old(self)@),
            !is_idle_run(old(self)@),
            old(self)@.actual_count <= old(self)@.count,
        ensures
            is_consistent_run(final(self)@),
            is_idle_run(final(self)@),
            final(self)@.count == old(self)@.count,
            final(self)@.actual_count == old(self)@.actual_count,
            final(self)@.state.task_failure_policy == old(self)@.state.task_failure_policy,
            outcome is Succeeded ==> final(self)@.state.failures == old(self)@.state.failures
                && final(self)@.state.succeeded_count == old(self)@.state.succeeded_count + 1,
            !(outcome is Succeeded) ==> final(self)@.state.failures.drop_last() == old(self)@.state.failures
                && final(self)@.state.failures.len() == old(self)@.state.failures.len() + 1
                && crate::state::leaves_failure(
                outcome,
                (old(self)@.actual_count - 1) as usize,
                final(self)@.state.failures.last(),
            ) && final(self)@.state.succeeded_count == old(self)@.state.succeeded_count,
            r == final(self)@.stopped,
            r == old(self)@.state.task_failure_policy.spec_should_stop(final(self)@.state.failures.len() as int),
    {
        let index = self.actual_count - 1;
        proof {
            assert forall|j: int| 0 <= j < self.state@.failures.len() implies self.state@.failures[j].spec_index()
                != index by {}
        }
        self.state.record_task_outcome(index, outcome);
        let stop = self.state.task_failure_policy_stops();
        self.stopped = stop;
        stop
    }

    /// Says how the run ends, once the source is exhausted or the policy
    /// stopped it.
    pub fn end(&self) -> (r: SequentialEnd)
        ensures
            r == sequential_end_of(self@),
    {
        if self.stopped {
            SequentialEnd::StoppedByPolicy
        } else if self.actual_count < self.count {
            SequentialEnd::CountShortfall
        } else if self.state.failure_count() > 0 {
            SequentialEnd::TaskFailures
        } else {
            SequentialEnd::Finished
        }
    }

    /// The error for a source that yielded more items than declared,
    /// carrying the outcome of the tasks that ran and the failure, if any,
    /// of the failed terminal progress report.
    pub fn fail_count_exceeded(self, report: TerminalReport) -> (r: BatchExecutionError<E>)
        requires
            is_consistent_run(self@),
        ensures
            r matches BatchExecutionError::CountExceeded { expected, observed_at_least, outcome, report_error } && expected
                == self@.count && observed_at_least == self@.actual_count && outcome@ == final_outcome_parts(
                self@.state,
                report.spec_elapsed(),
                BatchTermination::Finished,
            ) && crate::error::spec_unbox(report_error) == report.spec_failure(),
    {
        let (elapsed, report_error) = split_terminal_report(report);
        let expected = self.count;
        let observed_at_least = self.actual_count;
        let outcome = self.state.into_outcome(elapsed);
        BatchExecutionError::CountExceeded { expected, observed_at_least, outcome, report_error }
    }

    /// The error for a failed running-progress report between tasks,
    /// carrying the outcome of the tasks that ran.
    pub fn fail_progress_report(self, elapsed: Duration, failure: ProgressFailure) -> (r: BatchExecutionError<E>)
        requires
            is_consistent_run(self@),
            is_idle_run(self@),
        ensures
            r matches BatchExecutionError::ProgressReport { source, outcome } && *source == failure
                && outcome@ == final_outcome_parts(self@.state, elapsed, BatchTermination::Finished),
    {
        BatchExecutionError::ProgressReport { source: Box::new(failure), outcome: self.state.into_outcome(elapsed) }
    }

    /// Completes the run once the source is no longer consumed, given how
    /// the terminal progress report went (the finished event when `end`
    /// says `Finished`, else the failed event).
    ///
    /// A policy stop yields the outcome with `StoppedByTaskFailurePolicy`
    /// termination; a shortfall yields a count error; otherwise the run
    /// yields its outcome. A failed terminal report turns the outcome into a
    /// progress-report error, and is attached as secondary error to a
    /// shortfall.
    pub fn complete(self, report: TerminalReport) -> (r: Result<BatchOutcome<E>, BatchExecutionError<E>>)
        requires
            is_consistent_run(self@),
            is_idle_run(self@),
            self@.actual_count <= self@.count,
        ensures
            is_sequential_completion(self@, report, r),
    {
        let end = self.end();
        let termination = if self.stopped {
            BatchTermination::StoppedByTaskFailurePolicy
        } else {
            BatchTermination::Finished
        };
        let count = self.count;
        let actual = self.actual_count;
        match end {
            SequentialEnd::CountShortfall => {
                let (elapsed, report_error) = split_terminal_report(report);
                Err(
                    BatchExecutionError::CountShortfall {
                        expected: count,
                        actual,
                        outcome: self.state.into_outcome_with_termination(elapsed, termination),
                        report_error,
                    },
                )
            },
            _ => match report {
                TerminalReport::Reported { elapsed } => Ok(
                    self.state.into_outcome_with_termination(elapsed, termination),
                ),
                TerminalReport::Failed { elapsed, failure } => Err(
                    BatchExecutionError::ProgressReport {
                        source: Box::new(failure),
                        outcome: self.state.into_outcome_with_termination(elapsed, termination),
                    },
                ),
            },
        }
    }
}

} // verus!
