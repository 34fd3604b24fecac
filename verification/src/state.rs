//! Admission counters and task accounting of one batch run.
use std::time::Duration;
use vstd::prelude::*;

use crate::outcome::{
    count_failed, count_failed_records, is_valid_outcome, outcome_build_error, BatchOutcome,
    BatchOutcomeBuildError, BatchOutcomeBuilder, OutcomeParts,
};
use crate::policy::{BatchTermination, TaskFailurePolicy};
use crate::sort::{has_distinct_keys, has_key, sorted_by_index, IndexedRecord};
use crate::task::{BatchTaskError, BatchTaskFailure};

verus! {

/// The counters of source admission, as the contracts speak of them.
pub ghost struct AcceptanceView {
    /// Declared task count.
    pub task_count: usize,
    /// Source tasks observed so far.
    pub observed_count: usize,
    /// Source tasks accepted for execution so far.
    pub accepted_count: usize,
    /// Whether admission has been stopped.
    pub stopped: bool,
}

/// The admission counters after one more observed task.
pub open spec fn after_observe(v: AcceptanceView) -> AcceptanceView {
    AcceptanceView { observed_count: (v.observed_count + 1) as usize, ..v }
}

/// The answer and counters of an observation attempt: refused and unchanged
/// once admission stopped, else one more observed task.
pub open spec fn after_try_observe(v: AcceptanceView) -> (Option<usize>, AcceptanceView) {
    if v.stopped {
        (None, v)
    } else {
        (Some((v.observed_count + 1) as usize), after_observe(v))
    }
}

/// The admission counters after one more accepted task.
pub open spec fn after_accept(v: AcceptanceView) -> AcceptanceView {
    AcceptanceView { accepted_count: (v.accepted_count + 1) as usize, ..v }
}

/// The admission counters after admission is stopped.
pub open spec fn after_stop(v: AcceptanceView) -> AcceptanceView {
    AcceptanceView { stopped: true, ..v }
}

/// Source-admission state: how many tasks were observed and accepted, and
/// whether the task failure policy has stopped admission.
pub struct ParallelBatchAcceptanceState {
    task_count: usize,
    observed_count: usize,
    accepted_count: usize,
    stop_accepting: bool,
}

impl View for ParallelBatchAcceptanceState {
    type V = AcceptanceView;

    closed spec fn view(&self) -> AcceptanceView {
        AcceptanceView {
            task_count: self.task_count,
            observed_count: self.observed_count,
            accepted_count: self.accepted_count,
            stopped: self.stop_accepting,
        }
    }
}

impl ParallelBatchAcceptanceState {
    /// Creates empty admission state for one declared task count.
    pub fn new(task_count: usize) -> (r: Self)
        ensures
            r@ == (AcceptanceView { task_count, observed_count: 0, accepted_count: 0, stopped: false }),
    {
        ParallelBatchAcceptanceState { task_count, observed_count: 0, accepted_count: 0, stop_accepting: false }
    }

    /// Returns the declared task count.
    pub fn task_count(&self) -> (r: usize)
        ensures
            r == self@.task_count,
    {
        self.task_count
    }

    /// Returns the observed task count.
    pub fn observed_count(&self) -> (r: usize)
        ensures
            r == self@.observed_count,
    {
        self.observed_count
    }

    /// Returns the accepted task count.
    pub fn accepted_count(&self) -> (r: usize)
        ensures
            r == self@.accepted_count,
    {
        self.accepted_count
    }

    /// Returns whether source admission has stopped.
    pub fn should_stop(&self) -> (r: bool)
        ensures
            r == self@.stopped,
    {
        self.stop_accepting
    }

    /// Records one observed source task and returns the new total.
    pub fn record_observed(&mut self) -> (r: usize)
        requires
            old(self)@.observed_count < usize::MAX,
        ensures
            final(self)@ == after_observe(old(self)@),
            r == old(self)@.observed_count + 1,
    {
        self.observed_count = self.observed_count + 1;
        self.observed_count
    }

    /// Records an observation unless admission has already stopped; returns
    /// the new observed total, or `None` (and changes nothing) once stopped.
    pub fn try_record_observed(&mut self) -> (r: Option<usize>)
        requires
            !old(self)@.stopped ==> old(self)@.observed_count < usize::MAX,
        ensures
            (r, final(self)@) == after_try_observe(old(self)@),
    {
        if self.should_stop() {
            None
        } else {
            Some(self.record_observed())
        }
    }

    /// Records one accepted source task and returns the new total.
    pub fn record_accepted(&mut self) -> (r: usize)
        requires
            old(self)@.accepted_count < usize::MAX,
        ensures
            final(self)@ == after_accept(old(self)@),
            r == old(self)@.accepted_count + 1,
    {
        self.accepted_count = self.accepted_count + 1;
        self.accepted_count
    }

    /// Marks source admission as stopped.
    pub fn stop(&mut self)
        ensures
            final(self)@ == after_stop(old(self)@),
    {
        self.stop_accepting = true;
    }
}

/// A failure-policy stop is observable and never reopens admission: once
/// stopped, an observation attempt is refused and changes nothing, and no
/// admission step clears the stop; each observation or acceptance counts
/// exactly one task.
pub proof fn lemma_stop_is_permanent(v: AcceptanceView)
    ensures
        v.stopped ==> after_try_observe(v).0 is None && after_try_observe(v).1 == v,
        v.stopped ==> after_observe(v).stopped && after_accept(v).stopped && after_stop(v).stopped,
        after_stop(v).stopped,
        !v.stopped ==> after_try_observe(v).0 == Some(after_observe(v).observed_count),
        after_observe(v).observed_count == v.observed_count + 1 || v.observed_count == usize::MAX,
        after_accept(v).accepted_count == v.accepted_count + 1 || v.accepted_count == usize::MAX,
        after_observe(v).accepted_count == v.accepted_count,
        after_accept(v).observed_count == v.observed_count,
{
}

/// Terminal outcome status for one executable task.
#[derive(Debug, Clone, Copy, PartialEq, Eq, Structural)]
pub enum TaskExecutionStatus {
    /// Task reached success.
    Succeeded,
    /// Task failed or panicked.
    Failed,
}

/// What running one task produced, as observed by the caller that ran it.
#[derive(Debug)]
pub enum TaskRunOutcome<E> {
    /// The task returned successfully.
    Succeeded,
    /// The task returned its own error.
    Failed(E),
    /// The task panicked; `message` holds the panic text when the payload
    /// was a string.
    Panicked {
        /// Captured panic message.
        message: Option<String>,
    },
}

/// The failure records, with their order, that a run of tasks leaves, as
/// the contracts speak of them.
pub ghost struct ExecutionView<E> {
    /// Admission counters.
    pub acceptance: AcceptanceView,
    /// Tasks that reached a terminal outcome.
    pub completed_count: usize,
    /// Tasks that completed successfully.
    pub succeeded_count: usize,
    /// Failure records in the order the failures were recorded.
    pub failures: Seq<BatchTaskFailure<E>>,
    /// Policy that stops admission after task failures.
    pub task_failure_policy: TaskFailurePolicy,
    /// Whether the task source was observed to be exhausted.
    pub source_exhausted: bool,
}

/// Shared state collected while a batch executor is running: admission
/// counters, completion counters and the failure records.
pub struct BatchExecutionState<E> {
    acceptance: ParallelBatchAcceptanceState,
    completed_count: usize,
    succeeded_count: usize,
    failures: Vec<BatchTaskFailure<E>>,
    task_failure_policy: TaskFailurePolicy,
    source_exhausted: bool,
}

impl<E> View for BatchExecutionState<E> {
    type V = ExecutionView<E>;

    closed spec fn view(&self) -> ExecutionView<E> {
        ExecutionView {
            acceptance: self.acceptance@,
            completed_count: self.completed_count,
            succeeded_count: self.succeeded_count,
            failures: self.failures@,
            task_failure_policy: self.task_failure_policy,
            source_exhausted: self.source_exhausted,
        }
    }
}

/// The execution state is consistent: every completed task is counted once
/// as a success or as one failure record, no more tasks completed than were
/// declared, every failure index lies in the declared range, and no two
/// failure records share an index.
pub open spec fn is_consistent_execution<E>(v: ExecutionView<E>) -> bool {
    &&& v.completed_count == v.succeeded_count + v.failures.len()
    &&& v.completed_count <= v.acceptance.task_count
    &&& forall|j: int| 0 <= j < v.failures.len() ==> v.failures[j].spec_index() < v.acceptance.task_count
    &&& has_distinct_keys(v.failures)
}

/// The counters and failure records of the outcome a consistent state
/// produces, before the failure records are sorted.
pub open spec fn outcome_parts_of<E>(
    v: ExecutionView<E>,
    elapsed: Duration,
    termination: BatchTermination,
) -> OutcomeParts<E> {
    OutcomeParts {
        task_count: v.acceptance.task_count,
        completed_count: v.completed_count,
        succeeded_count: v.succeeded_count,
        failed_count: count_failed(v.failures) as usize,
        panicked_count: (v.failures.len() - count_failed(v.failures)) as usize,
        termination,
        elapsed,
        failures: v.failures,
    }
}

/// The failure record a task outcome leaves at `index`, if any.
pub open spec fn leaves_failure<E>(outcome: TaskRunOutcome<E>, index: usize, record: BatchTaskFailure<E>) -> bool {
    &&& record.spec_index() == index
    &&& match outcome {
        TaskRunOutcome::Succeeded => false,
        TaskRunOutcome::Failed(e) => record.spec_error() == BatchTaskError::<E>::Failed(e),
        TaskRunOutcome::Panicked { message } => record.spec_error() == (BatchTaskError::<E>::Panicked {
            message,
        }),
    }
}

/// A consistent execution state always yields a valid outcome: validation
/// cannot fail on the counters and failure records it collected.
pub proof fn lemma_consistent_state_builds<E>(
    v: ExecutionView<E>,
    elapsed: Duration,
    termination: BatchTermination,
)
    requires
        is_consistent_execution(v),
    ensures
        outcome_build_error(outcome_parts_of(v, elapsed, termination)) is None,
{
    let p = outcome_parts_of(v, elapsed, termination);
    lemma_count_failed_bounded(v.failures);
    crate::outcome::lemma_distinct_in_range_is_good(p.failures, p.task_count);
}

proof fn lemma_count_failed_bounded<E>(s: Seq<BatchTaskFailure<E>>)
    ensures
        count_failed(s) <= s.len(),
    decreases s.len(),
{
    if s.len() > 0 {
        lemma_count_failed_bounded(s.drop_last());
    }
}

impl<E> BatchExecutionState<E> {
    /// Creates empty execution state for a declared task count.
    pub fn new(task_count: usize, task_failure_policy: TaskFailurePolicy) -> (r: Self)
        ensures
            r@ == (ExecutionView::<E> {
                acceptance: AcceptanceView {
                    task_count,
                    observed_count: 0,
                    accepted_count: 0,
                    stopped: false,
                },
                completed_count: 0,
                succeeded_count: 0,
                failures: Seq::empty(),
                task_failure_policy,
                source_exhausted: false,
            }),
            is_consistent_execution(r@),
    {
        BatchExecutionState {
            acceptance: ParallelBatchAcceptanceState::new(task_count),
            completed_count: 0,
            succeeded_count: 0,
            failures: Vec::new(),
            task_failure_policy,
            source_exhausted: false,
        }
    }

    /// Returns the declared task count.
    pub fn task_count(&self) -> (r: usize)
        ensures
            r == self@.acceptance.task_count,
    {
        self.acceptance.task_count()
    }

    /// Returns the number of source tasks observed.
    pub fn observed_count(&self) -> (r: usize)
        ensures
            r == self@.acceptance.observed_count,
    {
        self.acceptance.observed_count()
    }

    /// Returns the number of source tasks accepted for execution.
    pub fn accepted_count(&self) -> (r: usize)
        ensures
            r == self@.acceptance.accepted_count,
    {
        self.acceptance.accepted_count()
    }

    /// Returns the number of tasks that reached a terminal outcome.
    pub fn completed_count(&self) -> (r: usize)
        ensures
            r == self@.completed_count,
    {
        self.completed_count
    }

    /// Returns the number of task errors and captured task panics.
    pub fn failure_count(&self) -> (r: usize)
        ensures
            r == self@.failures.len(),
    {
        self.failures.len()
    }

    /// Returns whether the failure policy has stopped accepting new tasks.
    pub fn should_stop_accepting(&self) -> (r: bool)
        ensures
            r == self@.acceptance.stopped,
    {
        self.acceptance.should_stop()
    }

    /// Returns whether the task failure policy is reached by the failures
    /// recorded so far.
    pub fn task_failure_policy_stops(&self) -> (r: bool)
        ensures
            r == self@.task_failure_policy.spec_should_stop(self@.failures.len() as int),
    {
        self.task_failure_policy.should_stop(self.failures.len())
    }

    /// Returns whether the source was observed to be exhausted.
    pub fn source_exhausted(&self) -> (r: bool)
        ensures
            r == self@.source_exhausted,
    {
        self.source_exhausted
    }

    /// Records one observed task and returns the new observed count.
    pub fn record_task_observed(&mut self) -> (r: usize)
        requires
            old(self)@.acceptance.observed_count < usize::MAX,
        ensures
            r == old(self)@.acceptance.observed_count + 1,
            final(self)@ == (ExecutionView { acceptance: after_observe(old(self)@.acceptance), ..old(self)@ }),
    {
        self.acceptance.record_observed()
    }

    /// Records one observed task unless admission was stopped; returns the
    /// new observed count, or `None` (changing nothing) once stopped.
    pub fn try_record_task_observed(&mut self) -> (r: Option<usize>)
        requires
            !old(self)@.acceptance.stopped ==> old(self)@.acceptance.observed_count < usize::MAX,
        ensures
            r == after_try_observe(old(self)@.acceptance).0,
            final(self)@ == (ExecutionView { acceptance: after_try_observe(old(self)@.acceptance).1, ..old(self)@ }),
    {
        self.acceptance.try_record_observed()
    }

    /// Records one task accepted for execution and returns the new count.
    pub fn record_task_accepted(&mut self) -> (r: usize)
        requires
            old(self)@.acceptance.accepted_count < usize::MAX,
        ensures
            r == old(self)@.acceptance.accepted_count + 1,
            final(self)@ == (ExecutionView { acceptance: after_accept(old(self)@.acceptance), ..old(self)@ }),
    {
        self.acceptance.record_accepted()
    }

    /// Marks the task source as exhausted.
    pub fn mark_source_exhausted(&mut self)
        ensures
            final(self)@ == (ExecutionView { source_exhausted: true, ..old(self)@ }),
    {
        self.source_exhausted = true;
    }

    /// Records the terminal outcome of the task at `index`: a success is
    /// counted; an error or panic is counted and kept as a failure record,
    /// and stops admission when the task failure policy is reached.
    pub fn record_task_outcome(&mut self, index: usize, outcome: TaskRunOutcome<E>) -> (r: TaskExecutionStatus)
        requires
            is_consistent_execution(old(self)@),
            index < old(self)@.acceptance.task_count,
            old(self)@.completed_count < old(self)@.acceptance.task_count,
            !(outcome is Succeeded) ==> !has_key(old(self)@.failures, index),
        ensures
            is_consistent_execution(final(self)@),
            final(self)@.completed_count == old(self)@.completed_count + 1,
            final(self)@.task_failure_policy == old(self)@.task_failure_policy,
            final(self)@.source_exhausted == old(self)@.source_exhausted,
            final(self)@.acceptance.task_count == old(self)@.acceptance.task_count,
            final(self)@.acceptance.observed_count == old(self)@.acceptance.observed_count,
            final(self)@.acceptance.accepted_count == old(self)@.acceptance.accepted_count,
            outcome is Succeeded ==> {
                &&& r == TaskExecutionStatus::Succeeded
                &&& final(self)@.succeeded_count == old(self)@.succeeded_count + 1
                &&& final(self)@.failures == old(self)@.failures
                &&& final(self)@.acceptance.stopped == old(self)@.acceptance.stopped
            },
            !(outcome is Succeeded) ==> {
                &&& r == TaskExecutionStatus::Failed
                &&& final(self)@.succeeded_count == old(self)@.succeeded_count
                &&& final(self)@.failures.drop_last() == old(self)@.failures
                &&& final(self)@.failures.len() == old(self)@.failures.len() + 1
                &&& leaves_failure(outcome, index, final(self)@.failures.last())
                &&& final(self)@.acceptance.stopped == (old(self)@.acceptance.stopped
                    || old(self)@.task_failure_policy.spec_should_stop(final(self)@.failures.len() as int))
            },
    {
        self.completed_count = self.completed_count + 1;
        let status = match outcome {
            TaskRunOutcome::Succeeded => {
                self.succeeded_count = self.succeeded_count + 1;
                TaskExecutionStatus::Succeeded
            },
            TaskRunOutcome::Failed(error) => {
                self.failures.push(BatchTaskFailure::new(index, BatchTaskError::Failed(error)));
                TaskExecutionStatus::Failed
            },
            TaskRunOutcome::Panicked { message } => {
                self.failures.push(BatchTaskFailure::new(index, BatchTaskError::Panicked { message }));
                TaskExecutionStatus::Failed
            },
        };
        if let TaskExecutionStatus::Failed = status {
            if self.task_failure_policy.should_stop(self.failures.len()) {
                self.acceptance.stop();
            }
        }
        proof {
            if !(outcome is Succeeded) {
                assert(self.failures@.drop_last() == old(self)@.failures);
                assert forall|i: int, j: int| 0 <= i < j < self.failures@.len() implies self.failures@[i].key()
                    != self.failures@[j].key() by {
                    if j < old(self)@.failures.len() {
                        assert(self.failures@[i] == old(self)@.failures[i]);
                        assert(self.failures@[j] == old(self)@.failures[j]);
                    } else {
                        assert(self.failures@[i] == old(self)@.failures[i]);
                    }
                }
            }
        }
        status
    }

    /// Consumes this state, applies `termination`, and validates the
    /// outcome. A consistent state always validates.
    pub fn try_into_outcome_with_termination(self, elapsed: Duration, termination: BatchTermination) -> (r: Result<
        BatchOutcome<E>,
        BatchOutcomeBuildError,
    >)
        ensures
            match r {
                Ok(o) => {
                    &&& outcome_build_error(outcome_parts_of(self@, elapsed, termination)) is None
                    &&& o@ == (OutcomeParts {
                        failures: sorted_by_index(self@.failures),
                        ..outcome_parts_of(self@, elapsed, termination)
                    })
                    &&& is_valid_outcome(o@)
                },
                Err(e) => outcome_build_error(outcome_parts_of(self@, elapsed, termination)) == Some(e),
            },
            is_consistent_execution(self@) ==> r is Ok,
    {
        let ghost v = self@;
        let failed_count = count_failed_records(self.failures.as_slice());
        let panicked_count = self.failures.len() - failed_count;
        let task_count = self.acceptance.task_count();
        let r = BatchOutcomeBuilder::builder(task_count).completed_count(self.completed_count).succeeded_count(
            self.succeeded_count,
        ).failed_count(failed_count).panicked_count(panicked_count).termination(termination).elapsed(
            elapsed,
        ).failures(self.failures).build();
        proof {
            if is_consistent_execution(v) {
                lemma_consistent_state_builds(v, elapsed, termination);
            }
        }
        r
    }

    /// Consumes this state and validates its outcome with `Finished`
    /// termination.
    pub fn try_into_outcome(self, elapsed: Duration) -> (r: Result<BatchOutcome<E>, BatchOutcomeBuildError>)
        ensures
            match r {
                Ok(o) => o@ == (OutcomeParts {
                    failures: sorted_by_index(self@.failures),
                    ..outcome_parts_of(self@, elapsed, BatchTermination::Finished)
                }) && is_valid_outcome(o@),
                Err(e) => outcome_build_error(outcome_parts_of(self@, elapsed, BatchTermination::Finished))
                    == Some(e),
            },
            is_consistent_execution(self@) ==> r is Ok,
    {
        self.try_into_outcome_with_termination(elapsed, BatchTermination::Finished)
    }

    /// Consumes a consistent state and builds its outcome with
    /// `termination`.
    pub fn into_outcome_with_termination(self, elapsed: Duration, termination: BatchTermination) -> (r: BatchOutcome<E>)
        requires
            is_consistent_execution(self@),
        ensures
            r@ == (OutcomeParts {
                failures: sorted_by_index(self@.failures),
                ..outcome_parts_of(self@, elapsed, termination)
            }),
            is_valid_outcome(r@),
    {
        match self.try_into_outcome_with_termination(elapsed, termination) {
            Ok(o) => o,
            Err(_) => vstd::pervasive::unreached(),
        }
    }

    /// Consumes a consistent state and builds its outcome with `Finished`
    /// termination.
    pub fn into_outcome(self, elapsed: Duration) -> (r: BatchOutcome<E>)
        requires
            is_consistent_execution(self@),
        ensures
            r@ == (OutcomeParts {
                failures: sorted_by_index(self@.failures),
                ..outcome_parts_of(self@, elapsed, BatchTermination::Finished)
            }),
            is_valid_outcome(r@),
    {
        self.into_outcome_with_termination(elapsed, BatchTermination::Finished)
    }
}

} // verus!
