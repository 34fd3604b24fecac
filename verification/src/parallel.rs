//! Parallel batch execution: task tokens, the worker-facing admission
//! context, and the coordinator's final decision once every worker joined.
use vstd::prelude::*;

use crate::error::{BatchExecutionError, ProgressFailure};
use qubit_progress::AutoReporterError;
use crate::outcome::BatchOutcome;
use crate::policy::{BatchTermination, TaskFailurePolicy};
use crate::run::{final_outcome_parts, split_terminal_report, TerminalReport};
use crate::state::{
    after_accept, after_try_observe, is_consistent_execution, BatchExecutionState, ExecutionView,
    TaskExecutionStatus, TaskRunOutcome,
};
use crate::sort::has_key;

verus! {

/// A task accepted by a parallel batch execution context, with the unique
/// in-range index the context assigned to it.
pub struct ParallelBatchTask<T> {
    execution_id: u64,
    index: usize,
    task: T,
}

impl<T> ParallelBatchTask<T> {
    /// Identity of the execution context that accepted the task.
    pub closed spec fn spec_execution_id(&self) -> u64 {
        self.execution_id
    }

    /// Index assigned by the context.
    pub closed spec fn spec_index(&self) -> usize {
        self.index
    }

    /// The task payload.
    pub closed spec fn spec_task(&self) -> T {
        self.task
    }

    /// Creates a task token.
    pub(crate) fn new(execution_id: u64, index: usize, task: T) -> (r: Self)
        ensures
            r.spec_execution_id() == execution_id,
            r.spec_index() == index,
            r.spec_task() == task,
    {
        ParallelBatchTask { execution_id, index, task }
    }

    /// Consumes this token and returns the execution identity, the task
    /// index and the payload.
    pub fn into_parts(self) -> (r: (u64, usize, T))
        ensures
            r == (self.spec_execution_id(), self.spec_index(), self.spec_task()),
    {
        (self.execution_id, self.index, self.task)
    }
}

/// The identity handed out from `counter` and the counter afterwards: the
/// current value while it can still be advanced, else nothing.
pub open spec fn next_execution_id_spec(counter: u64) -> (Option<u64>, u64) {
    if counter < u64::MAX {
        (Some(counter), (counter + 1) as u64)
    } else {
        (None, counter)
    }
}

/// Allocates the next execution identity from `counter`: returns the
/// current value and advances the counter, or returns `None` and leaves it
/// unchanged once the `u64` space is exhausted.
pub fn next_execution_id(counter: &mut u64) -> (r: Option<u64>)
    ensures
        (r, *final(counter)) == next_execution_id_spec(*old(counter)),
{
    match counter.checked_add(1) {
        Some(next) => {
            let id = *counter;
            *counter = next;
            Some(id)
        },
        None => None,
    }
}

/// Identities never repeat: the counter never goes back, and an identity
/// handed out is below the counter afterwards, so every identity handed out
/// from that counter on is larger. Starting from a positive counter, every
/// identity is positive.
pub proof fn lemma_execution_ids_unique(counter: u64, later_counter: u64)
    requires
        later_counter >= next_execution_id_spec(counter).1,
    ensures
        next_execution_id_spec(counter).1 >= counter,
        next_execution_id_spec(counter).0 matches Some(id) ==> (id < next_execution_id_spec(counter).1
            && (next_execution_id_spec(later_counter).0 matches Some(later) ==> id < later)),
        counter >= 1 ==> (next_execution_id_spec(counter).0 matches Some(id) ==> id >= 1),
{
}

/// Admission counters of a parallel execution stay ordered: completed
/// tasks were accepted, accepted tasks were observed and within the
/// declared count.
pub open spec fn is_consistent_admission<E>(v: ExecutionView<E>) -> bool {
    &&& is_consistent_execution(v)
    &&& v.acceptance.accepted_count <= v.acceptance.task_count
    &&& v.acceptance.accepted_count <= v.acceptance.observed_count
    &&& v.completed_count <= v.acceptance.accepted_count
}

/// The answer of an admission attempt: refused when the reporter failed,
/// when admission was stopped, or when the observation lies beyond the
/// declared count (that observation is still recorded); otherwise the
/// task is accepted with the index of its observation.
pub open spec fn admission_index<E>(v: ExecutionView<E>, reporter_failed: bool) -> Option<usize> {
    if reporter_failed {
        None
    } else {
        match after_try_observe(v.acceptance).0 {
            None => None,
            Some(observed) => if observed > v.acceptance.task_count {
                None
            } else {
                Some((observed - 1) as usize)
            },
        }
    }
}

/// Admitted tasks get unique in-range indexes: an admitted index is the
/// number of items observed before it and lies below the declared count,
/// and any admission after more observations yields a larger index.
pub proof fn lemma_admission_indexes_unique<E>(
    v: ExecutionView<E>,
    reporter_failed: bool,
    w: ExecutionView<E>,
    later_reporter_failed: bool,
)
    requires
        w.acceptance.task_count == v.acceptance.task_count,
        w.acceptance.observed_count >= v.acceptance.observed_count + 1,
        w.acceptance.observed_count < usize::MAX,
    ensures
        admission_index(v, reporter_failed) matches Some(i) ==> {
            &&& i == v.acceptance.observed_count
            &&& i < v.acceptance.task_count
            &&& admission_index(w, later_reporter_failed) matches Some(j) ==> i < j
        },
{
}

/// A source seen exhausted still gets its count checked before a policy
/// stop is reported: with every accepted task completed and no excess item,
/// an exhausted source that yielded fewer items than declared ends in a
/// shortfall even when the policy stopped admission; and a policy stop
/// before exhaustion ends the run with the outcome, not with a count error.
pub proof fn lemma_exhausted_source_gets_count_check<E>(v: ExecutionView<E>, count: usize)
    requires
        v.completed_count >= v.acceptance.accepted_count,
        v.acceptance.observed_count <= count,
    ensures
        v.source_exhausted && v.acceptance.observed_count < count ==> parallel_finish_of(v, count)
            == ParallelFinish::CountShortfall,
        v.acceptance.stopped && !v.source_exhausted ==> parallel_finish_of(v, count)
            == ParallelFinish::StoppedByPolicy,
{
}

/// The invariant of a parallel execution context whose running tasks
/// (accepted, not yet recorded) have the indexes in `running`: the
/// admission counters are consistent; every running index and every
/// failure index was handed out by an earlier observation within the
/// declared count; no running index has a failure record; and the running
/// tasks are exactly the accepted tasks that have not completed.
pub open spec fn is_valid_context<E>(v: ExecutionView<E>, running: Set<usize>) -> bool {
    &&& is_consistent_admission(v)
    &&& running.finite()
    &&& v.completed_count + running.len() == v.acceptance.accepted_count
    &&& forall|i: usize|
        running.contains(i) ==> i < v.acceptance.observed_count && i < v.acceptance.task_count && !has_key(
            v.failures,
            i,
        )
    &&& forall|j: int| 0 <= j < v.failures.len() ==> v.failures[j].spec_index() < v.acceptance.observed_count
}

/// Whether the next source item may be pulled: not after the source was
/// seen exhausted, after reporting failed, or after the task failure policy
/// stopped admission.
pub open spec fn can_pull_of<E>(v: ExecutionView<E>, reporter_failed: bool) -> bool {
    !(v.source_exhausted || reporter_failed || v.acceptance.stopped)
}

/// Once the source was seen exhausted no item is pulled again: whatever the
/// reporter's state, pulling is refused, and an observation, an admission or
/// an outcome record keeps the exhaustion.
pub proof fn lemma_exhaustion_is_final<E>(v: ExecutionView<E>, reporter_failed: bool, w: ExecutionView<E>)
    requires
        v.source_exhausted,
        w.source_exhausted == v.source_exhausted,
    ensures
        !can_pull_of(v, reporter_failed),
        !can_pull_of(ExecutionView { acceptance: after_try_observe(v.acceptance).1, ..v }, reporter_failed),
        !can_pull_of(ExecutionView { acceptance: after_accept(after_try_observe(v.acceptance).1), ..v }, reporter_failed),
        !can_pull_of(w, reporter_failed),
{
}

/// Worker-facing context for one parallel batch execution: it admits
/// source tasks as uniquely indexed tokens and records their outcomes.
pub struct ParallelBatchExecutionContext<E> {
    execution_id: u64,
    state: BatchExecutionState<E>,
    running: Ghost<Set<usize>>,
}

impl<E> ParallelBatchExecutionContext<E> {
    /// Identity of this context.
    pub closed spec fn spec_execution_id(&self) -> u64 {
        self.execution_id
    }

    /// Accounting of this execution.
    pub closed spec fn spec_state(&self) -> ExecutionView<E> {
        self.state@
    }

    /// Indexes of the accepted tasks whose outcome is not yet recorded.
    pub closed spec fn spec_running(&self) -> Set<usize> {
        self.running@
    }

    /// The context's invariant holds.
    pub open spec fn is_valid(&self) -> bool {
        is_valid_context(self.spec_state(), self.spec_running())
    }

    /// Creates the context of one execution over a state whose accepted
    /// tasks have all completed.
    pub fn new(execution_id: u64, state: BatchExecutionState<E>) -> (r: Self)
        requires
            is_consistent_admission(state@),
            state@.completed_count == state@.acceptance.accepted_count,
            forall|j: int| 0 <= j < state@.failures.len() ==> state@.failures[j].spec_index() < state@.acceptance.observed_count,
        ensures
            r.spec_execution_id() == execution_id,
            r.spec_state() == state@,
            r.spec_running() == Set::<usize>::empty(),
            r.is_valid(),
    {
        ParallelBatchExecutionContext { execution_id, state, running: Ghost(Set::empty()) }
    }

    /// Returns the identity of this context.
    pub fn execution_id(&self) -> (r: u64)
        ensures
            r == self.spec_execution_id(),
    {
        self.execution_id
    }

    /// Returns the accounting state of this execution.
    pub fn state(&self) -> (r: &BatchExecutionState<E>)
        ensures
            r@ == self.spec_state(),
    {
        &self.state
    }

    /// Consumes the context and returns its accounting state.
    pub fn into_state(self) -> (r: BatchExecutionState<E>)
        ensures
            r@ == self.spec_state(),
    {
        self.state
    }

    /// Accepts one source task and assigns it a unique in-range token.
    ///
    /// Tasks are refused after automatic progress reporting failed, after
    /// the task failure policy stopped admission, or once the declared task
    /// count is exceeded; a count-exceeding observation is still recorded.
    /// An accepted index is fresh: no running task and no failure has it.
    pub fn accept_task<T>(&mut self, reporter_failed: bool, task: T) -> (r: Option<ParallelBatchTask<T>>)
        requires
            old(self).is_valid(),
            old(self).spec_state().acceptance.observed_count < usize::MAX,
        ensures
            final(self).is_valid(),
            final(self).spec_execution_id() == old(self).spec_execution_id(),
            match admission_index(old(self).spec_state(), reporter_failed) {
                Some(index) => r matches Some(token) && token.spec_index() == index
                    && token.spec_execution_id() == old(self).spec_execution_id() && token.spec_task() == task
                    && final(self).spec_state() == (ExecutionView {
                    acceptance: after_accept(after_try_observe(old(self).spec_state().acceptance).1),
                    ..old(self).spec_state()
                }) && !old(self).spec_running().contains(index) && !has_key(old(self).spec_state().failures, index)
                    && final(self).spec_running() == old(self).spec_running().insert(index),
                None => r is None && final(self).spec_running() == old(self).spec_running()
                    && final(self).spec_state() == (if reporter_failed {
                    old(self).spec_state()
                } else {
                    ExecutionView {
                        acceptance: after_try_observe(old(self).spec_state().acceptance).1,
                        ..old(self).spec_state()
                    }
                }),
            },
    {
        if reporter_failed {
            return None;
        }
        let observed_count = match self.state.try_record_task_observed() {
            Some(c) => c,
            None => {
                return None;
            },
        };
        if observed_count > self.state.task_count() {
            return None;
        }
        self.state.record_task_accepted();
        let index = observed_count - 1;
        proof {
            let old_running = self.running@;
            assert(!old_running.contains(index));
            self.running = Ghost(old_running.insert(index));
        }
        Some(ParallelBatchTask::new(self.execution_id, index, task))
    }

    /// Returns whether the next source item may be pulled: not after the
    /// source was seen exhausted, after reporting failed, or after the task
    /// failure policy stopped admission.
    pub fn can_pull(&self, reporter_failed: bool) -> (r: bool)
        ensures
            r == can_pull_of(self.spec_state(), reporter_failed),
    {
        !(self.state.source_exhausted() || reporter_failed || self.state.should_stop_accepting())
    }

    /// Admits an item pulled from the source after `can_pull` allowed it:
    /// a present item goes through `accept_task`; an absent one records the
    /// source's exhaustion.
    pub fn take_pulled<T>(&mut self, reporter_failed: bool, pulled: Option<T>) -> (r: Option<ParallelBatchTask<T>>)
        requires
            old(self).is_valid(),
            pulled is Some ==> old(self).spec_state().acceptance.observed_count < usize::MAX,
        ensures
            final(self).is_valid(),
            final(self).spec_execution_id() == old(self).spec_execution_id(),
            pulled is None ==> r is None && final(self).spec_running() == old(self).spec_running()
                && final(self).spec_state() == (ExecutionView { source_exhausted: true, ..old(self).spec_state() }),
            pulled matches Some(task) ==> match admission_index(old(self).spec_state(), reporter_failed) {
                Some(index) => r matches Some(token) && token.spec_index() == index && token.spec_task() == task
                    && token.spec_execution_id() == old(self).spec_execution_id() && final(self).spec_state() == (
                ExecutionView {
                    acceptance: after_accept(after_try_observe(old(self).spec_state().acceptance).1),
                    ..old(self).spec_state()
                }) && !old(self).spec_running().contains(index) && !has_key(old(self).spec_state().failures, index)
                    && final(self).spec_running() == old(self).spec_running().insert(index),
                None => r is None && final(self).spec_running() == old(self).spec_running()
                    && final(self).spec_state() == (if reporter_failed {
                    old(self).spec_state()
                } else {
                    ExecutionView {
                        acceptance: after_try_observe(old(self).spec_state().acceptance).1,
                        ..old(self).spec_state()
                    }
                }),
            },
    {
        match pulled {
            Some(task) => self.accept_task(reporter_failed, task),
            None => {
                self.state.mark_source_exhausted();
                None
            },
        }
    }

    /// Records the outcome of an accepted task that was run: `execution_id`
    /// and `index` are the parts of its token, which is no longer running
    /// afterwards.
    pub fn record_task_outcome(&mut self, execution_id: u64, index: usize, outcome: TaskRunOutcome<E>) -> (r:
        TaskExecutionStatus)
        requires
            old(self).is_valid(),
            execution_id == old(self).spec_execution_id(),
            old(self).spec_running().contains(index),
        ensures
            final(self).is_valid(),
            final(self).spec_execution_id() == old(self).spec_execution_id(),
            final(self).spec_running() == old(self).spec_running().remove(index),
            final(self).spec_state().completed_count == old(self).spec_state().completed_count + 1,
            (r == TaskExecutionStatus::Succeeded) == (outcome is Succeeded),
            final(self).spec_state().task_failure_policy == old(self).spec_state().task_failure_policy,
            final(self).spec_state().source_exhausted == old(self).spec_state().source_exhausted,
            final(self).spec_state().acceptance.task_count == old(self).spec_state().acceptance.task_count,
            final(self).spec_state().acceptance.observed_count == old(self).spec_state().acceptance.observed_count,
            final(self).spec_state().acceptance.accepted_count == old(self).spec_state().acceptance.accepted_count,
            outcome is Succeeded ==> {
                &&& final(self).spec_state().succeeded_count == old(self).spec_state().succeeded_count + 1
                &&& final(self).spec_state().failures == old(self).spec_state().failures
                &&& final(self).spec_state().acceptance.stopped == old(self).spec_state().acceptance.stopped
            },
            !(outcome is Succeeded) ==> {
                &&& final(self).spec_state().succeeded_count == old(self).spec_state().succeeded_count
                &&& final(self).spec_state().failures.drop_last() == old(self).spec_state().failures
                &&& final(self).spec_state().failures.len() == old(self).spec_state().failures.len() + 1
                &&& crate::state::leaves_failure(outcome, index, final(self).spec_state().failures.last())
                &&& final(self).spec_state().acceptance.stopped == (old(self).spec_state().acceptance.stopped
                    || old(self).spec_state().task_failure_policy.spec_should_stop(
                    final(self).spec_state().failures.len() as int,
                ))
            },
    {
        let ghost old_running = self.running@;
        let ghost old_failures = self.state@.failures;
        proof {
            assert(old_running.remove(index).len() + 1 == old_running.len());
        }
        let status = self.state.record_task_outcome(index, outcome);
        proof {
            self.running = Ghost(old_running.remove(index));
            let f = self.state@.failures;
            assert forall|i: usize| self.running@.contains(i) implies !has_key(f, i) by {
                if has_key(f, i) {
                    let j = choose|j: int| 0 <= j < f.len() && f[j].spec_index() == i;
                    if j < old_failures.len() {
                        assert(f[j] == old_failures[j]);
                    }
                }
            }
            assert forall|j: int| 0 <= j < f.len() implies f[j].spec_index() < self.state@.acceptance.observed_count by {
                if j < old_failures.len() {
                    assert(f[j] == old_failures[j]);
                }
            }
        }
        status
    }
}

/// How the coordinator ends a parallel execution once every worker has
/// joined.
#[derive(Debug, Clone, Copy, PartialEq, Eq, Structural)]
pub enum ParallelFinish {
    /// Some accepted task never completed.
    IncompleteSchedule,
    /// The source yielded more tasks than declared.
    CountExceeded,
    /// The task failure policy stopped admission before exhaustion.
    StoppedByPolicy,
    /// The source ended before the declared count.
    CountShortfall,
    /// The scheduler returned without consuming the source to its end.
    MissingExhaustion,
    /// Every declared task ran and at least one failed.
    TaskFailures,
    /// Every declared task ran and succeeded.
    Finished,
}

impl ParallelFinish {
    /// Whether the terminal progress event is the finished one (otherwise
    /// the run reports a failed terminal event).
    pub fn reports_finished(self) -> (r: bool)
        ensures
            r == (self == ParallelFinish::Finished),
    {
        match self {
            ParallelFinish::Finished => true,
            _ => false,
        }
    }
}

/// The end of a parallel execution of `count` declared tasks, checked in
/// this order: unfinished accepted tasks, excess source items, a policy
/// stop before exhaustion, a shortfall of source items, a missing source
/// exhaustion, task failures.
pub open spec fn parallel_finish_of<E>(v: ExecutionView<E>, count: usize) -> ParallelFinish {
    if v.completed_count < v.acceptance.accepted_count {
        ParallelFinish::IncompleteSchedule
    } else if v.acceptance.observed_count > count {
        ParallelFinish::CountExceeded
    } else if v.acceptance.stopped && !v.source_exhausted {
        ParallelFinish::StoppedByPolicy
    } else if v.acceptance.observed_count < count {
        ParallelFinish::CountShortfall
    } else if !v.source_exhausted {
        ParallelFinish::MissingExhaustion
    } else if v.failures.len() > 0 {
        ParallelFinish::TaskFailures
    } else {
        ParallelFinish::Finished
    }
}

/// Says how a parallel execution of `count` declared tasks ends.
pub fn parallel_finish<E>(state: &BatchExecutionState<E>, count: usize) -> (r: ParallelFinish)
    ensures
        r == parallel_finish_of(state@, count),
{
    if state.completed_count() < state.accepted_count() {
        ParallelFinish::IncompleteSchedule
    } else if state.observed_count() > count {
        ParallelFinish::CountExceeded
    } else if state.should_stop_accepting() && !state.source_exhausted() {
        ParallelFinish::StoppedByPolicy
    } else if state.observed_count() < count {
        ParallelFinish::CountShortfall
    } else if !state.source_exhausted() {
        ParallelFinish::MissingExhaustion
    } else if state.failure_count() > 0 {
        ParallelFinish::TaskFailures
    } else {
        ParallelFinish::Finished
    }
}

/// The result a parallel execution of `count` declared tasks ends with,
/// given how the terminal progress report went: unfinished accepted tasks
/// and a missing exhaustion give an incomplete schedule, excess or missing
/// source items give count errors, each carrying a failed terminal report
/// as secondary error; otherwise the outcome, with
/// `StoppedByTaskFailurePolicy` termination after a policy stop, or a
/// progress-report error when the terminal report failed.
pub open spec fn is_parallel_completion<E, S>(
    v: ExecutionView<E>,
    count: usize,
    report: TerminalReport,
    r: Result<BatchOutcome<E>, BatchExecutionError<E, S>>,
) -> bool {
    let kind = parallel_finish_of(v, count);
    let termination = if kind == ParallelFinish::StoppedByPolicy {
        BatchTermination::StoppedByTaskFailurePolicy
    } else {
        BatchTermination::Finished
    };
    let parts = final_outcome_parts(v, report.spec_elapsed(), termination);
    let secondary_ok = |re: Option<Box<ProgressFailure>>| crate::error::spec_unbox(re) == report.spec_failure();
    match kind {
        ParallelFinish::IncompleteSchedule | ParallelFinish::MissingExhaustion => r matches Err(
            BatchExecutionError::IncompleteSchedule {
                expected,
                accepted,
                observed,
                completed,
                outcome,
                report_error,
            },
        ) && expected == count && accepted == v.acceptance.accepted_count && observed
            == v.acceptance.observed_count && completed == v.completed_count && outcome@ == parts
            && secondary_ok(report_error),
        ParallelFinish::CountExceeded => r matches Err(
            BatchExecutionError::CountExceeded { expected, observed_at_least, outcome, report_error },
        ) && expected == count && observed_at_least == v.acceptance.observed_count && outcome@ == parts
            && secondary_ok(report_error),
        ParallelFinish::CountShortfall => r matches Err(
            BatchExecutionError::CountShortfall { expected, actual, outcome, report_error },
        ) && expected == count && actual == v.acceptance.observed_count && outcome@ == parts
            && secondary_ok(report_error),
        _ => match report.spec_failure() {
            None => r matches Ok(o) && o@ == parts,
            Some(f) => r matches Err(BatchExecutionError::ProgressReport { source, outcome })
                && *source == f && outcome@ == parts,
        },
    }
}

/// Completes a parallel execution of `count` declared tasks whose workers
/// all joined, given how the terminal progress report went (the finished
/// event when `parallel_finish` says `Finished`, else the failed event).
///
/// Unfinished accepted tasks, a missing exhaustion, excess or missing
/// source items become batch errors that carry a failed terminal report as
/// secondary error. A policy stop yields the outcome with
/// `StoppedByTaskFailurePolicy` termination, and otherwise the outcome is
/// returned; for both a failed terminal report becomes a progress-report
/// error.
pub fn complete_parallel<E, S>(state: BatchExecutionState<E>, count: usize, report: TerminalReport) -> (r: Result<
    BatchOutcome<E>,
    BatchExecutionError<E, S>,
>)
    requires
        is_consistent_execution(state@),
    ensures
        is_parallel_completion(state@, count, report, r),
{
    let kind = parallel_finish(&state, count);
    let accepted = state.accepted_count();
    let observed = state.observed_count();
    let completed = state.completed_count();
    match kind {
        ParallelFinish::IncompleteSchedule | ParallelFinish::MissingExhaustion => {
            let (elapsed, report_error) = split_terminal_report(report);
            Err(
                BatchExecutionError::IncompleteSchedule {
                    expected: count,
                    accepted,
                    observed,
                    completed,
                    outcome: state.into_outcome(elapsed),
                    report_error,
                },
            )
        },
        ParallelFinish::CountExceeded => {
            let (elapsed, report_error) = split_terminal_report(report);
            Err(
                BatchExecutionError::CountExceeded {
                    expected: count,
                    observed_at_least: observed,
                    outcome: state.into_outcome(elapsed),
                    report_error,
                },
            )
        },
        ParallelFinish::CountShortfall => {
            let (elapsed, report_error) = split_terminal_report(report);
            Err(
                BatchExecutionError::CountShortfall {
                    expected: count,
                    actual: observed,
                    outcome: state.into_outcome(elapsed),
                    report_error,
                },
            )
        },
        _ => {
            let termination = match kind {
                ParallelFinish::StoppedByPolicy => BatchTermination::StoppedByTaskFailurePolicy,
                _ => BatchTermination::Finished,
            };
            match report {
                TerminalReport::Reported { elapsed } => Ok(state.into_outcome_with_termination(elapsed, termination)),
                TerminalReport::Failed { elapsed, failure } => Err(
                    BatchExecutionError::ProgressReport {
                        source: Box::new(failure),
                        outcome: state.into_outcome_with_termination(elapsed, termination),
                    },
                ),
            }
        },
    }
}

/// The error for a scheduler that failed: it carries the scheduler's error,
/// the outcome of the tasks that ran and the failure, if any, of the
/// terminal progress report.
pub fn schedule_failed<E, S>(state: BatchExecutionState<E>, source: S, report: TerminalReport) -> (r:
    BatchExecutionError<E, S>)
    requires
        is_consistent_execution(state@),
    ensures
        r matches BatchExecutionError::ScheduleFailed { source: s, outcome, report_error } && s == source
            && outcome@ == final_outcome_parts(state@, report.spec_elapsed(), BatchTermination::Finished)
            && crate::error::spec_unbox(report_error) == report.spec_failure(),
{
    let (elapsed, report_error) = split_terminal_report(report);
    BatchExecutionError::ScheduleFailed { source, outcome: state.into_outcome(elapsed), report_error }
}

/// The error for an automatic running-progress reporter that failed: it
/// carries the reporter's failure and the outcome of the tasks that ran.
pub fn running_report_failed<E, S>(
    state: BatchExecutionState<E>,
    elapsed: std::time::Duration,
    failure: ProgressFailure,
) -> (r: BatchExecutionError<E, S>)
    requires
        is_consistent_execution(state@),
    ensures
        r matches BatchExecutionError::ProgressReport { source, outcome } && *source == failure && outcome@
            == final_outcome_parts(state@, elapsed, BatchTermination::Finished),
{
    BatchExecutionError::ProgressReport { source: Box::new(failure), outcome: state.into_outcome(elapsed) }
}

/// Which terminal progress event the coordinator delivers once the
/// scheduler returned and the automatic reporter stopped.
#[derive(Debug, Clone, Copy, PartialEq, Eq, Structural)]
pub enum CoordinatorTerminal {
    /// Deliver the failed terminal event.
    ReportFailed,
    /// Deliver the finished terminal event.
    ReportFinished,
    /// Deliver no terminal event: the automatic reporter already failed.
    ReporterFailed,
}

/// The terminal event of a coordinated run: none after the automatic
/// reporter failed; the failed one after a scheduler failure; otherwise the
/// one the end of the execution calls for.
pub open spec fn coordinator_terminal_of<E>(
    v: ExecutionView<E>,
    count: usize,
    schedule_failed: bool,
    reporter_failed: bool,
) -> CoordinatorTerminal {
    if reporter_failed {
        CoordinatorTerminal::ReporterFailed
    } else if schedule_failed || parallel_finish_of(v, count) != ParallelFinish::Finished {
        CoordinatorTerminal::ReportFailed
    } else {
        CoordinatorTerminal::ReportFinished
    }
}

/// Says which terminal progress event a coordinated run of `count`
/// declared tasks delivers, given what the scheduler and the stopped
/// automatic reporter returned.
pub fn coordinator_terminal<E, S>(
    state: &BatchExecutionState<E>,
    count: usize,
    scheduled: &Result<(), S>,
    stopped: &Result<(), AutoReporterError>,
) -> (r: CoordinatorTerminal)
    ensures
        r == coordinator_terminal_of(state@, count, scheduled is Err, stopped is Err),
{
    if stopped.is_err() {
        CoordinatorTerminal::ReporterFailed
    } else if scheduled.is_err() || !parallel_finish(state, count).reports_finished() {
        CoordinatorTerminal::ReportFailed
    } else {
        CoordinatorTerminal::ReportFinished
    }
}

/// The result of a coordinated run: the scheduler's error comes first,
/// carrying the reporter's failure (a failed automatic reporter, or else a
/// failed terminal report) as secondary error; then a failed automatic
/// reporter; then the end of the execution as `complete_parallel` decides
/// it. `report` is the delivered terminal report, absent when the automatic
/// reporter failed; `elapsed` is the run's duration in that case.
pub open spec fn is_coordinated_result<E, S>(
    v: ExecutionView<E>,
    count: usize,
    scheduled: Result<(), S>,
    stopped: Result<(), AutoReporterError>,
    report: Option<TerminalReport>,
    elapsed: std::time::Duration,
    r: Result<BatchOutcome<E>, BatchExecutionError<E, S>>,
) -> bool {
    let finished = BatchTermination::Finished;
    match (scheduled, stopped) {
        (Err(s), Ok(())) => report matches Some(rep) && r matches Err(
            BatchExecutionError::ScheduleFailed { source, outcome, report_error },
        ) && source == s && outcome@ == final_outcome_parts(v, rep.spec_elapsed(), finished)
            && crate::error::spec_unbox(report_error) == rep.spec_failure(),
        (Err(s), Err(e)) => r matches Err(BatchExecutionError::ScheduleFailed { source, outcome, report_error })
            && source == s && outcome@ == final_outcome_parts(v, elapsed, finished) && crate::error::spec_unbox(
            report_error,
        ) == Some(ProgressFailure::AutoReporter(e)),
        (Ok(()), Err(e)) => r matches Err(BatchExecutionError::ProgressReport { source, outcome }) && *source
            == ProgressFailure::AutoReporter(e) && outcome@ == final_outcome_parts(v, elapsed, finished),
        (Ok(()), Ok(())) => report matches Some(rep) && is_parallel_completion(v, count, rep, r),
    }
}

/// Ends a coordinated run of `count` declared tasks once the scheduler
/// returned `scheduled` and the automatic reporter stopped with `stopped`.
/// `report` is the terminal report delivered as `coordinator_terminal`
/// said, or `None` when it said `ReporterFailed`.
pub fn coordinator_result<E, S>(
    state: BatchExecutionState<E>,
    count: usize,
    scheduled: Result<(), S>,
    stopped: Result<(), AutoReporterError>,
    report: Option<TerminalReport>,
    elapsed: std::time::Duration,
) -> (r: Result<BatchOutcome<E>, BatchExecutionError<E, S>>)
    requires
        is_consistent_execution(state@),
        (report is None) == (coordinator_terminal_of(state@, count, scheduled is Err, stopped is Err)
            == CoordinatorTerminal::ReporterFailed),
    ensures
        is_coordinated_result(state@, count, scheduled, stopped, report, elapsed, r),
{
    match scheduled {
        Err(source) => {
            let report = match stopped {
                Ok(()) => match report {
                    Some(rep) => rep,
                    None => vstd::pervasive::unreached(),
                },
                Err(error) => TerminalReport::Failed { elapsed, failure: ProgressFailure::AutoReporter(error) },
            };
            Err(schedule_failed(state, source, report))
        },
        Ok(()) => match stopped {
            Err(error) => Err(running_report_failed(state, elapsed, ProgressFailure::AutoReporter(error))),
            Ok(()) => match report {
                Some(rep) => complete_parallel(state, count, rep),
                None => vstd::pervasive::unreached(),
            },
        },
    }
}

/// Starts the accounting of a parallel execution of `count` declared tasks
/// under `task_failure_policy`.
pub fn parallel_state<E>(count: usize, task_failure_policy: TaskFailurePolicy) -> (r: BatchExecutionState<E>)
    ensures
        is_consistent_admission(r@),
        r@.acceptance.task_count == count,
        r@.acceptance.observed_count == 0,
        r@.acceptance.accepted_count == 0,
        !r@.acceptance.stopped,
        !r@.source_exhausted,
        r@.completed_count == 0,
        r@.failures.len() == 0,
        r@.task_failure_policy == task_failure_policy,
{
    BatchExecutionState::new(count, task_failure_policy)
}

/// Lifecycle driver for parallel executors whose scheduler reports only the
/// number of source items it observed.
pub struct ParallelBatchExecution;

/// How such a run ends, checked in this order: a shortfall of source items,
/// excess source items, task failures.
pub open spec fn execution_finish_of<E>(v: ExecutionView<E>, count: usize, observed_count: usize) -> ParallelFinish {
    if observed_count < count {
        ParallelFinish::CountShortfall
    } else if observed_count > count {
        ParallelFinish::CountExceeded
    } else if v.failures.len() > 0 {
        ParallelFinish::TaskFailures
    } else {
        ParallelFinish::Finished
    }
}

/// The result a run whose scheduler observed `observed_count` source items
/// ends with, given how the terminal progress report went: a count mismatch
/// gives a count error carrying a failed terminal report as secondary
/// error; otherwise the outcome, or a progress-report error when the
/// terminal report failed.
pub open spec fn is_execution_completion<E>(
    v: ExecutionView<E>,
    count: usize,
    observed_count: usize,
    report: TerminalReport,
    r: Result<BatchOutcome<E>, BatchExecutionError<E>>,
) -> bool {
    let parts = final_outcome_parts(v, report.spec_elapsed(), BatchTermination::Finished);
    match execution_finish_of(v, count, observed_count) {
        ParallelFinish::CountShortfall => r matches Err(
            BatchExecutionError::CountShortfall { expected, actual, outcome, report_error },
        ) && expected == count && actual == observed_count && outcome@ == parts
            && crate::error::spec_unbox(report_error) == report.spec_failure(),
        ParallelFinish::CountExceeded => r matches Err(
            BatchExecutionError::CountExceeded { expected, observed_at_least, outcome, report_error },
        ) && expected == count && observed_at_least == observed_count && outcome@ == parts
            && crate::error::spec_unbox(report_error) == report.spec_failure(),
        _ => match report.spec_failure() {
            None => r matches Ok(o) && o@ == parts,
            Some(f) => r matches Err(BatchExecutionError::ProgressReport { source, outcome })
                && *source == f && outcome@ == parts,
        },
    }
}

/// How a run whose scheduler observed `observed_count` items ends, over
/// every state: fewer items than declared is a shortfall, any item beyond
/// the declared count is an excess, and a run with the declared count ends
/// with task failures exactly when some task failed.
pub proof fn lemma_execution_finish_rules<E>(v: ExecutionView<E>, count: usize, observed_count: usize)
    ensures
        observed_count < count ==> execution_finish_of(v, count, observed_count) == ParallelFinish::CountShortfall,
        observed_count > count ==> execution_finish_of(v, count, observed_count) == ParallelFinish::CountExceeded,
        observed_count == count ==> (execution_finish_of(v, count, observed_count) == ParallelFinish::Finished
            <==> v.failures.len() == 0),
        observed_count == count && v.failures.len() > 0 ==> execution_finish_of(v, count, observed_count)
            == ParallelFinish::TaskFailures,
{
}

/// What such a run returns, over every state and terminal report: any
/// observed count above the declared count is a count-exceeded error and
/// any count below it a shortfall, each naming both counts; an outcome is
/// returned only for the declared count and a delivered terminal report,
/// and its termination is `Finished`.
pub proof fn lemma_execution_completion_rules<E>(
    v: ExecutionView<E>,
    count: usize,
    observed_count: usize,
    report: TerminalReport,
    r: Result<BatchOutcome<E>, BatchExecutionError<E>>,
)
    requires
        is_execution_completion(v, count, observed_count, report, r),
    ensures
        observed_count > count ==> (r matches Err(BatchExecutionError::CountExceeded { expected, observed_at_least, .. })
            && expected == count && observed_at_least == observed_count),
        observed_count < count ==> (r matches Err(BatchExecutionError::CountShortfall { expected, actual, .. })
            && expected == count && actual == observed_count),
        r is Ok ==> observed_count == count && report.spec_failure() is None,
        r matches Ok(o) ==> o@.termination == BatchTermination::Finished,
{
    lemma_execution_finish_rules(v, count, observed_count);
}

/// What a parallel run whose workers all joined returns, over every state
/// and terminal report: an outcome carries the policy-stop termination
/// exactly when the task failure policy stopped admission before the source
/// was exhausted, so never unless admission was stopped; an outcome is
/// returned only when every accepted task completed, no excess item was
/// observed and the terminal report was delivered; an exhausted source
/// that yielded fewer items than declared is a shortfall.
pub proof fn lemma_parallel_completion_rules<E, S>(
    v: ExecutionView<E>,
    count: usize,
    report: TerminalReport,
    r: Result<BatchOutcome<E>, BatchExecutionError<E, S>>,
)
    requires
        is_parallel_completion(v, count, report, r),
    ensures
        r matches Ok(o) ==> ((o@.termination == BatchTermination::StoppedByTaskFailurePolicy) <==> (
        v.acceptance.stopped && !v.source_exhausted)),
        r matches Ok(o) ==> (o@.termination == BatchTermination::StoppedByTaskFailurePolicy ==> v.acceptance.stopped),
        r is Ok ==> v.completed_count >= v.acceptance.accepted_count && v.acceptance.observed_count <= count
            && report.spec_failure() is None,
        v.completed_count >= v.acceptance.accepted_count && v.acceptance.observed_count <= count
            && v.source_exhausted && v.acceptance.observed_count < count ==> (r matches Err(
            BatchExecutionError::CountShortfall { expected, actual, .. },
        ) && expected == count && actual == v.acceptance.observed_count),
        v.completed_count >= v.acceptance.accepted_count && v.acceptance.observed_count > count ==> (r matches Err(
            BatchExecutionError::CountExceeded { expected, observed_at_least, .. },
        ) && expected == count && observed_at_least == v.acceptance.observed_count),
{
}

impl ParallelBatchExecution {
    /// Builds the empty outcome of a batch of `count` declared tasks whose
    /// progress run could not start.
    pub fn empty_outcome<E>(count: usize) -> (r: BatchOutcome<E>)
        ensures
            crate::run::is_empty_outcome_of(r@, count),
    {
        crate::run::empty_outcome(count)
    }

    /// Says how a run of `count` declared tasks ends after the scheduler
    /// observed `observed_count` source items.
    pub fn finish_kind<E>(state: &BatchExecutionState<E>, count: usize, observed_count: usize) -> (r: ParallelFinish)
        ensures
            r == execution_finish_of(state@, count, observed_count),
    {
        if observed_count < count {
            ParallelFinish::CountShortfall
        } else if observed_count > count {
            ParallelFinish::CountExceeded
        } else if state.failure_count() > 0 {
            ParallelFinish::TaskFailures
        } else {
            ParallelFinish::Finished
        }
    }

    /// Completes the run given how the terminal progress report went (the
    /// finished event when `finish_kind` says `Finished`, else the failed
    /// event): a count mismatch becomes a count error carrying a failed
    /// report as secondary error; otherwise the outcome is returned, or a
    /// progress-report error when the terminal report failed.
    pub fn finish<E>(state: BatchExecutionState<E>, count: usize, observed_count: usize, report: TerminalReport) -> (r:
        Result<BatchOutcome<E>, BatchExecutionError<E>>)
        requires
            is_consistent_execution(state@),
        ensures
            is_execution_completion(state@, count, observed_count, report, r),
    {
        let kind = Self::finish_kind(&state, count, observed_count);
        match kind {
            ParallelFinish::CountShortfall => {
                let (elapsed, report_error) = split_terminal_report(report);
                Err(
                    BatchExecutionError::CountShortfall {
                        expected: count,
                        actual: observed_count,
                        outcome: state.into_outcome(elapsed),
                        report_error,
                    },
                )
            },
            ParallelFinish::CountExceeded => {
                let (elapsed, report_error) = split_terminal_report(report);
                Err(
                    BatchExecutionError::CountExceeded {
                        expected: count,
                        observed_at_least: observed_count,
                        outcome: state.into_outcome(elapsed),
                        report_error,
                    },
                )
            },
            _ => match report {
                TerminalReport::Reported { elapsed } => Ok(state.into_outcome(elapsed)),
                TerminalReport::Failed { elapsed, failure } => Err(
                    BatchExecutionError::ProgressReport { source: Box::new(failure), outcome: state.into_outcome(elapsed) },
                ),
            },
        }
    }
}

} // verus!
