//! Callable results with one value slot per task, progress counters, and
//! the accounting of a parallel run whose workers share counters.
use std::time::Duration;
use vstd::prelude::*;

use crate::error::BatchExecutionError;
use crate::outcome::{outcome_build_error, BatchOutcome, BatchOutcomeBuilder, OutcomeParts};
use crate::policy::BatchTermination;
use crate::run::SequentialStep;
use crate::sort::sorted_by_index;
use crate::task::{BatchTaskError, BatchTaskFailure};

verus! {

/// Result of a callable batch with one optional value per declared task:
/// `Some` for callables that succeeded.
#[derive(Debug, Clone, PartialEq, Eq)]
pub struct BatchCallResult<R, E> {
    outcome: BatchOutcome<E>,
    values: Vec<Option<R>>,
}

impl<R, E> BatchCallResult<R, E> {
    /// The execution outcome.
    pub closed spec fn spec_outcome(&self) -> BatchOutcome<E> {
        self.outcome
    }

    /// The value slots.
    pub closed spec fn spec_values(&self) -> Seq<Option<R>> {
        self.values@
    }

    /// Creates a callable batch result.
    pub fn new(outcome: BatchOutcome<E>, values: Vec<Option<R>>) -> (r: Self)
        ensures
            r.spec_outcome() == outcome,
            r.spec_values() == values@,
    {
        BatchCallResult { outcome, values }
    }

    /// Returns the execution outcome.
    pub fn outcome(&self) -> (r: &BatchOutcome<E>)
        ensures
            *r == self.spec_outcome(),
    {
        &self.outcome
    }

    /// Returns the value slots, indexed by callable position.
    pub fn values(&self) -> (r: &[Option<R>])
        ensures
            r@ == self.spec_values(),
    {
        self.values.as_slice()
    }

    /// Consumes this result and returns the execution outcome.
    pub fn into_outcome(self) -> (r: BatchOutcome<E>)
        ensures
            r == self.spec_outcome(),
    {
        self.outcome
    }

    /// Consumes this result and returns the value slots.
    pub fn into_values(self) -> (r: Vec<Option<R>>)
        ensures
            r@ == self.spec_values(),
    {
        self.values
    }

    /// Consumes this result and returns both parts.
    pub fn into_parts(self) -> (r: (BatchOutcome<E>, Vec<Option<R>>))
        ensures
            r.0 == self.spec_outcome(),
            r.1@ == self.spec_values(),
    {
        (self.outcome, self.values)
    }
}

/// Counters handed to a progress reporter.
#[derive(Debug, Clone, Copy, PartialEq, Eq, Structural)]
pub struct ProgressCounters {
    /// Declared total, when known.
    pub total_count: Option<usize>,
    /// Tasks currently running.
    pub active_count: usize,
    /// Tasks that reached a terminal outcome.
    pub completed_count: usize,
    /// Tasks that completed successfully.
    pub succeeded_count: usize,
    /// Tasks that failed or panicked.
    pub failed_count: usize,
}

/// The progress counters of a finished outcome: its declared total, no
/// active task, its completed, successful and failed-or-panicked counts.
pub fn outcome_progress_counters<E>(outcome: &BatchOutcome<E>) -> (r: ProgressCounters)
    requires
        outcome@.failed_count + outcome@.panicked_count <= usize::MAX,
    ensures
        r == (ProgressCounters {
            total_count: Some(outcome@.task_count),
            active_count: 0,
            completed_count: outcome@.completed_count,
            succeeded_count: outcome@.succeeded_count,
            failed_count: (outcome@.failed_count + outcome@.panicked_count) as usize,
        }),
{
    ProgressCounters {
        total_count: Some(outcome.task_count()),
        active_count: 0,
        completed_count: outcome.completed_count(),
        succeeded_count: outcome.succeeded_count(),
        failed_count: outcome.failure_count(),
    }
}

/// The running counters of a parallel run, as the contracts speak of them.
pub ghost struct ProgressStateView {
    /// Tasks currently running.
    pub active_count: usize,
    /// Tasks that reached a terminal outcome.
    pub completed_count: usize,
    /// Tasks that completed successfully.
    pub succeeded_count: usize,
    /// Tasks that returned their own error.
    pub failed_count: usize,
    /// Tasks that panicked.
    pub panicked_count: usize,
}

/// Running counters of a parallel run, advanced as workers start and finish
/// tasks. Like the shared counters they stand for, they wrap around instead
/// of overflowing.
pub struct ParallelBatchProgressState {
    active_count: usize,
    completed_count: usize,
    succeeded_count: usize,
    failed_count: usize,
    panicked_count: usize,
}

impl View for ParallelBatchProgressState {
    type V = ProgressStateView;

    closed spec fn view(&self) -> ProgressStateView {
        ProgressStateView {
            active_count: self.active_count,
            completed_count: self.completed_count,
            succeeded_count: self.succeeded_count,
            failed_count: self.failed_count,
            panicked_count: self.panicked_count,
        }
    }
}

/// `x + 1`, wrapping at the end of the `usize` range.
pub open spec fn wrapping_inc(x: usize) -> usize {
    if x == usize::MAX {
        0
    } else {
        (x + 1) as usize
    }
}

/// `x - 1`, wrapping at zero.
pub open spec fn wrapping_dec(x: usize) -> usize {
    if x == 0 {
        usize::MAX
    } else {
        (x - 1) as usize
    }
}

fn inc(x: usize) -> (r: usize)
    ensures
        r == wrapping_inc(x),
{
    if x == usize::MAX {
        0
    } else {
        x + 1
    }
}

fn dec(x: usize) -> (r: usize)
    ensures
        r == wrapping_dec(x),
{
    if x == 0 {
        usize::MAX
    } else {
        x - 1
    }
}

impl ParallelBatchProgressState {
    /// Creates zeroed counters.
    pub fn new() -> (r: Self)
        ensures
            r@ == (ProgressStateView {
                active_count: 0,
                completed_count: 0,
                succeeded_count: 0,
                failed_count: 0,
                panicked_count: 0,
            }),
    {
        ParallelBatchProgressState {
            active_count: 0,
            completed_count: 0,
            succeeded_count: 0,
            failed_count: 0,
            panicked_count: 0,
        }
    }

    /// Returns the number of tasks that reached a terminal outcome.
    pub fn completed_count(&self) -> (r: usize)
        ensures
            r == self@.completed_count,
    {
        self.completed_count
    }

    /// Returns the counters to report for `total_count` declared tasks;
    /// errors and panics are reported together as failures.
    pub fn progress_counters(&self, total_count: usize) -> (r: ProgressCounters)
        requires
            self@.failed_count + self@.panicked_count <= usize::MAX,
        ensures
            r == (ProgressCounters {
                total_count: Some(total_count),
                active_count: self@.active_count,
                completed_count: self@.completed_count,
                succeeded_count: self@.succeeded_count,
                failed_count: (self@.failed_count + self@.panicked_count) as usize,
            }),
    {
        ProgressCounters {
            total_count: Some(total_count),
            active_count: self.active_count,
            completed_count: self.completed_count,
            succeeded_count: self.succeeded_count,
            failed_count: self.failed_count + self.panicked_count,
        }
    }

    /// Records that one task started.
    pub fn record_task_started(&mut self)
        ensures
            final(self)@ == (ProgressStateView { active_count: wrapping_inc(old(self)@.active_count), ..old(self)@ }),
    {
        self.active_count = inc(self.active_count);
    }

    /// Records that one running task succeeded.
    pub fn record_task_succeeded(&mut self)
        ensures
            final(self)@ == (ProgressStateView {
                active_count: wrapping_dec(old(self)@.active_count),
                completed_count: wrapping_inc(old(self)@.completed_count),
                succeeded_count: wrapping_inc(old(self)@.succeeded_count),
                ..old(self)@
            }),
    {
        self.active_count = dec(self.active_count);
        self.completed_count = inc(self.completed_count);
        self.succeeded_count = inc(self.succeeded_count);
    }

    /// Records that one running task returned its own error.
    pub fn record_task_failed(&mut self)
        ensures
            final(self)@ == (ProgressStateView {
                active_count: wrapping_dec(old(self)@.active_count),
                completed_count: wrapping_inc(old(self)@.completed_count),
                failed_count: wrapping_inc(old(self)@.failed_count),
                ..old(self)@
            }),
    {
        self.active_count = dec(self.active_count);
        self.completed_count = inc(self.completed_count);
        self.failed_count = inc(self.failed_count);
    }

    /// Records that one running task panicked.
    pub fn record_task_panicked(&mut self)
        ensures
            final(self)@ == (ProgressStateView {
                active_count: wrapping_dec(old(self)@.active_count),
                completed_count: wrapping_inc(old(self)@.completed_count),
                panicked_count: wrapping_inc(old(self)@.panicked_count),
                ..old(self)@
            }),
    {
        self.active_count = dec(self.active_count);
        self.completed_count = inc(self.completed_count);
        self.panicked_count = inc(self.panicked_count);
    }
}

/// The outcome counts of a parallel run, as the contracts speak of them.
pub ghost struct ResultStateView<E> {
    /// Tasks that completed successfully.
    pub succeeded_count: usize,
    /// Tasks that returned their own error.
    pub failed_count: usize,
    /// Tasks that panicked.
    pub panicked_count: usize,
    /// Failure records in the order they were recorded.
    pub failures: Seq<BatchTaskFailure<E>>,
}

/// Outcome counts and failure records of a parallel run.
pub struct ParallelBatchResultState<E> {
    succeeded_count: usize,
    failed_count: usize,
    panicked_count: usize,
    failures: Vec<BatchTaskFailure<E>>,
}

impl<E> View for ParallelBatchResultState<E> {
    type V = ResultStateView<E>;

    closed spec fn view(&self) -> ResultStateView<E> {
        ResultStateView {
            succeeded_count: self.succeeded_count,
            failed_count: self.failed_count,
            panicked_count: self.panicked_count,
            failures: self.failures@,
        }
    }
}

/// The outcome parts a result state yields for `task_count` declared tasks,
/// `completed_count` completions and `elapsed`.
pub open spec fn result_state_parts<E>(
    v: ResultStateView<E>,
    task_count: usize,
    completed_count: usize,
    elapsed: Duration,
) -> OutcomeParts<E> {
    OutcomeParts {
        task_count,
        completed_count,
        succeeded_count: v.succeeded_count,
        failed_count: v.failed_count,
        panicked_count: v.panicked_count,
        termination: BatchTermination::Finished,
        elapsed,
        failures: v.failures,
    }
}

impl<E> ParallelBatchResultState<E> {
    /// Creates empty outcome counts.
    pub fn new() -> (r: Self)
        ensures
            r@ == (ResultStateView::<E> {
                succeeded_count: 0,
                failed_count: 0,
                panicked_count: 0,
                failures: Seq::empty(),
            }),
    {
        ParallelBatchResultState { succeeded_count: 0, failed_count: 0, panicked_count: 0, failures: Vec::new() }
    }

    /// Records one successful task.
    pub fn record_task_succeeded(&mut self)
        requires
            old(self)@.succeeded_count < usize::MAX,
        ensures
            final(self)@ == (ResultStateView {
                succeeded_count: (old(self)@.succeeded_count + 1) as usize,
                ..old(self)@
            }),
    {
        self.succeeded_count = self.succeeded_count + 1;
    }

    /// Records one task error for the task at `index`.
    pub fn record_task_failed(&mut self, index: usize, error: E)
        requires
            old(self)@.failed_count < usize::MAX,
        ensures
            final(self)@.succeeded_count == old(self)@.succeeded_count,
            final(self)@.failed_count == old(self)@.failed_count + 1,
            final(self)@.panicked_count == old(self)@.panicked_count,
            final(self)@.failures.drop_last() == old(self)@.failures,
            final(self)@.failures.len() == old(self)@.failures.len() + 1,
            final(self)@.failures.last().spec_index() == index,
            final(self)@.failures.last().spec_error() == BatchTaskError::<E>::Failed(error),
    {
        self.failed_count = self.failed_count + 1;
        self.failures.push(BatchTaskFailure::new(index, BatchTaskError::Failed(error)));
        proof {
            assert(self.failures@.drop_last() == old(self)@.failures);
        }
    }

    /// Records one task panic for the task at `index`.
    pub fn record_task_panicked(&mut self, index: usize, error: BatchTaskError<E>)
        requires
            old(self)@.panicked_count < usize::MAX,
        ensures
            final(self)@.succeeded_count == old(self)@.succeeded_count,
            final(self)@.failed_count == old(self)@.failed_count,
            final(self)@.panicked_count == old(self)@.panicked_count + 1,
            final(self)@.failures.drop_last() == old(self)@.failures,
            final(self)@.failures.len() == old(self)@.failures.len() + 1,
            final(self)@.failures.last().spec_index() == index,
            final(self)@.failures.last().spec_error() == error,
    {
        self.panicked_count = self.panicked_count + 1;
        self.failures.push(BatchTaskFailure::new(index, error));
        proof {
            assert(self.failures@.drop_last() == old(self)@.failures);
        }
    }

    /// Builds the outcome of `task_count` declared tasks with
    /// `completed_count` completions; the counters must pass validation.
    pub fn into_outcome(self, task_count: usize, completed_count: usize, elapsed: Duration) -> (r: BatchOutcome<E>)
        requires
            outcome_build_error(result_state_parts(self@, task_count, completed_count, elapsed)) is None,
        ensures
            r@ == (OutcomeParts {
                failures: sorted_by_index(self@.failures),
                ..result_state_parts(self@, task_count, completed_count, elapsed)
            }),
    {
        let built = BatchOutcomeBuilder::builder(task_count).completed_count(completed_count).succeeded_count(
            self.succeeded_count,
        ).failed_count(self.failed_count).panicked_count(self.panicked_count).elapsed(elapsed).failures(
            self.failures,
        ).build();
        match built {
            Ok(o) => o,
            Err(_) => vstd::pervasive::unreached(),
        }
    }
}

/// Admission of one more source item by a run that stops reading at the
/// first item beyond `count`: the item runs as the task at `actual_count`,
/// or is the first excess item; either way the observed count grows by one.
pub fn admit_counted_item(actual_count: usize, count: usize) -> (r: (SequentialStep, usize))
    requires
        actual_count <= count,
        actual_count < usize::MAX,
    ensures
        r.1 == actual_count + 1,
        actual_count == count ==> r.0 == SequentialStep::CountExceeded,
        actual_count < count ==> r.0 == (SequentialStep::Run { index: actual_count }),
{
    if actual_count == count {
        (SequentialStep::CountExceeded, actual_count + 1)
    } else {
        (SequentialStep::Run { index: actual_count }, actual_count + 1)
    }
}

/// Checks the observed item count of a finished run against the declared
/// count: the outcome when they match, else the count error that carries
/// it.
pub fn check_observed_count<E>(count: usize, actual_count: usize, outcome: BatchOutcome<E>) -> (r: Result<
    BatchOutcome<E>,
    BatchExecutionError<E>,
>)
    ensures
        actual_count == count ==> r == Ok::<BatchOutcome<E>, BatchExecutionError<E>>(outcome),
        actual_count < count ==> r == Err::<BatchOutcome<E>, BatchExecutionError<E>>(
            BatchExecutionError::CountShortfall { expected: count, actual: actual_count, outcome, report_error: None },
        ),
        actual_count > count ==> r == Err::<BatchOutcome<E>, BatchExecutionError<E>>(
            BatchExecutionError::CountExceeded {
                expected: count,
                observed_at_least: actual_count,
                outcome,
                report_error: None,
            },
        ),
{
    if actual_count < count {
        Err(BatchExecutionError::CountShortfall { expected: count, actual: actual_count, outcome, report_error: None })
    } else if actual_count > count {
        Err(
            BatchExecutionError::CountExceeded {
                expected: count,
                observed_at_least: actual_count,
                outcome,
                report_error: None,
            },
        )
    } else {
        Ok(outcome)
    }
}

} // verus!
