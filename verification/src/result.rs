//! Batch results in their counter-only form, and the sequential run that
//! produces them: the run stops reading at the first item beyond the
//! declared count.
use std::time::Duration;
use vstd::prelude::*;

use crate::outcome::count_failed;
use crate::run::SequentialStep;
use crate::state::{leaves_failure, TaskRunOutcome};
use crate::task::{BatchTaskError, BatchTaskFailure};

verus! {

/// The parts of a batch execution result, as the contracts speak of them.
pub ghost struct ResultParts<E> {
    /// Declared task count.
    pub task_count: usize,
    /// Tasks that reached a terminal outcome.
    pub completed_count: usize,
    /// Tasks that completed successfully.
    pub succeeded_count: usize,
    /// Tasks that returned their own error.
    pub failed_count: usize,
    /// Tasks that panicked.
    pub panicked_count: usize,
    /// Elapsed wall-clock time.
    pub elapsed: Duration,
    /// Failure records in the order they were found.
    pub failures: Seq<BatchTaskFailure<E>>,
}

/// Structured result produced by one batch execution: counters, elapsed
/// time and failure records.
#[derive(Debug)]
pub struct BatchExecutionResult<E> {
    task_count: usize,
    completed_count: usize,
    succeeded_count: usize,
    failed_count: usize,
    panicked_count: usize,
    elapsed: Duration,
    failures: Vec<BatchTaskFailure<E>>,
}

impl<E> View for BatchExecutionResult<E> {
    type V = ResultParts<E>;

    closed spec fn view(&self) -> ResultParts<E> {
        ResultParts {
            task_count: self.task_count,
            completed_count: self.completed_count,
            succeeded_count: self.succeeded_count,
            failed_count: self.failed_count,
            panicked_count: self.panicked_count,
            elapsed: self.elapsed,
            failures: self.failures@,
        }
    }
}

impl<E> BatchExecutionResult<E> {
    /// Creates a batch execution result holding exactly the given parts.
    pub fn new(
        task_count: usize,
        completed_count: usize,
        succeeded_count: usize,
        failed_count: usize,
        panicked_count: usize,
        elapsed: Duration,
        failures: Vec<BatchTaskFailure<E>>,
    ) -> (r: Self)
        ensures
            r@ == (ResultParts {
                task_count,
                completed_count,
                succeeded_count,
                failed_count,
                panicked_count,
                elapsed,
                failures: failures@,
            }),
    {
        BatchExecutionResult {
            task_count,
            completed_count,
            succeeded_count,
            failed_count,
            panicked_count,
            elapsed,
            failures,
        }
    }

    /// Returns the declared task count for this batch.
    pub fn task_count(&self) -> (r: usize)
        ensures
            r == self@.task_count,
    {
        self.task_count
    }

    /// Returns how many tasks reached a terminal outcome.
    pub fn completed_count(&self) -> (r: usize)
        ensures
            r == self@.completed_count,
    {
        self.completed_count
    }

    /// Returns how many tasks completed successfully.
    pub fn succeeded_count(&self) -> (r: usize)
        ensures
            r == self@.succeeded_count,
    {
        self.succeeded_count
    }

    /// Returns how many tasks returned their own error.
    pub fn failed_count(&self) -> (r: usize)
        ensures
            r == self@.failed_count,
    {
        self.failed_count
    }

    /// Returns how many tasks panicked.
    pub fn panicked_count(&self) -> (r: usize)
        ensures
            r == self@.panicked_count,
    {
        self.panicked_count
    }

    /// Returns the total number of task failures, `failed_count +
    /// panicked_count`.
    pub fn failure_count(&self) -> (r: usize)
        requires
            self@.failed_count + self@.panicked_count <= usize::MAX,
        ensures
            r == self@.failed_count + self@.panicked_count,
    {
        self.failed_count + self.panicked_count
    }

    /// Returns the total elapsed wall-clock time.
    pub fn elapsed(&self) -> (r: Duration)
        ensures
            r == self@.elapsed,
    {
        self.elapsed
    }

    /// Returns the failure records collected during execution.
    pub fn failures(&self) -> (r: &[BatchTaskFailure<E>])
        ensures
            r@ == self@.failures,
    {
        self.failures.as_slice()
    }

    /// Returns whether every declared task completed and none failed or
    /// panicked.
    pub fn is_success(&self) -> (r: bool)
        ensures
            r == (self@.completed_count == self@.task_count && self@.failed_count == 0
                && self@.panicked_count == 0),
    {
        self.completed_count == self.task_count && self.failed_count == 0 && self.panicked_count == 0
    }

    /// Consumes this result and returns its failure records.
    pub fn into_failures(self) -> (r: Vec<BatchTaskFailure<E>>)
        ensures
            r@ == self@.failures,
    {
        self.failures
    }
}

/// Batch-level error returned when the declared task count does not match
/// the task source; it carries the result of the tasks that ran.
#[derive(Debug)]
pub enum BatchExecutionError<E> {
    /// The task source ended before the declared task count was reached.
    CountShortfall {
        /// Declared task count.
        expected: usize,
        /// Actual number of tasks observed from the source.
        actual: usize,
        /// Result accumulated from the tasks that did run.
        result: BatchExecutionResult<E>,
    },
    /// The task source yielded more tasks than the declared task count.
    CountExceeded {
        /// Declared task count.
        expected: usize,
        /// Lower bound of observed tasks.
        observed_at_least: usize,
        /// Result accumulated from the tasks that did run.
        result: BatchExecutionResult<E>,
    },
}

impl<E> BatchExecutionError<E> {
    /// The result attached to this error.
    pub open spec fn spec_result(&self) -> BatchExecutionResult<E> {
        match self {
            BatchExecutionError::CountShortfall { result, .. } => *result,
            BatchExecutionError::CountExceeded { result, .. } => *result,
        }
    }

    /// Returns the batch result attached to this error.
    pub fn result(&self) -> (r: &BatchExecutionResult<E>)
        ensures
            *r == self.spec_result(),
    {
        match self {
            BatchExecutionError::CountShortfall { result, .. } => result,
            BatchExecutionError::CountExceeded { result, .. } => result,
        }
    }

    /// Consumes this error and returns the attached batch result.
    pub fn into_result(self) -> (r: BatchExecutionResult<E>)
        ensures
            r == self.spec_result(),
    {
        match self {
            BatchExecutionError::CountShortfall { result, .. } => result,
            BatchExecutionError::CountExceeded { result, .. } => result,
        }
    }

    /// Returns whether this error represents a task-count shortfall.
    pub fn is_count_shortfall(&self) -> (r: bool)
        ensures
            r == (*self is CountShortfall),
    {
        match self {
            BatchExecutionError::CountShortfall { .. } => true,
            _ => false,
        }
    }

    /// Returns whether this error represents an oversized task source.
    pub fn is_count_exceeded(&self) -> (r: bool)
        ensures
            r == (*self is CountExceeded),
    {
        match self {
            BatchExecutionError::CountExceeded { .. } => true,
            _ => false,
        }
    }
}

/// Builds a batch execution result from counters the run kept consistent.
pub fn build_result<E>(
    task_count: usize,
    completed_count: usize,
    succeeded_count: usize,
    failed_count: usize,
    panicked_count: usize,
    elapsed: Duration,
    failures: Vec<BatchTaskFailure<E>>,
) -> (r: BatchExecutionResult<E>)
    ensures
        r@ == (ResultParts {
            task_count,
            completed_count,
            succeeded_count,
            failed_count,
            panicked_count,
            elapsed,
            failures: failures@,
        }),
{
    BatchExecutionResult::new(
        task_count,
        completed_count,
        succeeded_count,
        failed_count,
        panicked_count,
        elapsed,
        failures,
    )
}

/// The counters of a counting sequential run, as the contracts speak of
/// them.
pub ghost struct CountingRunView<E> {
    /// Declared task count.
    pub count: usize,
    /// Tasks run so far.
    pub actual_count: usize,
    /// Tasks that completed successfully.
    pub succeeded_count: usize,
    /// Tasks that returned their own error.
    pub failed_count: usize,
    /// Tasks that panicked.
    pub panicked_count: usize,
    /// Failure records in the order they were found.
    pub failures: Seq<BatchTaskFailure<E>>,
}

/// The run's counters agree: every task run is counted once as a success,
/// an error or a panic, with one failure record per error or panic, and no
/// more tasks ran than were declared.
pub open spec fn is_consistent_counting_run<E>(v: CountingRunView<E>) -> bool {
    &&& v.actual_count <= v.count
    &&& v.actual_count == v.succeeded_count + v.failed_count + v.panicked_count
    &&& v.failures.len() == v.failed_count + v.panicked_count
    &&& count_failed(v.failures) == v.failed_count
}

/// The result of a counting run after `elapsed`.
pub open spec fn counting_result_parts<E>(v: CountingRunView<E>, elapsed: Duration) -> ResultParts<E> {
    ResultParts {
        task_count: v.count,
        completed_count: v.actual_count,
        succeeded_count: v.succeeded_count,
        failed_count: v.failed_count,
        panicked_count: v.panicked_count,
        elapsed,
        failures: v.failures,
    }
}

/// A sequential run that reads the source only while the declared count
/// allows, runs every task it reads, and reports counters and failures.
pub struct SequentialCountingRun<E> {
    count: usize,
    actual_count: usize,
    succeeded_count: usize,
    failed_count: usize,
    panicked_count: usize,
    failures: Vec<BatchTaskFailure<E>>,
}

impl<E> View for SequentialCountingRun<E> {
    type V = CountingRunView<E>;

    closed spec fn view(&self) -> CountingRunView<E> {
        CountingRunView {
            count: self.count,
            actual_count: self.actual_count,
            succeeded_count: self.succeeded_count,
            failed_count: self.failed_count,
            panicked_count: self.panicked_count,
            failures: self.failures@,
        }
    }
}

impl<E> SequentialCountingRun<E> {
    /// Starts a run of `count` declared tasks.
    pub fn new(count: usize) -> (r: Self)
        ensures
            is_consistent_counting_run(r@),
            r@ == (CountingRunView::<E> {
                count,
                actual_count: 0,
                succeeded_count: 0,
                failed_count: 0,
                panicked_count: 0,
                failures: Seq::empty(),
            }),
    {
        SequentialCountingRun {
            count,
            actual_count: 0,
            succeeded_count: 0,
            failed_count: 0,
            panicked_count: 0,
            failures: Vec::new(),
        }
    }

    /// Says what to do with the next item read from the source: run it as
    /// the task at the next index, or, once the declared count has been
    /// reached, report that the source is too long.
    pub fn next_step(&self) -> (r: SequentialStep)
        ensures
            self@.actual_count < self@.count ==> r == (SequentialStep::Run { index: self@.actual_count }),
            self@.actual_count >= self@.count ==> r == SequentialStep::CountExceeded,
    {
        if self.actual_count == self.count || self.actual_count > self.count {
            SequentialStep::CountExceeded
        } else {
            SequentialStep::Run { index: self.actual_count }
        }
    }

    /// Records the outcome of the task run at the next index.
    pub fn record_outcome(&mut self, outcome: TaskRunOutcome<E>)
        requires
            is_consistent_counting_run(old(self)@),
            old(self)@.actual_count < old(self)@.count,
        ensures
            is_consistent_counting_run(final(self)@),
            final(self)@.count == old(self)@.count,
            final(self)@.actual_count == old(self)@.actual_count + 1,
            outcome is Succeeded ==> final(self)@.succeeded_count == old(self)@.succeeded_count + 1
                && final(self)@.failures == old(self)@.failures,
            outcome is Failed ==> final(self)@.failed_count == old(self)@.failed_count + 1,
            outcome is Panicked ==> final(self)@.panicked_count == old(self)@.panicked_count + 1,
            !(outcome is Succeeded) ==> final(self)@.failures.drop_last() == old(self)@.failures
                && final(self)@.failures.len() == old(self)@.failures.len() + 1 && leaves_failure(
                outcome,
                old(self)@.actual_count,
                final(self)@.failures.last(),
            ),
    {
        let index = self.actual_count;
        match outcome {
            TaskRunOutcome::Succeeded => {
                self.succeeded_count = self.succeeded_count + 1;
            },
            TaskRunOutcome::Failed(error) => {
                self.failed_count = self.failed_count + 1;
                self.failures.push(BatchTaskFailure::new(index, BatchTaskError::Failed(error)));
            },
            TaskRunOutcome::Panicked { message } => {
                self.panicked_count = self.panicked_count + 1;
                self.failures.push(BatchTaskFailure::new(index, BatchTaskError::Panicked { message }));
            },
        }
        proof {
            if !(outcome is Succeeded) {
                assert(self.failures@.drop_last() == old(self)@.failures);
            }
        }
        self.actual_count = index + 1;
    }

    /// The error for a source that yielded an item beyond the declared
    /// count, carrying the result of the tasks that ran.
    pub fn fail_count_exceeded(self, elapsed: Duration) -> (r: BatchExecutionError<E>)
        requires
            is_consistent_counting_run(self@),
            self@.count < usize::MAX,
        ensures
            r matches BatchExecutionError::CountExceeded { expected, observed_at_least, result } && expected
                == self@.count && observed_at_least == self@.count + 1 && result@ == counting_result_parts(
                self@,
                elapsed,
            ),
    {
        let count = self.count;
        let result = build_result(
            count,
            self.actual_count,
            self.succeeded_count,
            self.failed_count,
            self.panicked_count,
            elapsed,
            self.failures,
        );
        BatchExecutionError::CountExceeded { expected: count, observed_at_least: count + 1, result }
    }

    /// Completes the run once the source is exhausted: the result, or a
    /// shortfall error carrying it when fewer items than declared were read.
    pub fn complete(self, elapsed: Duration) -> (r: Result<BatchExecutionResult<E>, BatchExecutionError<E>>)
        requires
            is_consistent_counting_run(self@),
        ensures
            self@.actual_count < self@.count ==> (r matches Err(
                BatchExecutionError::CountShortfall { expected, actual, result },
            ) && expected == self@.count && actual == self@.actual_count && result@ == counting_result_parts(
                self@,
                elapsed,
            )),
            self@.actual_count == self@.count ==> (r matches Ok(result) && result@ == counting_result_parts(
                self@,
                elapsed,
            )),
    {
        let count = self.count;
        let actual = self.actual_count;
        let result = build_result(
            count,
            actual,
            self.succeeded_count,
            self.failed_count,
            self.panicked_count,
            elapsed,
            self.failures,
        );
        if actual < count {
            Err(BatchExecutionError::CountShortfall { expected: count, actual, result })
        } else {
            Ok(result)
        }
    }
}

} // verus!
