//! Task accounting kept by one owner that records every transition itself:
//! active, completed and terminal counters and the failure records.
use std::time::Duration;
use vstd::prelude::*;

use crate::executor::ProgressCounters;
use crate::outcome::{BatchOutcome, BatchOutcomeBuilder, OutcomeParts};
use crate::policy::BatchTermination;
use crate::task::{BatchTaskError, BatchTaskFailure};

verus! {

/// The counters of the accounting, as the contracts speak of them.
pub ghost struct CounterView<E> {
    /// Declared task count.
    pub task_count: usize,
    /// Tasks currently running.
    pub active_count: usize,
    /// Tasks that reached a terminal outcome.
    pub completed_count: usize,
    /// Tasks that completed successfully.
    pub succeeded_count: usize,
    /// Tasks that returned their own error.
    pub failed_count: usize,
    /// Tasks that panicked.
    pub panicked_count: usize,
    /// Failure records in the order they were recorded.
    pub failures: Seq<BatchTaskFailure<E>>,
}

/// Task accounting of one batch run.
#[derive(Debug, Clone, PartialEq, Eq)]
pub struct BatchExecutionState<E> {
    task_count: usize,
    active_count: usize,
    completed_count: usize,
    succeeded_count: usize,
    failed_count: usize,
    panicked_count: usize,
    failures: Vec<BatchTaskFailure<E>>,
}

impl<E> View for BatchExecutionState<E> {
    type V = CounterView<E>;

    closed spec fn view(&self) -> CounterView<E> {
        CounterView {
            task_count: self.task_count,
            active_count: self.active_count,
            completed_count: self.completed_count,
            succeeded_count: self.succeeded_count,
            failed_count: self.failed_count,
            panicked_count: self.panicked_count,
            failures: self.failures@,
        }
    }
}

/// The counters after one more terminal task: one fewer active (never below
/// zero) and one more completed.
pub open spec fn after_terminal<E>(v: CounterView<E>) -> CounterView<E> {
    CounterView {
        active_count: if v.active_count == 0 {
            0
        } else {
            (v.active_count - 1) as usize
        },
        completed_count: (v.completed_count + 1) as usize,
        ..v
    }
}

impl<E> BatchExecutionState<E> {
    /// Creates empty accounting for a declared task count.
    pub fn new(task_count: usize) -> (r: Self)
        ensures
            r@ == (CounterView::<E> {
                task_count,
                active_count: 0,
                completed_count: 0,
                succeeded_count: 0,
                failed_count: 0,
                panicked_count: 0,
                failures: Seq::empty(),
            }),
    {
        BatchExecutionState {
            task_count,
            active_count: 0,
            completed_count: 0,
            succeeded_count: 0,
            failed_count: 0,
            panicked_count: 0,
            failures: Vec::new(),
        }
    }

    /// Records that one task started.
    pub fn record_task_started(&mut self)
        requires
            old(self)@.active_count < usize::MAX,
        ensures
            final(self)@ == (CounterView { active_count: (old(self)@.active_count + 1) as usize, ..old(self)@ }),
    {
        self.active_count = self.active_count + 1;
    }

    /// Records one successful task completion.
    pub fn record_task_succeeded(&mut self)
        requires
            old(self)@.completed_count < usize::MAX,
            old(self)@.succeeded_count < usize::MAX,
        ensures
            final(self)@ == (CounterView {
                succeeded_count: (old(self)@.succeeded_count + 1) as usize,
                ..after_terminal(old(self)@)
            }),
    {
        self.active_count = self.active_count.saturating_sub(1);
        self.completed_count = self.completed_count + 1;
        self.succeeded_count = self.succeeded_count + 1;
    }

    /// Records one task error for the task at `index`.
    pub fn record_task_failed(&mut self, index: usize, error: E)
        requires
            old(self)@.completed_count < usize::MAX,
            old(self)@.failed_count < usize::MAX,
        ensures
            final(self)@.failures.drop_last() == old(self)@.failures,
            final(self)@.failures.len() == old(self)@.failures.len() + 1,
            final(self)@.failures.last().spec_index() == index,
            final(self)@.failures.last().spec_error() == BatchTaskError::<E>::Failed(error),
            final(self)@ == (CounterView {
                failed_count: (old(self)@.failed_count + 1) as usize,
                failures: final(self)@.failures,
                ..after_terminal(old(self)@)
            }),
    {
        self.active_count = self.active_count.saturating_sub(1);
        self.completed_count = self.completed_count + 1;
        self.failed_count = self.failed_count + 1;
        self.failures.push(BatchTaskFailure::new(index, BatchTaskError::Failed(error)));
        proof {
            assert(self.failures@.drop_last() == old(self)@.failures);
        }
    }

    /// Records one task panic for the task at `index`.
    pub fn record_task_panicked(&mut self, index: usize, error: BatchTaskError<E>)
        requires
            old(self)@.completed_count < usize::MAX,
            old(self)@.panicked_count < usize::MAX,
        ensures
            final(self)@.failures.drop_last() == old(self)@.failures,
            final(self)@.failures.len() == old(self)@.failures.len() + 1,
            final(self)@.failures.last().spec_index() == index,
            final(self)@.failures.last().spec_error() == error,
            final(self)@ == (CounterView {
                panicked_count: (old(self)@.panicked_count + 1) as usize,
                failures: final(self)@.failures,
                ..after_terminal(old(self)@)
            }),
    {
        self.active_count = self.active_count.saturating_sub(1);
        self.completed_count = self.completed_count + 1;
        self.panicked_count = self.panicked_count + 1;
        self.failures.push(BatchTaskFailure::new(index, error));
        proof {
            assert(self.failures@.drop_last() == old(self)@.failures);
        }
    }

    /// Returns the counters to report; errors and panics are reported
    /// together as failures.
    pub fn progress_counters(&self) -> (r: ProgressCounters)
        requires
            self@.failed_count + self@.panicked_count <= usize::MAX,
        ensures
            r == (ProgressCounters {
                total_count: Some(self@.task_count),
                active_count: self@.active_count,
                completed_count: self@.completed_count,
                succeeded_count: self@.succeeded_count,
                failed_count: (self@.failed_count + self@.panicked_count) as usize,
            }),
    {
        ProgressCounters {
            total_count: Some(self.task_count),
            active_count: self.active_count,
            completed_count: self.completed_count,
            succeeded_count: self.succeeded_count,
            failed_count: self.failed_count + self.panicked_count,
        }
    }

    /// Consumes the accounting and returns an outcome holding its counters
    /// and failure records as they are.
    pub fn into_outcome(self, elapsed: Duration) -> (r: BatchOutcome<E>)
        ensures
            r@ == (OutcomeParts {
                task_count: self@.task_count,
                completed_count: self@.completed_count,
                succeeded_count: self@.succeeded_count,
                failed_count: self@.failed_count,
                panicked_count: self@.panicked_count,
                termination: BatchTermination::Finished,
                elapsed,
                failures: self@.failures,
            }),
    {
        BatchOutcome::new(
            BatchOutcomeBuilder::builder(self.task_count).completed_count(self.completed_count).succeeded_count(
                self.succeeded_count,
            ).failed_count(self.failed_count).panicked_count(self.panicked_count).elapsed(elapsed).failures(
                self.failures,
            ),
        )
    }

    /// Returns the declared task count.
    pub fn task_count(&self) -> (r: usize)
        ensures
            r == self@.task_count,
    {
        self.task_count
    }

    /// Returns how many tasks reached a terminal outcome.
    pub fn completed_count(&self) -> (r: usize)
        ensures
            r == self@.completed_count,
    {
        self.completed_count
    }
}

} // verus!
