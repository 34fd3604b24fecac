//! Executor configuration: reporting interval, task failure policy, worker
//! count and the sequential fallback threshold of parallel execution.
use std::time::Duration;
use vstd::prelude::*;

use crate::outcome::{duration_from_secs, seconds};
use crate::policy::TaskFailurePolicy;
use crate::run::SequentialBatchRun;

verus! {

/// Default interval between running progress reports, in seconds.
pub const DEFAULT_REPORT_INTERVAL_SECS: u64 = 5;

/// Returns the default interval between running progress reports.
fn default_report_interval() -> (r: Duration)
    ensures
        r == seconds(DEFAULT_REPORT_INTERVAL_SECS),
{
    duration_from_secs(DEFAULT_REPORT_INTERVAL_SECS)
}

/// Default batch size at or below which parallel execution runs
/// sequentially.
pub const DEFAULT_SEQUENTIAL_THRESHOLD: usize = 100;

/// Configuration of a batch executor that runs every task on the caller
/// thread.
#[derive(Clone, Copy, Debug)]
pub struct SequentialBatchExecutor {
    report_interval: Duration,
    task_failure_policy: TaskFailurePolicy,
}

impl SequentialBatchExecutor {
    /// The interval between running progress reports.
    pub closed spec fn spec_report_interval(&self) -> Duration {
        self.report_interval
    }

    /// The configured task failure policy.
    pub closed spec fn spec_task_failure_policy(&self) -> TaskFailurePolicy {
        self.task_failure_policy
    }

    /// Creates a sequential executor with the default interval and the
    /// `Continue` policy.
    pub fn new() -> (r: Self)
        ensures
            r.spec_task_failure_policy() == TaskFailurePolicy::Continue,
            r.spec_report_interval() == seconds(DEFAULT_REPORT_INTERVAL_SECS),
    {
        SequentialBatchExecutorBuilder::new().build()
    }

    /// Creates a builder initialized with the default settings.
    pub fn builder() -> (r: SequentialBatchExecutorBuilder)
        ensures
            r.spec_task_failure_policy() == TaskFailurePolicy::Continue,
            r.spec_report_interval() == seconds(DEFAULT_REPORT_INTERVAL_SECS),
    {
        SequentialBatchExecutorBuilder::new()
    }

    /// Returns the configured progress-report interval.
    pub fn report_interval(&self) -> (r: Duration)
        ensures
            r == self.spec_report_interval(),
    {
        self.report_interval
    }

    /// Returns the configured task failure policy.
    pub fn task_failure_policy(&self) -> (r: TaskFailurePolicy)
        ensures
            r == self.spec_task_failure_policy(),
    {
        self.task_failure_policy
    }

    /// Starts the sequential run of `count` declared tasks under this
    /// executor's task failure policy.
    pub fn start_run<E>(&self, count: usize) -> (r: SequentialBatchRun<E>)
        ensures
            crate::run::is_consistent_run(r@),
            crate::run::is_idle_run(r@),
            r@.count == count,
            r@.actual_count == 0,
            !r@.stopped,
            r@.state.failures.len() == 0,
            r@.state.completed_count == 0,
            r@.state.task_failure_policy == self.spec_task_failure_policy(),
    {
        SequentialBatchRun::new(count, self.task_failure_policy)
    }
}

/// Builder of a [`SequentialBatchExecutor`].
#[derive(Clone, Copy, Debug)]
pub struct SequentialBatchExecutorBuilder {
    report_interval: Duration,
    task_failure_policy: TaskFailurePolicy,
}

impl SequentialBatchExecutorBuilder {
    /// The interval between running progress reports.
    pub closed spec fn spec_report_interval(&self) -> Duration {
        self.report_interval
    }

    /// The configured task failure policy.
    pub closed spec fn spec_task_failure_policy(&self) -> TaskFailurePolicy {
        self.task_failure_policy
    }

    /// Creates a builder with the default interval and the `Continue`
    /// policy.
    pub fn new() -> (r: Self)
        ensures
            r.spec_task_failure_policy() == TaskFailurePolicy::Continue,
            r.spec_report_interval() == seconds(DEFAULT_REPORT_INTERVAL_SECS),
    {
        SequentialBatchExecutorBuilder {
            report_interval: default_report_interval(),
            task_failure_policy: TaskFailurePolicy::Continue,
        }
    }

    /// Sets the interval between running progress reports.
    pub fn report_interval(self, report_interval: Duration) -> (r: Self)
        ensures
            r.spec_report_interval() == report_interval,
            r.spec_task_failure_policy() == self.spec_task_failure_policy(),
    {
        SequentialBatchExecutorBuilder { report_interval, ..self }
    }

    /// Sets the task failure policy.
    pub fn task_failure_policy(self, task_failure_policy: TaskFailurePolicy) -> (r: Self)
        ensures
            r.spec_report_interval() == self.spec_report_interval(),
            r.spec_task_failure_policy() == task_failure_policy,
    {
        SequentialBatchExecutorBuilder { task_failure_policy, ..self }
    }

    /// Builds the configured executor.
    pub fn build(self) -> (r: SequentialBatchExecutor)
        ensures
            r.spec_report_interval() == self.spec_report_interval(),
            r.spec_task_failure_policy() == self.spec_task_failure_policy(),
    {
        SequentialBatchExecutor {
            report_interval: self.report_interval,
            task_failure_policy: self.task_failure_policy,
        }
    }
}

/// Error returned when a parallel executor configuration is invalid.
#[derive(Debug, Clone, Copy, PartialEq, Eq, Structural)]
pub enum ParallelBatchExecutorBuildError {
    /// The worker thread count is zero.
    ZeroThreadCount,
    /// The progress-report interval is zero (kept for callers that match
    /// on it; building accepts a zero interval and never returns it).
    ZeroReportInterval,
}

/// Configuration of a batch executor that runs larger batches on scoped
/// worker threads.
#[derive(Clone, Copy, Debug)]
pub struct ParallelBatchExecutor {
    thread_count: usize,
    sequential_threshold: usize,
    report_interval: Duration,
    task_failure_policy: TaskFailurePolicy,
}

impl ParallelBatchExecutor {
    /// Number of worker threads.
    pub closed spec fn spec_thread_count(&self) -> usize {
        self.thread_count
    }

    /// Batch size at or below which the executor runs sequentially.
    pub closed spec fn spec_sequential_threshold(&self) -> usize {
        self.sequential_threshold
    }

    /// The interval between running progress reports.
    pub closed spec fn spec_report_interval(&self) -> Duration {
        self.report_interval
    }

    /// The configured task failure policy.
    pub closed spec fn spec_task_failure_policy(&self) -> TaskFailurePolicy {
        self.task_failure_policy
    }

    /// Creates a builder whose thread count defaults to
    /// `default_thread_count` (the machine's available parallelism in the
    /// caller).
    pub fn builder(default_thread_count: usize) -> (r: ParallelBatchExecutorBuilder)
        ensures
            r.spec_thread_count() == default_thread_count,
            r.spec_sequential_threshold() == DEFAULT_SEQUENTIAL_THRESHOLD,
            r.spec_task_failure_policy() == TaskFailurePolicy::Continue,
            r.spec_report_interval() == seconds(DEFAULT_REPORT_INTERVAL_SECS),
    {
        ParallelBatchExecutorBuilder {
            thread_count: default_thread_count,
            sequential_threshold: DEFAULT_SEQUENTIAL_THRESHOLD,
            report_interval: default_report_interval(),
            task_failure_policy: TaskFailurePolicy::Continue,
        }
    }

    /// Creates a parallel executor with `thread_count` workers and default
    /// settings otherwise, or an error when `thread_count` is zero.
    pub fn new(thread_count: usize) -> (r: Result<Self, ParallelBatchExecutorBuildError>)
        ensures
            thread_count == 0 <==> r == Err::<Self, _>(ParallelBatchExecutorBuildError::ZeroThreadCount),
            thread_count != 0 ==> r is Ok,
            r matches Ok(e) ==> e.spec_thread_count() == thread_count && e.spec_sequential_threshold()
                == DEFAULT_SEQUENTIAL_THRESHOLD && e.spec_task_failure_policy() == TaskFailurePolicy::Continue
                && e.spec_report_interval() == seconds(DEFAULT_REPORT_INTERVAL_SECS),
    {
        Self::builder(thread_count).thread_count(thread_count).build()
    }

    /// Returns the worker thread count.
    pub fn thread_count(&self) -> (r: usize)
        ensures
            r == self.spec_thread_count(),
    {
        self.thread_count
    }

    /// Returns the sequential fallback threshold.
    pub fn sequential_threshold(&self) -> (r: usize)
        ensures
            r == self.spec_sequential_threshold(),
    {
        self.sequential_threshold
    }

    /// Returns the configured task failure policy.
    pub fn task_failure_policy(&self) -> (r: TaskFailurePolicy)
        ensures
            r == self.spec_task_failure_policy(),
    {
        self.task_failure_policy
    }

    /// Returns the configured progress-report interval.
    pub fn report_interval(&self) -> (r: Duration)
        ensures
            r == self.spec_report_interval(),
    {
        self.report_interval
    }

    /// Returns whether a batch of `count` declared tasks runs on the caller
    /// thread: when it is at or below the threshold, or when there is at
    /// most one worker.
    pub fn runs_sequentially(&self, count: usize) -> (r: bool)
        ensures
            r == (count <= self.spec_sequential_threshold() || self.spec_thread_count() <= 1),
    {
        count <= self.sequential_threshold || self.thread_count <= 1
    }

    /// Returns the number of workers for a batch of `count` declared tasks:
    /// no more workers than tasks.
    pub fn worker_count(&self, count: usize) -> (r: usize)
        ensures
            r == if self.spec_thread_count() <= count {
                self.spec_thread_count()
            } else {
                count
            },
    {
        if self.thread_count <= count {
            self.thread_count
        } else {
            count
        }
    }

    /// Returns the sequential executor used for the fallback path: same
    /// interval and task failure policy.
    pub fn sequential_executor(&self) -> (r: SequentialBatchExecutor)
        ensures
            r.spec_report_interval() == self.spec_report_interval(),
            r.spec_task_failure_policy() == self.spec_task_failure_policy(),
    {
        SequentialBatchExecutor::builder().report_interval(self.report_interval).task_failure_policy(
            self.task_failure_policy,
        ).build()
    }
}

/// Builder of a [`ParallelBatchExecutor`].
#[derive(Clone, Copy, Debug)]
pub struct ParallelBatchExecutorBuilder {
    thread_count: usize,
    sequential_threshold: usize,
    report_interval: Duration,
    task_failure_policy: TaskFailurePolicy,
}

impl ParallelBatchExecutorBuilder {
    /// Number of worker threads.
    pub closed spec fn spec_thread_count(&self) -> usize {
        self.thread_count
    }

    /// Batch size at or below which the executor runs sequentially.
    pub closed spec fn spec_sequential_threshold(&self) -> usize {
        self.sequential_threshold
    }

    /// The interval between running progress reports.
    pub closed spec fn spec_report_interval(&self) -> Duration {
        self.report_interval
    }

    /// The configured task failure policy.
    pub closed spec fn spec_task_failure_policy(&self) -> TaskFailurePolicy {
        self.task_failure_policy
    }

    /// Sets the worker thread count.
    pub fn thread_count(self, thread_count: usize) -> (r: Self)
        ensures
            r.spec_thread_count() == thread_count,
            r.spec_sequential_threshold() == self.spec_sequential_threshold(),
            r.spec_report_interval() == self.spec_report_interval(),
            r.spec_task_failure_policy() == self.spec_task_failure_policy(),
    {
        ParallelBatchExecutorBuilder { thread_count, ..self }
    }

    /// Sets the sequential fallback threshold.
    pub fn sequential_threshold(self, sequential_threshold: usize) -> (r: Self)
        ensures
            r.spec_thread_count() == self.spec_thread_count(),
            r.spec_sequential_threshold() == sequential_threshold,
            r.spec_report_interval() == self.spec_report_interval(),
            r.spec_task_failure_policy() == self.spec_task_failure_policy(),
    {
        ParallelBatchExecutorBuilder { sequential_threshold, ..self }
    }

    /// Sets the interval between running progress reports.
    pub fn report_interval(self, report_interval: Duration) -> (r: Self)
        ensures
            r.spec_thread_count() == self.spec_thread_count(),
            r.spec_sequential_threshold() == self.spec_sequential_threshold(),
            r.spec_report_interval() == report_interval,
            r.spec_task_failure_policy() == self.spec_task_failure_policy(),
    {
        ParallelBatchExecutorBuilder { report_interval, ..self }
    }

    /// Sets the task failure policy.
    pub fn task_failure_policy(self, task_failure_policy: TaskFailurePolicy) -> (r: Self)
        ensures
            r.spec_thread_count() == self.spec_thread_count(),
            r.spec_sequential_threshold() == self.spec_sequential_threshold(),
            r.spec_report_interval() == self.spec_report_interval(),
            r.spec_task_failure_policy() == task_failure_policy,
    {
        ParallelBatchExecutorBuilder { task_failure_policy, ..self }
    }

    /// Builds the configured executor, or reports a zero thread count. A
    /// zero report interval is accepted: it reports at every running
    /// progress point.
    pub fn build(self) -> (r: Result<ParallelBatchExecutor, ParallelBatchExecutorBuildError>)
        ensures
            self.spec_thread_count() == 0 <==> r == Err::<ParallelBatchExecutor, _>(
                ParallelBatchExecutorBuildError::ZeroThreadCount,
            ),
            self.spec_thread_count() != 0 ==> r is Ok,
            r matches Ok(e) ==> e.spec_thread_count() == self.spec_thread_count() && e.spec_sequential_threshold()
                == self.spec_sequential_threshold() && e.spec_report_interval() == self.spec_report_interval()
                && e.spec_task_failure_policy() == self.spec_task_failure_policy(),
    {
        if self.thread_count == 0 {
            return Err(ParallelBatchExecutorBuildError::ZeroThreadCount);
        }
        Ok(
            ParallelBatchExecutor {
                thread_count: self.thread_count,
                sequential_threshold: self.sequential_threshold,
                report_interval: self.report_interval,
                task_failure_policy: self.task_failure_policy,
            },
        )
    }
}

} // verus!
