//! Task-failure policies and the ways an executor stops consuming its source.
use vstd::prelude::*;

verus! {

/// A positive number of task failures after which an executor stops.
///
/// Like `NonZeroUsize`, its value is never zero: the constructor refuses
/// zero, and the type's invariant keeps it positive.
#[derive(Clone, Copy, Debug, Eq, Hash, PartialEq)]
pub struct FailureLimit {
    limit: usize,
}

impl FailureLimit {
    #[verifier::type_invariant]
    spec fn limit_is_positive(self) -> bool {
        self.limit >= 1
    }

    /// The number of failures this limit stands for.
    pub closed spec fn spec_get(self) -> usize {
        self.limit
    }

    /// Creates a limit of `limit` failures, or `None` when `limit` is zero.
    pub fn new(limit: usize) -> (r: Option<Self>)
        ensures
            limit == 0 <==> r is None,
            r matches Some(l) ==> l.spec_get() == limit,
    {
        if limit == 0 {
            None
        } else {
            Some(FailureLimit { limit })
        }
    }

    /// Returns the number of failures this limit stands for.
    pub fn get(self) -> (r: usize)
        ensures
            r == self.spec_get(),
            r >= 1,
    {
        proof {
            use_type_invariant(&self);
        }
        self.limit
    }
}

/// Describes how a batch executor stopped consuming its task source.
///
/// `Finished` means execution was not stopped by the task failure policy; it
/// does not imply that every task succeeded.
#[non_exhaustive]
#[derive(Debug, Clone, Copy, PartialEq, Eq)]
pub enum BatchTermination {
    /// Execution finished without a task-failure-policy short circuit.
    Finished,
    /// Execution stopped after the configured task failure policy was reached.
    StoppedByTaskFailurePolicy,
}

impl Default for BatchTermination {
    fn default() -> (r: Self)
        ensures
            r == BatchTermination::Finished,
    {
        BatchTermination::Finished
    }
}

/// Controls when an executor stops admitting tasks after task failures.
///
/// A failure is either a task-returned error or a captured task panic.
#[non_exhaustive]
#[derive(Clone, Copy, Debug, Eq, Hash, PartialEq)]
pub enum TaskFailurePolicy {
    /// Continues through every task and collects all task failures.
    Continue,
    /// Stops after the first task error or captured task panic.
    StopOnFirstFailure,
    /// Stops after the configured number of task failures.
    StopAfterFailures(FailureLimit),
}

impl Default for TaskFailurePolicy {
    fn default() -> (r: Self)
        ensures
            r == TaskFailurePolicy::Continue,
    {
        TaskFailurePolicy::Continue
    }
}

impl TaskFailurePolicy {
    /// Whether the policy has reached its stopping condition after
    /// `failure_count` task failures.
    pub open spec fn spec_should_stop(self, failure_count: int) -> bool {
        match self {
            TaskFailurePolicy::Continue => false,
            TaskFailurePolicy::StopOnFirstFailure => failure_count >= 1,
            TaskFailurePolicy::StopAfterFailures(limit) => {
                // a limit is never zero, so a stop always needs a failure
                failure_count >= 1 && failure_count >= limit.spec_get()
            },
        }
    }

    /// Returns whether execution should stop at `failure_count`.
    pub fn should_stop(self, failure_count: usize) -> (r: bool)
        ensures
            r == self.spec_should_stop(failure_count as int),
    {
        match self {
            TaskFailurePolicy::StopOnFirstFailure => failure_count >= 1,
            TaskFailurePolicy::Continue => false,
            TaskFailurePolicy::StopAfterFailures(limit) => failure_count >= limit.get(),
        }
    }
}

/// A policy never stops before any task failed, and once it stops at some
/// failure count it also stops at every larger count.
pub proof fn lemma_should_stop_monotone(policy: TaskFailurePolicy, fewer: int, more: int)
    requires
        fewer <= more,
    ensures
        !policy.spec_should_stop(0),
        policy.spec_should_stop(fewer) ==> policy.spec_should_stop(more),
{
}

/// What each policy decides after `failure_count` task failures (one or
/// more): `Continue` never stops, `StopOnFirstFailure` always stops, and
/// `StopAfterFailures(limit)` stops exactly once the count reaches the
/// limit, a limit of one included. No policy stops before any failure.
pub proof fn lemma_policy_stop_rules(limit: FailureLimit, failure_count: int)
    ensures
        failure_count >= 1 ==> !TaskFailurePolicy::Continue.spec_should_stop(failure_count),
        failure_count >= 1 ==> TaskFailurePolicy::StopOnFirstFailure.spec_should_stop(failure_count),
        failure_count >= 1 ==> (TaskFailurePolicy::StopAfterFailures(limit).spec_should_stop(failure_count) <==> failure_count
            >= limit.spec_get()),
        !TaskFailurePolicy::Continue.spec_should_stop(0),
        !TaskFailurePolicy::StopOnFirstFailure.spec_should_stop(0),
        !TaskFailurePolicy::StopAfterFailures(limit).spec_should_stop(0),
{
}

} // verus!
