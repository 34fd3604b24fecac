//! Batch outcomes, their builder and the invariants a valid outcome keeps.
use std::time::Duration;
use vstd::prelude::*;

use crate::policy::BatchTermination;
use crate::sort::{is_index_ordered, sort_by_index, sorted_by_index, IndexedRecord};
use crate::task::{BatchTaskError, BatchTaskFailure};

verus! {

/// The duration of `secs` whole seconds, as `Duration::from_secs` builds
/// it; `seconds(0)` is the zero duration.
pub uninterp spec fn seconds(secs: u64) -> Duration;

/// Builds the duration of `secs` whole seconds with `Duration::from_secs`,
/// which depends on `secs` alone and never fails.
#[verifier::external_body]
pub(crate) fn duration_from_secs(secs: u64) -> (r: Duration)
    ensures
        r == seconds(secs),
{
    Duration::from_secs(secs)
}

/// `Duration::clone`: a duration is `Copy`, so its clone is the same value.
pub assume_specification[ <Duration as Clone>::clone ](d: &Duration) -> (r: Duration)
    ensures
        r == *d,
;

/// The parts of a batch outcome, as the contracts speak of them.
pub ghost struct OutcomeParts<E> {
    /// Declared task count.
    pub task_count: usize,
    /// Tasks that reached a terminal outcome.
    pub completed_count: usize,
    /// Tasks that completed successfully.
    pub succeeded_count: usize,
    /// Tasks that returned their own error.
    pub failed_count: usize,
    /// Tasks that panicked.
    pub panicked_count: usize,
    /// How the executor stopped consuming its source.
    pub termination: BatchTermination,
    /// Elapsed wall-clock time.
    pub elapsed: Duration,
    /// Failure records.
    pub failures: Seq<BatchTaskFailure<E>>,
}

/// Number of failure records in `s` that hold a task-returned error.
pub open spec fn count_failed<E>(s: Seq<BatchTaskFailure<E>>) -> nat
    decreases s.len(),
{
    if s.len() == 0 {
        0
    } else {
        count_failed(s.drop_last()) + if s.last().spec_error() is Failed {
            1nat
        } else {
            0nat
        }
    }
}

/// Counts the failure records that hold a task-returned error.
pub fn count_failed_records<E>(failures: &[BatchTaskFailure<E>]) -> (r: usize)
    ensures
        r == count_failed(failures@),
        r <= failures@.len(),
{
    let n = failures.len();
    let mut count: usize = 0;
    let mut i: usize = 0;
    while i < n
        invariant
            i <= n,
            n == failures@.len(),
            count == count_failed(failures@.take(i as int)),
            count <= i,
        decreases n - i,
    {
        proof {
            let t = failures@.take(i + 1);
            assert(t.drop_last() == failures@.take(i as int));
            assert(t.last() == failures@[i as int]);
        }
        if failures[i].error().is_failed() {
            count += 1;
        }
        i += 1;
    }
    proof {
        assert(failures@.take(n as int) == failures@);
    }
    count
}

/// The failure at `k` has an index outside `0..task_count`, or the index of
/// an earlier failure.
pub open spec fn is_bad_failure<E>(s: Seq<BatchTaskFailure<E>>, task_count: usize, k: int) -> bool {
    ||| s[k].spec_index() >= task_count
    ||| exists|j: int| 0 <= j < k && s[j].spec_index() == s[k].spec_index()
}

/// `k` is the first position of `s` whose failure is out of range or
/// repeats an earlier index.
pub open spec fn first_bad_failure_at<E>(s: Seq<BatchTaskFailure<E>>, task_count: usize, k: int) -> bool {
    &&& 0 <= k < s.len()
    &&& is_bad_failure(s, task_count, k)
    &&& forall|j: int| 0 <= j < k ==> !is_bad_failure(s, task_count, j)
}

/// The error reported for the first bad failure at `k`.
pub open spec fn bad_failure_error<E>(s: Seq<BatchTaskFailure<E>>, task_count: usize, k: int) -> BatchOutcomeBuildError {
    if s[k].spec_index() >= task_count {
        BatchOutcomeBuildError::FailureIndexOutOfRange { index: s[k].spec_index(), task_count }
    } else {
        BatchOutcomeBuildError::DuplicateFailureIndex { index: s[k].spec_index() }
    }
}

/// The error that validating the given counters and failure records
/// reports, or `None` when they describe a consistent outcome. The checks
/// run in this order: failure-count overflow, terminal-count overflow,
/// completed count above the declared count, terminal count against the
/// completed count, number of failure records, the first failure record
/// whose index is out of range or repeats an earlier index, and the number
/// of records of each variant.
pub open spec fn outcome_build_error<E>(p: OutcomeParts<E>) -> Option<BatchOutcomeBuildError> {
    let failure_count = p.failed_count + p.panicked_count;
    let terminal_count = p.succeeded_count + failure_count;
    if failure_count > usize::MAX {
        Some(BatchOutcomeBuildError::FailureCountOverflow {
            failed_count: p.failed_count,
            panicked_count: p.panicked_count,
        })
    } else if terminal_count > usize::MAX {
        Some(BatchOutcomeBuildError::TerminalCountOverflow {
            succeeded_count: p.succeeded_count,
            failure_count: failure_count as usize,
        })
    } else if p.completed_count > p.task_count {
        Some(BatchOutcomeBuildError::CompletedCountExceeded {
            task_count: p.task_count,
            completed_count: p.completed_count,
        })
    } else if terminal_count != p.completed_count {
        Some(BatchOutcomeBuildError::TerminalCountMismatch {
            completed_count: p.completed_count,
            terminal_count: terminal_count as usize,
            succeeded_count: p.succeeded_count,
            failed_count: p.failed_count,
            panicked_count: p.panicked_count,
        })
    } else if p.failures.len() != failure_count {
        Some(BatchOutcomeBuildError::FailureDetailCountMismatch {
            expected: failure_count as usize,
            actual: p.failures.len() as usize,
        })
    } else if exists|k: int| first_bad_failure_at(p.failures, p.task_count, k) {
        let k = choose|k: int| first_bad_failure_at(p.failures, p.task_count, k);
        Some(bad_failure_error(p.failures, p.task_count, k))
    } else if count_failed(p.failures) != p.failed_count || p.failures.len() - count_failed(p.failures)
        != p.panicked_count {
        Some(BatchOutcomeBuildError::FailureVariantCountMismatch {
            expected_failed: p.failed_count,
            actual_failed: count_failed(p.failures) as usize,
            expected_panicked: p.panicked_count,
            actual_panicked: (p.failures.len() - count_failed(p.failures)) as usize,
        })
    } else {
        None
    }
}

/// A valid outcome: its counters and failure records pass validation and
/// the failure records are ordered by task index.
pub open spec fn is_valid_outcome<E>(p: OutcomeParts<E>) -> bool {
    outcome_build_error(p) is None && is_index_ordered(p.failures)
}

/// Error returned when constructing a batch outcome with invalid counters.
#[derive(Debug, Clone, PartialEq, Eq, Structural)]
pub enum BatchOutcomeBuildError {
    /// The completed task count is greater than the declared task count.
    CompletedCountExceeded {
        /// Declared task count.
        task_count: usize,
        /// Number of completed tasks.
        completed_count: usize,
    },
    /// Adding failed and panicked task counts overflowed.
    FailureCountOverflow {
        /// Number of tasks that returned their own error.
        failed_count: usize,
        /// Number of tasks that panicked.
        panicked_count: usize,
    },
    /// Adding successful and failed task counts overflowed.
    TerminalCountOverflow {
        /// Number of successful tasks.
        succeeded_count: usize,
        /// Number of failed or panicked tasks.
        failure_count: usize,
    },
    /// Completed tasks do not equal successful plus failed plus panicked tasks.
    TerminalCountMismatch {
        /// Number of completed tasks.
        completed_count: usize,
        /// Number of successful, failed, and panicked tasks combined.
        terminal_count: usize,
        /// Number of successful tasks.
        succeeded_count: usize,
        /// Number of tasks that returned their own error.
        failed_count: usize,
        /// Number of tasks that panicked.
        panicked_count: usize,
    },
    /// Detailed failure records do not match the aggregate failure count.
    FailureDetailCountMismatch {
        /// Expected number of failure details.
        expected: usize,
        /// Actual number of failure details.
        actual: usize,
    },
    /// A failure detail index is outside the declared task range.
    FailureIndexOutOfRange {
        /// Out-of-range failure index.
        index: usize,
        /// Declared task count.
        task_count: usize,
    },
    /// Multiple failure details refer to the same task index.
    DuplicateFailureIndex {
        /// Duplicate failure index.
        index: usize,
    },
    /// Detailed failure variants do not match failed and panicked counters.
    FailureVariantCountMismatch {
        /// Expected number of business failure details.
        expected_failed: usize,
        /// Actual number of business failure details.
        actual_failed: usize,
        /// Expected number of panic failure details.
        expected_panicked: usize,
        /// Actual number of panic failure details.
        actual_panicked: usize,
    },
}

/// Structured result produced by one batch execution.
///
/// The outcome describes the work that actually ran, also when it is
/// attached to a batch-level error.
#[derive(Debug, Clone, PartialEq, Eq)]
pub struct BatchOutcome<E> {
    task_count: usize,
    completed_count: usize,
    succeeded_count: usize,
    failed_count: usize,
    panicked_count: usize,
    termination: BatchTermination,
    elapsed: Duration,
    failures: Vec<BatchTaskFailure<E>>,
}

impl<E> View for BatchOutcome<E> {
    type V = OutcomeParts<E>;

    closed spec fn view(&self) -> OutcomeParts<E> {
        OutcomeParts {
            task_count: self.task_count,
            completed_count: self.completed_count,
            succeeded_count: self.succeeded_count,
            failed_count: self.failed_count,
            panicked_count: self.panicked_count,
            termination: self.termination,
            elapsed: self.elapsed,
            failures: self.failures@,
        }
    }
}

/// Builder that validates counters before producing a [`BatchOutcome`].
#[derive(Debug, Clone, PartialEq, Eq)]
pub struct BatchOutcomeBuilder<E> {
    task_count: usize,
    completed_count: usize,
    succeeded_count: usize,
    failed_count: usize,
    panicked_count: usize,
    termination: BatchTermination,
    elapsed: Duration,
    failures: Vec<BatchTaskFailure<E>>,
}

impl<E> View for BatchOutcomeBuilder<E> {
    type V = OutcomeParts<E>;

    closed spec fn view(&self) -> OutcomeParts<E> {
        OutcomeParts {
            task_count: self.task_count,
            completed_count: self.completed_count,
            succeeded_count: self.succeeded_count,
            failed_count: self.failed_count,
            panicked_count: self.panicked_count,
            termination: self.termination,
            elapsed: self.elapsed,
            failures: self.failures@,
        }
    }
}

impl<E> BatchOutcome<E> {
    /// Creates an outcome holding exactly the builder's parts, without
    /// validating them.
    pub fn new(builder: BatchOutcomeBuilder<E>) -> (r: Self)
        ensures
            r@ == builder@,
    {
        BatchOutcome {
            task_count: builder.task_count,
            completed_count: builder.completed_count,
            succeeded_count: builder.succeeded_count,
            failed_count: builder.failed_count,
            panicked_count: builder.panicked_count,
            termination: builder.termination,
            elapsed: builder.elapsed,
            failures: builder.failures,
        }
    }

    /// Returns the declared task count for this batch.
    pub fn task_count(&self) -> (r: usize)
        ensures
            r == self@.task_count,
    {
        self.task_count
    }

    /// Returns how many tasks reached a terminal outcome.
    pub fn completed_count(&self) -> (r: usize)
        ensures
            r == self@.completed_count,
    {
        self.completed_count
    }

    /// Returns how many tasks completed successfully.
    pub fn succeeded_count(&self) -> (r: usize)
        ensures
            r == self@.succeeded_count,
    {
        self.succeeded_count
    }

    /// Returns how many tasks returned their own error.
    pub fn failed_count(&self) -> (r: usize)
        ensures
            r == self@.failed_count,
    {
        self.failed_count
    }

    /// Returns how many tasks panicked.
    pub fn panicked_count(&self) -> (r: usize)
        ensures
            r == self@.panicked_count,
    {
        self.panicked_count
    }

    /// Returns the total number of task failures, `failed_count +
    /// panicked_count`.
    pub fn failure_count(&self) -> (r: usize)
        requires
            self@.failed_count + self@.panicked_count <= usize::MAX,
        ensures
            r == self@.failed_count + self@.panicked_count,
    {
        self.failed_count + self.panicked_count
    }

    /// Returns how the executor stopped consuming its task source.
    pub fn termination(&self) -> (r: BatchTermination)
        ensures
            r == self@.termination,
    {
        self.termination
    }

    /// Returns the total elapsed wall-clock time.
    pub fn elapsed(&self) -> (r: Duration)
        ensures
            r == self@.elapsed,
    {
        self.elapsed
    }

    /// Returns the detailed failure records collected during execution.
    pub fn failures(&self) -> (r: &[BatchTaskFailure<E>])
        ensures
            r@ == self@.failures,
    {
        self.failures.as_slice()
    }

    /// Returns whether every declared task completed and none failed or
    /// panicked.
    pub fn is_success(&self) -> (r: bool)
        ensures
            r == (self@.completed_count == self@.task_count && self@.failed_count == 0
                && self@.panicked_count == 0),
    {
        self.completed_count == self.task_count && self.failed_count == 0 && self.panicked_count == 0
    }

    /// Consumes this outcome and returns its failure list.
    pub fn into_failures(self) -> (r: Vec<BatchTaskFailure<E>>)
        ensures
            r@ == self@.failures,
    {
        self.failures
    }
}

impl<E> BatchOutcomeBuilder<E> {
    /// Creates a builder for `task_count` declared tasks with zero counters,
    /// no failure records, a zero elapsed time and `Finished` termination.
    pub fn builder(task_count: usize) -> (r: Self)
        ensures
            r@.task_count == task_count,
            r@.completed_count == 0,
            r@.succeeded_count == 0,
            r@.failed_count == 0,
            r@.panicked_count == 0,
            r@.termination == BatchTermination::Finished,
            r@.elapsed == seconds(0),
            r@.failures == Seq::<BatchTaskFailure<E>>::empty(),
    {
        BatchOutcomeBuilder {
            task_count,
            completed_count: 0,
            succeeded_count: 0,
            failed_count: 0,
            panicked_count: 0,
            termination: BatchTermination::Finished,
            elapsed: duration_from_secs(0),
            failures: Vec::new(),
        }
    }

    /// Sets the completed task count.
    pub fn completed_count(self, completed_count: usize) -> (r: Self)
        ensures
            r@ == (OutcomeParts { completed_count, ..self@ }),
    {
        BatchOutcomeBuilder { completed_count, ..self }
    }

    /// Sets the successful task count.
    pub fn succeeded_count(self, succeeded_count: usize) -> (r: Self)
        ensures
            r@ == (OutcomeParts { succeeded_count, ..self@ }),
    {
        BatchOutcomeBuilder { succeeded_count, ..self }
    }

    /// Sets the count of tasks that returned their own error.
    pub fn failed_count(self, failed_count: usize) -> (r: Self)
        ensures
            r@ == (OutcomeParts { failed_count, ..self@ }),
    {
        BatchOutcomeBuilder { failed_count, ..self }
    }

    /// Sets the count of tasks that panicked.
    pub fn panicked_count(self, panicked_count: usize) -> (r: Self)
        ensures
            r@ == (OutcomeParts { panicked_count, ..self@ }),
    {
        BatchOutcomeBuilder { panicked_count, ..self }
    }

    /// Sets how the executor stopped consuming its task source.
    pub fn termination(self, termination: BatchTermination) -> (r: Self)
        ensures
            r@ == (OutcomeParts { termination, ..self@ }),
    {
        BatchOutcomeBuilder { termination, ..self }
    }

    /// Sets the elapsed wall-clock time.
    pub fn elapsed(self, elapsed: Duration) -> (r: Self)
        ensures
            r@ == (OutcomeParts { elapsed, ..self@ }),
    {
        BatchOutcomeBuilder { elapsed, ..self }
    }

    /// Sets the failure records.
    pub fn failures(self, failures: Vec<BatchTaskFailure<E>>) -> (r: Self)
        ensures
            r@ == (OutcomeParts { failures: failures@, ..self@ }),
    {
        BatchOutcomeBuilder { failures, ..self }
    }

    /// Validates the counters against each other and against the failure
    /// records; on success returns the builder with its failure records
    /// sorted stably by task index.
    pub fn validate(self) -> (r: Result<Self, BatchOutcomeBuildError>)
        ensures
            match r {
                Ok(b) => {
                    &&& outcome_build_error(self@) is None
                    &&& b@ == (OutcomeParts { failures: sorted_by_index(self@.failures), ..self@ })
                    &&& is_valid_outcome(b@)
                },
                Err(e) => outcome_build_error(self@) == Some(e),
            },
    {
        let checked = validate_outcome_invariants(
            self.task_count,
            self.completed_count,
            self.succeeded_count,
            self.failed_count,
            self.panicked_count,
            self.failures.as_slice(),
        );
        match checked {
            Err(e) => Err(e),
            Ok(()) => {
                let ghost before = self@;
                let BatchOutcomeBuilder {
                    task_count,
                    completed_count,
                    succeeded_count,
                    failed_count,
                    panicked_count,
                    termination,
                    elapsed,
                    failures,
                } = self;
                let sorted = sort_by_index(failures);
                let b = BatchOutcomeBuilder {
                    task_count,
                    completed_count,
                    succeeded_count,
                    failed_count,
                    panicked_count,
                    termination,
                    elapsed,
                    failures: sorted,
                };
                proof {
                    lemma_validity_survives_reordering(before, b@);
                }
                Ok(b)
            },
        }
    }

    /// Validates this builder and returns the outcome it describes.
    pub fn build(self) -> (r: Result<BatchOutcome<E>, BatchOutcomeBuildError>)
        ensures
            match r {
                Ok(o) => {
                    &&& outcome_build_error(self@) is None
                    &&& o@ == (OutcomeParts { failures: sorted_by_index(self@.failures), ..self@ })
                    &&& is_valid_outcome(o@)
                },
                Err(e) => outcome_build_error(self@) == Some(e),
            },
    {
        match self.validate() {
            Ok(b) => Ok(BatchOutcome::new(b)),
            Err(e) => Err(e),
        }
    }
}

/// A validated outcome's counters add up: every completed task is a
/// success, a task-returned error or a panic; no more tasks completed than
/// were declared; there is one failure record per failed or panicked task,
/// with the right number of each kind; and the records carry distinct
/// indexes within the declared range.
pub proof fn lemma_valid_counters_add_up<E>(p: OutcomeParts<E>)
    requires
        outcome_build_error(p) is None,
    ensures
        p.succeeded_count + p.failed_count + p.panicked_count == p.completed_count,
        p.completed_count <= p.task_count,
        p.failures.len() == p.failed_count + p.panicked_count,
        count_failed(p.failures) == p.failed_count,
        forall|j: int| 0 <= j < p.failures.len() ==> p.failures[j].spec_index() < p.task_count,
        crate::sort::has_distinct_keys(p.failures),
{
    lemma_no_bad_failure_means_distinct(p.failures, p.task_count);
}

/// Reordering valid failure records keeps the counters' validation result,
/// since no check depends on the order of the records apart from which
/// out-of-range index is reported first, and valid records have none.
proof fn lemma_validity_survives_reordering<E>(before: OutcomeParts<E>, after: OutcomeParts<E>)
    requires
        outcome_build_error(before) is None,
        after == (OutcomeParts { failures: sorted_by_index(before.failures), ..before }),
    ensures
        is_valid_outcome(after),
{
    crate::sort::lemma_sorted_by_index(before.failures);
    lemma_count_failed_sorted(before.failures);
    lemma_no_bad_failure_means_distinct(before.failures, before.task_count);
    lemma_in_range_multiset(before.failures, after.failures, before.task_count);
    crate::sort::lemma_sorted_distinct(before.failures);
    lemma_distinct_in_range_is_good(after.failures, after.task_count);
}

/// Inserting a record anywhere adds one to the count of task-returned
/// errors exactly when the record holds one.
proof fn lemma_count_failed_insert<E>(s: Seq<BatchTaskFailure<E>>, p: int, x: BatchTaskFailure<E>)
    requires
        0 <= p <= s.len(),
    ensures
        count_failed(s.insert(p, x)) == count_failed(s) + if x.spec_error() is Failed {
            1nat
        } else {
            0nat
        },
    decreases s.len(),
{
    if p == s.len() {
        assert(s.insert(p, x) == s.push(x));
        assert(s.push(x).drop_last() == s);
    } else {
        lemma_count_failed_insert(s.drop_last(), p, x);
        assert(s.insert(p, x).drop_last() == s.drop_last().insert(p, x));
        assert(s.insert(p, x).last() == s.last());
    }
}

/// The stable sort keeps the count of task-returned errors.
proof fn lemma_count_failed_sorted<E>(s: Seq<BatchTaskFailure<E>>)
    ensures
        count_failed(sorted_by_index(s)) == count_failed(s),
    decreases s.len(),
{
    if s.len() > 0 {
        lemma_count_failed_sorted(s.drop_last());
        crate::sort::lemma_sorted_by_index(s.drop_last());
        let t = sorted_by_index(s.drop_last());
        crate::sort::lemma_insert_position_bounds(t, s.last().spec_index());
        lemma_count_failed_insert(t, crate::sort::insert_position(t, s.last().key()) as int, s.last());
    }
}

/// Any out-of-range index means there is a first one.
/// Any bad failure means there is a first one.
proof fn lemma_first_bad_failure_exists<E>(s: Seq<BatchTaskFailure<E>>, task_count: usize, j: int)
    requires
        0 <= j < s.len(),
        is_bad_failure(s, task_count, j),
    ensures
        exists|k: int| first_bad_failure_at(s, task_count, k),
    decreases j,
{
    if forall|i: int| 0 <= i < j ==> !is_bad_failure(s, task_count, i) {
        assert(first_bad_failure_at(s, task_count, j));
    } else {
        let i = choose|i: int| 0 <= i < j && is_bad_failure(s, task_count, i);
        lemma_first_bad_failure_exists(s, task_count, i);
    }
}

/// Failure records with no bad record have in-range, distinct indexes.
pub proof fn lemma_no_bad_failure_means_distinct<E>(s: Seq<BatchTaskFailure<E>>, task_count: usize)
    requires
        !exists|k: int| first_bad_failure_at(s, task_count, k),
    ensures
        forall|j: int| 0 <= j < s.len() ==> s[j].spec_index() < task_count,
        crate::sort::has_distinct_keys(s),
{
    assert forall|j: int| 0 <= j < s.len() implies !is_bad_failure(s, task_count, j) by {
        if is_bad_failure(s, task_count, j) {
            lemma_first_bad_failure_exists(s, task_count, j);
        }
    }
    assert forall|j: int| 0 <= j < s.len() implies s[j].spec_index() < task_count by {
        assert(!is_bad_failure(s, task_count, j));
    }
    assert forall|i: int, j: int| 0 <= i < j < s.len() implies s[i].key() != s[j].key() by {
        assert(!is_bad_failure(s, task_count, j));
    }
}

/// Failure records with in-range, distinct indexes have no bad record.
pub proof fn lemma_distinct_in_range_is_good<E>(s: Seq<BatchTaskFailure<E>>, task_count: usize)
    requires
        forall|j: int| 0 <= j < s.len() ==> s[j].spec_index() < task_count,
        crate::sort::has_distinct_keys(s),
    ensures
        !exists|k: int| first_bad_failure_at(s, task_count, k),
{
    assert forall|k: int| !first_bad_failure_at(s, task_count, k) by {
        if 0 <= k < s.len() {
            assert forall|j: int| 0 <= j < k implies s[j].spec_index() != s[k].spec_index() by {
                assert(s[j].key() != s[k].key());
            }
        }
    }
}

proof fn lemma_in_range_multiset<E>(a: Seq<BatchTaskFailure<E>>, b: Seq<BatchTaskFailure<E>>, task_count: usize)
    requires
        a.to_multiset() == b.to_multiset(),
        forall|j: int| 0 <= j < a.len() ==> a[j].spec_index() < task_count,
    ensures
        forall|j: int| 0 <= j < b.len() ==> b[j].spec_index() < task_count,
{
    assert forall|j: int| 0 <= j < b.len() implies b[j].spec_index() < task_count by {
        vstd::seq_lib::to_multiset_contains(b, b[j]);
        vstd::seq_lib::to_multiset_contains(a, b[j]);
        let k = choose|k: int| 0 <= k < a.len() && a[k] == b[j];
    }
}

/// Checks the counters against each other and against the failure records.
fn validate_outcome_invariants<E>(
    task_count: usize,
    completed_count: usize,
    succeeded_count: usize,
    failed_count: usize,
    panicked_count: usize,
    failures: &[BatchTaskFailure<E>],
) -> (r: Result<(), BatchOutcomeBuildError>)
    ensures
        r matches Err(e) ==> outcome_build_error(
            OutcomeParts {
                task_count,
                completed_count,
                succeeded_count,
                failed_count,
                panicked_count,
                termination: BatchTermination::Finished,
                elapsed: arbitrary(),
                failures: failures@,
            },
        ) == Some(e),
        r is Ok ==> outcome_build_error(
            OutcomeParts {
                task_count,
                completed_count,
                succeeded_count,
                failed_count,
                panicked_count,
                termination: BatchTermination::Finished,
                elapsed: arbitrary(),
                failures: failures@,
            },
        ) is None,
{
    let failure_count = match failed_count.checked_add(panicked_count) {
        Some(c) => c,
        None => {
            return Err(BatchOutcomeBuildError::FailureCountOverflow { failed_count, panicked_count });
        },
    };
    let terminal_count = match succeeded_count.checked_add(failure_count) {
        Some(c) => c,
        None => {
            return Err(BatchOutcomeBuildError::TerminalCountOverflow { succeeded_count, failure_count });
        },
    };
    if completed_count > task_count {
        return Err(BatchOutcomeBuildError::CompletedCountExceeded { task_count, completed_count });
    }
    if terminal_count != completed_count {
        return Err(
            BatchOutcomeBuildError::TerminalCountMismatch {
                completed_count,
                terminal_count,
                succeeded_count,
                failed_count,
                panicked_count,
            },
        );
    }
    if failures.len() != failure_count {
        return Err(
            BatchOutcomeBuildError::FailureDetailCountMismatch {
                expected: failure_count,
                actual: failures.len(),
            },
        );
    }
    validate_failure_details(task_count, failed_count, panicked_count, failures)
}

/// Checks that every failure index is in range and unique, and that the
/// variants match the failed and panicked counters.
fn validate_failure_details<E>(
    task_count: usize,
    failed_count: usize,
    panicked_count: usize,
    failures: &[BatchTaskFailure<E>],
) -> (r: Result<(), BatchOutcomeBuildError>)
    ensures
        match r {
            Err(e) => {
                if exists|k: int| first_bad_failure_at(failures@, task_count, k) {
                    let k = choose|k: int| first_bad_failure_at(failures@, task_count, k);
                    e == bad_failure_error(failures@, task_count, k)
                } else {
                    &&& (count_failed(failures@) != failed_count || failures@.len() - count_failed(failures@)
                        != panicked_count)
                    &&& e == BatchOutcomeBuildError::FailureVariantCountMismatch {
                        expected_failed: failed_count,
                        actual_failed: count_failed(failures@) as usize,
                        expected_panicked: panicked_count,
                        actual_panicked: (failures@.len() - count_failed(failures@)) as usize,
                    }
                }
            },
            Ok(()) => {
                &&& !exists|k: int| first_bad_failure_at(failures@, task_count, k)
                &&& count_failed(failures@) == failed_count
                &&& failures@.len() - count_failed(failures@) == panicked_count
            },
        },
{
    let mut observed_failed_count: usize = 0;
    let mut observed_panicked_count: usize = 0;
    let n = failures.len();
    let mut i: usize = 0;
    while i < n
        invariant
            i <= n,
            n == failures@.len(),
            observed_failed_count == count_failed(failures@.take(i as int)),
            observed_failed_count + observed_panicked_count == i,
            forall|j: int| 0 <= j < i ==> !is_bad_failure(failures@, task_count, j),
        decreases n - i,
    {
        let failure = &failures[i];
        let index = failure.index();
        proof {
            let t = failures@.take(i + 1);
            assert(t.drop_last() == failures@.take(i as int));
            assert(t.last() == failures@[i as int]);
        }
        if index >= task_count {
            proof {
                lemma_choose_first_bad_failure(failures@, task_count, i as int);
            }
            return Err(BatchOutcomeBuildError::FailureIndexOutOfRange { index, task_count });
        }
        let mut m: usize = 0;
        while m < i
            invariant
                m <= i,
                i < n,
                n == failures@.len(),
                index == failures@[i as int].spec_index(),
                index < task_count,
                forall|j: int| 0 <= j < m ==> failures@[j].spec_index() != index,
                forall|j: int| 0 <= j < i ==> !is_bad_failure(failures@, task_count, j),
            decreases i - m,
        {
            if failures[m].index() == index {
                proof {
                    assert(is_bad_failure(failures@, task_count, i as int));
                    lemma_choose_first_bad_failure(failures@, task_count, i as int);
                }
                return Err(BatchOutcomeBuildError::DuplicateFailureIndex { index });
            }
            m += 1;
        }
        assert(!is_bad_failure(failures@, task_count, i as int));
        match failure.error() {
            BatchTaskError::Failed(_) => observed_failed_count += 1,
            BatchTaskError::Panicked { .. } => observed_panicked_count += 1,
        }
        i += 1;
    }
    proof {
        assert(failures@.take(n as int) == failures@);
        assert forall|k: int| !first_bad_failure_at(failures@, task_count, k) by {
            if 0 <= k < n {
                assert(!is_bad_failure(failures@, task_count, k));
            }
        }
    }
    if observed_failed_count != failed_count || observed_panicked_count != panicked_count {
        return Err(
            BatchOutcomeBuildError::FailureVariantCountMismatch {
                expected_failed: failed_count,
                actual_failed: observed_failed_count,
                expected_panicked: panicked_count,
                actual_panicked: observed_panicked_count,
            },
        );
    }
    Ok(())
}

/// At a bad failure whose predecessors are all good, the chosen first bad
/// failure is that one.
proof fn lemma_choose_first_bad_failure<E>(s: Seq<BatchTaskFailure<E>>, task_count: usize, i: int)
    requires
        0 <= i < s.len(),
        is_bad_failure(s, task_count, i),
        forall|j: int| 0 <= j < i ==> !is_bad_failure(s, task_count, j),
    ensures
        exists|k: int| first_bad_failure_at(s, task_count, k),
        (choose|k: int| first_bad_failure_at(s, task_count, k)) == i,
{
    assert(first_bad_failure_at(s, task_count, i));
    let k = choose|k: int| first_bad_failure_at(s, task_count, k);
    if k < i {
    } else if k > i {
    }
}

} // verus!
