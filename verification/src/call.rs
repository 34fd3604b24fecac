//! Results of callable batches: indexed successful outputs, their
//! validation against the execution outcome, and callable errors that keep
//! the outputs collected before a batch-level failure.
use std::convert::Infallible;
use vstd::prelude::*;

use crate::error::BatchExecutionError;
use crate::outcome::{BatchOutcome, OutcomeParts};
use crate::sort::{is_index_ordered, sort_by_index, sorted_by_index, IndexedRecord};

verus! {

/// One successful callable output together with its original callable
/// index.
#[derive(Debug, Clone, PartialEq, Eq)]
pub struct BatchCallOutput<R> {
    index: usize,
    value: R,
}

impl<R> BatchCallOutput<R> {
    /// The zero-based callable index.
    pub closed spec fn spec_index(&self) -> usize {
        self.index
    }

    /// The successful value.
    pub closed spec fn spec_value(&self) -> R {
        self.value
    }

    /// Creates one indexed callable output.
    pub fn new(index: usize, value: R) -> (r: Self)
        ensures
            r.spec_index() == index,
            r.spec_value() == value,
            r == output_from_pair((index, value)),
    {
        BatchCallOutput { index, value }
    }

    /// Returns the zero-based callable index.
    pub fn index(&self) -> (r: usize)
        ensures
            r == self.spec_index(),
    {
        self.index
    }

    /// Returns a reference to the successful callable value.
    pub fn value(&self) -> (r: &R)
        ensures
            *r == self.spec_value(),
    {
        &self.value
    }

    /// Consumes the output and returns its successful value.
    pub fn into_value(self) -> (r: R)
        ensures
            r == self.spec_value(),
    {
        self.value
    }

    /// Consumes the output and returns its index and value.
    pub fn into_parts(self) -> (r: (usize, R))
        ensures
            r == (self.spec_index(), self.spec_value()),
    {
        (self.index, self.value)
    }
}

impl<R> IndexedRecord for BatchCallOutput<R> {
    open spec fn key(&self) -> usize {
        self.spec_index()
    }

    fn record_index(&self) -> (r: usize) {
        self.index
    }
}

/// Taking an output apart and putting it together again gives back the same
/// output, and building one from an index and a value keeps both.
pub proof fn lemma_call_output_round_trip<R>(index: usize, value: R, output: BatchCallOutput<R>)
    ensures
        output_from_pair((output.spec_index(), output.spec_value())) == output,
        output_from_pair((index, value)).spec_index() == index,
        output_from_pair((index, value)).spec_value() == value,
{
}

/// The output holding the index and value of `p`.
pub closed spec fn output_from_pair<R>(p: (usize, R)) -> BatchCallOutput<R> {
    BatchCallOutput { index: p.0, value: p.1 }
}

/// Turns index/value pairs collected in any order into outputs sorted by
/// callable index.
pub fn collect_call_outputs<R>(pairs: Vec<(usize, R)>) -> (r: Vec<BatchCallOutput<R>>)
    ensures
        r@ == sorted_by_index(pairs@.map_values(|p: (usize, R)| output_from_pair(p))),
        is_index_ordered(r@),
        r@.len() == pairs@.len(),
        r@.to_multiset() == pairs@.map_values(|p: (usize, R)| output_from_pair(p)).to_multiset(),
{
    let ghost mapped = pairs@.map_values(|p: (usize, R)| output_from_pair(p));
    let mut rest = pairs;
    let mut collected: Vec<BatchCallOutput<R>> = Vec::new();
    let n = rest.len();
    let mut i: usize = 0;
    while i < n
        invariant
            i <= n,
            n == mapped.len(),
            n == pairs@.len(),
            mapped == pairs@.map_values(|p: (usize, R)| output_from_pair(p)),
            rest@ == pairs@.skip(i as int),
            collected@ == mapped.take(i as int),
        decreases n - i,
    {
        let (index, value) = rest.remove(0);
        collected.push(BatchCallOutput::new(index, value));
        proof {
            assert(pairs@[i as int] == (index, value));
            assert(mapped[i as int] == output_from_pair(pairs@[i as int]));
            assert(collected@ =~= mapped.take(i + 1));
            assert(rest@ == pairs@.skip(i + 1));
        }
        i = i + 1;
    }
    proof {
        assert(mapped.take(n as int) == mapped);
    }
    sort_by_index(collected)
}

/// Error returned when sparse callable outputs do not match their execution
/// outcome.
#[derive(Debug, Clone, PartialEq, Eq, Structural)]
pub enum BatchCallResultBuildError {
    /// The number of sparse outputs differs from the successful task count.
    SucceededOutputCountMismatch {
        /// Number of successful callable tasks in the execution outcome.
        succeeded_count: usize,
        /// Number of supplied sparse outputs.
        output_count: usize,
    },
    /// An output index is not strictly greater than the previous index.
    OutputIndexOutOfOrder {
        /// Previous output index.
        previous_index: usize,
        /// Current output index.
        index: usize,
    },
    /// An output index is not below the declared task count.
    OutputIndexOutOfRange {
        /// Original zero-based callable index.
        index: usize,
        /// Declared task count.
        task_count: usize,
    },
    /// An output refers to a task that did not complete.
    OutputIndexNotCompleted {
        /// Original zero-based callable index.
        index: usize,
        /// Number of completed tasks.
        completed_count: usize,
    },
    /// A failed or panicked callable still contains a success output.
    FailureOutputPresent {
        /// Original zero-based callable index.
        index: usize,
    },
}

/// The output at `k` is not above its predecessor, or not below
/// `task_count`, or not below `completed_count`.
pub open spec fn is_bad_output<R>(
    outputs: Seq<BatchCallOutput<R>>,
    task_count: usize,
    completed_count: usize,
    k: int,
) -> bool {
    ||| (k > 0 && outputs[k].spec_index() <= outputs[k - 1].spec_index())
    ||| outputs[k].spec_index() >= task_count
    ||| outputs[k].spec_index() >= completed_count
}

/// `k` is the first bad output position.
pub open spec fn first_bad_output_at<R>(outputs: Seq<BatchCallOutput<R>>, task_count: usize, completed_count: usize, k: int) -> bool {
    &&& 0 <= k < outputs.len()
    &&& is_bad_output(outputs, task_count, completed_count, k)
    &&& forall|j: int| 0 <= j < k ==> !is_bad_output(outputs, task_count, completed_count, j)
}

/// Some output carries the callable index `index`.
pub open spec fn has_output_index<R>(outputs: Seq<BatchCallOutput<R>>, index: usize) -> bool {
    exists|m: int| 0 <= m < outputs.len() && outputs[m].spec_index() == index
}

/// `j` is the first failure record whose task index also has an output.
pub open spec fn first_failure_with_output_at<R, E>(
    failures: Seq<crate::task::BatchTaskFailure<E>>,
    outputs: Seq<BatchCallOutput<R>>,
    j: int,
) -> bool {
    &&& 0 <= j < failures.len()
    &&& has_output_index(outputs, failures[j].spec_index())
    &&& forall|i: int| 0 <= i < j ==> !has_output_index(outputs, failures[i].spec_index())
}

/// The error that checking `outputs` against an outcome reports, or `None`
/// when they agree. The checks run in this order: for each output in turn,
/// its index must be above the previous one, below the task count and
/// below the completed count; then
/// for each failure in turn, no output may carry its index; finally the
/// number of outputs must equal the successful task count.
pub open spec fn call_result_build_error<R, E>(outcome: OutcomeParts<E>, outputs: Seq<BatchCallOutput<R>>) -> Option<
    BatchCallResultBuildError,
> {
    if exists|k: int| first_bad_output_at(outputs, outcome.task_count, outcome.completed_count, k) {
        let k = choose|k: int| first_bad_output_at(outputs, outcome.task_count, outcome.completed_count, k);
        if k > 0 && outputs[k].spec_index() <= outputs[k - 1].spec_index() {
            Some(BatchCallResultBuildError::OutputIndexOutOfOrder {
                previous_index: outputs[k - 1].spec_index(),
                index: outputs[k].spec_index(),
            })
        } else if outputs[k].spec_index() >= outcome.task_count {
            Some(BatchCallResultBuildError::OutputIndexOutOfRange {
                index: outputs[k].spec_index(),
                task_count: outcome.task_count,
            })
        } else {
            Some(BatchCallResultBuildError::OutputIndexNotCompleted {
                index: outputs[k].spec_index(),
                completed_count: outcome.completed_count,
            })
        }
    } else if exists|j: int| first_failure_with_output_at(outcome.failures, outputs, j) {
        let j = choose|j: int| first_failure_with_output_at(outcome.failures, outputs, j);
        Some(BatchCallResultBuildError::FailureOutputPresent { index: outcome.failures[j].spec_index() })
    } else if outputs.len() != outcome.succeeded_count {
        Some(BatchCallResultBuildError::SucceededOutputCountMismatch {
            succeeded_count: outcome.succeeded_count,
            output_count: outputs.len() as usize,
        })
    } else {
        None
    }
}

/// Outputs and outcome agree: output indexes strictly increase and stay
/// below the task count and the completed count, no failed task has an
/// output, and there is one output per successful task.
pub open spec fn outputs_agree<R, E>(outcome: OutcomeParts<E>, outputs: Seq<BatchCallOutput<R>>) -> bool {
    &&& forall|i: int, j: int|
        0 <= i < j < outputs.len() ==> outputs[i].spec_index() < outputs[j].spec_index()
    &&& forall|i: int| 0 <= i < outputs.len() ==> outputs[i].spec_index() < outcome.task_count
    &&& forall|i: int| 0 <= i < outputs.len() ==> outputs[i].spec_index() < outcome.completed_count
    &&& forall|j: int|
        0 <= j < outcome.failures.len() ==> !has_output_index(outputs, outcome.failures[j].spec_index())
    &&& outputs.len() == outcome.succeeded_count
}

/// Any bad output means there is a first one.
proof fn lemma_first_bad_output_exists<R>(outputs: Seq<BatchCallOutput<R>>, task_count: usize, completed_count: usize, k: int)
    requires
        0 <= k < outputs.len(),
        is_bad_output(outputs, task_count, completed_count, k),
    ensures
        exists|f: int| first_bad_output_at(outputs, task_count, completed_count, f),
    decreases k,
{
    if forall|j: int| 0 <= j < k ==> !is_bad_output(outputs, task_count, completed_count, j) {
        assert(first_bad_output_at(outputs, task_count, completed_count, k));
    } else {
        let j = choose|j: int| 0 <= j < k && is_bad_output(outputs, task_count, completed_count, j);
        lemma_first_bad_output_exists(outputs, task_count, completed_count, j);
    }
}

/// Any failure with an output means there is a first one.
proof fn lemma_first_failure_with_output_exists<R, E>(
    failures: Seq<crate::task::BatchTaskFailure<E>>,
    outputs: Seq<BatchCallOutput<R>>,
    j: int,
)
    requires
        0 <= j < failures.len(),
        has_output_index(outputs, failures[j].spec_index()),
    ensures
        exists|f: int| first_failure_with_output_at(failures, outputs, f),
    decreases j,
{
    if forall|i: int| 0 <= i < j ==> !has_output_index(outputs, failures[i].spec_index()) {
        assert(first_failure_with_output_at(failures, outputs, j));
    } else {
        let i = choose|i: int| 0 <= i < j && has_output_index(outputs, failures[i].spec_index());
        lemma_first_failure_with_output_exists(failures, outputs, i);
    }
}

/// When validation reports no error, outputs and outcome agree.
pub proof fn lemma_no_build_error_agrees<R, E>(outcome: OutcomeParts<E>, outputs: Seq<BatchCallOutput<R>>)
    requires
        call_result_build_error(outcome, outputs) is None,
    ensures
        outputs_agree(outcome, outputs),
{
    assert forall|k: int| 0 <= k < outputs.len() implies !is_bad_output(outputs, outcome.task_count, outcome.completed_count, k) by {
        if is_bad_output(outputs, outcome.task_count, outcome.completed_count, k) {
            lemma_first_bad_output_exists(outputs, outcome.task_count, outcome.completed_count, k);
        }
    }
    assert forall|i: int, j: int| 0 <= i < j < outputs.len() implies outputs[i].spec_index()
        < outputs[j].spec_index() by {
        lemma_increasing(outputs, outcome.task_count, outcome.completed_count, i, j);
    }
    assert forall|j: int| 0 <= j < outcome.failures.len() implies !has_output_index(
        outputs,
        outcome.failures[j].spec_index(),
    ) by {
        if has_output_index(outputs, outcome.failures[j].spec_index()) {
            lemma_first_failure_with_output_exists(outcome.failures, outputs, j);
        }
    }
    assert(outputs.len() == outcome.succeeded_count);
    assert forall|i: int| 0 <= i < outputs.len() implies outputs[i].spec_index() < outcome.task_count
        && outputs[i].spec_index() < outcome.completed_count by {
        assert(!is_bad_output(outputs, outcome.task_count, outcome.completed_count, i));
    }
}

/// Outputs that agree with an outcome pass validation: agreement is exactly
/// the absence of a validation error.
pub proof fn lemma_agreeing_outputs_build<R, E>(outcome: OutcomeParts<E>, outputs: Seq<BatchCallOutput<R>>)
    requires
        outputs_agree(outcome, outputs),
    ensures
        call_result_build_error(outcome, outputs) is None,
{
    assert forall|k: int| !first_bad_output_at(outputs, outcome.task_count, outcome.completed_count, k) by {
        if 0 <= k < outputs.len() {
            if k > 0 {
                assert(outputs[k - 1].spec_index() < outputs[k].spec_index());
            }
        }
    }
    assert forall|j: int| !first_failure_with_output_at(outcome.failures, outputs, j) by {
        if 0 <= j < outcome.failures.len() {
            assert(!has_output_index(outputs, outcome.failures[j].spec_index()));
        }
    }
}

proof fn lemma_increasing<R>(outputs: Seq<BatchCallOutput<R>>, task_count: usize, completed_count: usize, i: int, j: int)
    requires
        0 <= i < j < outputs.len(),
        forall|k: int| 0 <= k < outputs.len() ==> !is_bad_output(outputs, task_count, completed_count, k),
    ensures
        outputs[i].spec_index() < outputs[j].spec_index(),
    decreases j - i,
{
    assert(!is_bad_output(outputs, task_count, completed_count, j));
    if i < j - 1 {
        lemma_increasing(outputs, task_count, completed_count, i, j - 1);
    }
}

/// Result of a callable batch: its execution outcome and the successful
/// outputs sorted by callable index.
#[derive(Debug, Clone, PartialEq, Eq)]
pub struct BatchCallResult<R, E> {
    outcome: BatchOutcome<E>,
    outputs: Vec<BatchCallOutput<R>>,
}

impl<R, E> BatchCallResult<R, E> {
    /// The execution outcome.
    pub closed spec fn spec_outcome(&self) -> BatchOutcome<E> {
        self.outcome
    }

    /// The successful outputs.
    pub closed spec fn spec_outputs(&self) -> Seq<BatchCallOutput<R>> {
        self.outputs@
    }

    /// Creates a callable batch result after checking that `outputs` agree
    /// with `outcome`.
    pub fn try_new(outcome: BatchOutcome<E>, outputs: Vec<BatchCallOutput<R>>) -> (r: Result<
        Self,
        BatchCallResultBuildError,
    >)
        ensures
            match r {
                Ok(res) => {
                    &&& call_result_build_error(outcome@, outputs@) is None
                    &&& outputs_agree(outcome@, outputs@)
                    &&& res.spec_outcome() == outcome
                    &&& res.spec_outputs() == outputs@
                },
                Err(e) => call_result_build_error(outcome@, outputs@) == Some(e),
            },
    {
        let task_count = outcome.task_count();
        let completed_count = outcome.completed_count();
        let n = outputs.len();
        let mut i: usize = 0;
        while i < n
            invariant
                i <= n,
                n == outputs@.len(),
                task_count == outcome@.task_count,
                completed_count == outcome@.completed_count,
                forall|j: int| 0 <= j < i ==> !is_bad_output(outputs@, task_count, completed_count, j),
            decreases n - i,
        {
            let index = outputs[i].index();
            if i > 0 {
                let previous_index = outputs[i - 1].index();
                if index <= previous_index {
                    proof {
                        lemma_choose_first_bad(outputs@, task_count, completed_count, i as int);
                    }
                    return Err(BatchCallResultBuildError::OutputIndexOutOfOrder { previous_index, index });
                }
            }
            if index >= task_count {
                proof {
                    lemma_choose_first_bad(outputs@, task_count, completed_count, i as int);
                }
                return Err(BatchCallResultBuildError::OutputIndexOutOfRange { index, task_count });
            }
            if index >= completed_count {
                proof {
                    lemma_choose_first_bad(outputs@, task_count, completed_count, i as int);
                }
                return Err(BatchCallResultBuildError::OutputIndexNotCompleted { index, completed_count });
            }
            i += 1;
        }
        proof {
            assert forall|k: int| !first_bad_output_at(outputs@, task_count, completed_count, k) by {
                if 0 <= k < n {
                    assert(!is_bad_output(outputs@, task_count, completed_count, k));
                }
            }
        }
        let failures = outcome.failures();
        let nf = failures.len();
        let mut j: usize = 0;
        while j < nf
            invariant
                j <= nf,
                nf == outcome@.failures.len(),
                failures@ == outcome@.failures,
                n == outputs@.len(),
                forall|k: int| !first_bad_output_at(outputs@, outcome@.task_count, outcome@.completed_count, k),
                forall|i: int| 0 <= i < j ==> !has_output_index(outputs@, failures@[i].spec_index()),
            decreases nf - j,
        {
            let failure_index = failures[j].index();
            let mut m: usize = 0;
            while m < n
                invariant
                    m <= n,
                    n == outputs@.len(),
                    j < nf,
                    nf == outcome@.failures.len(),
                    failures@ == outcome@.failures,
                    forall|k: int| !first_bad_output_at(outputs@, outcome@.task_count, outcome@.completed_count, k),
                    forall|i: int| 0 <= i < j ==> !has_output_index(outputs@, failures@[i].spec_index()),
                    failure_index == failures@[j as int].spec_index(),
                    forall|k: int| 0 <= k < m ==> outputs@[k].spec_index() != failure_index,
                decreases n - m,
            {
                if outputs[m].index() == failure_index {
                    proof {
                        assert(has_output_index(outputs@, failures@[j as int].spec_index()));
                        assert(first_failure_with_output_at(outcome@.failures, outputs@, j as int));
                        let f = choose|f: int| first_failure_with_output_at(outcome@.failures, outputs@, f);
                        assert(f == j) by {
                            if f < j {
                            } else if f > j {
                            }
                        }
                    }
                    return Err(BatchCallResultBuildError::FailureOutputPresent { index: failure_index });
                }
                m += 1;
            }
            j += 1;
        }
        proof {
            assert forall|f: int| !first_failure_with_output_at(outcome@.failures, outputs@, f) by {
                if 0 <= f < nf {
                    assert(!has_output_index(outputs@, failures@[f].spec_index()));
                }
            }
        }
        if n != outcome.succeeded_count() {
            return Err(
                BatchCallResultBuildError::SucceededOutputCountMismatch {
                    succeeded_count: outcome.succeeded_count(),
                    output_count: n,
                },
            );
        }
        proof {
            lemma_no_build_error_agrees(outcome@, outputs@);
        }
        Ok(BatchCallResult { outcome, outputs })
    }

    /// Returns the execution outcome for the callable batch.
    pub fn outcome(&self) -> (r: &BatchOutcome<E>)
        ensures
            *r == self.spec_outcome(),
    {
        &self.outcome
    }

    /// Returns the successful outputs sorted by callable position.
    pub fn outputs(&self) -> (r: &[BatchCallOutput<R>])
        ensures
            r@ == self.spec_outputs(),
    {
        self.outputs.as_slice()
    }

    /// Consumes this result and returns the execution outcome.
    pub fn into_outcome(self) -> (r: BatchOutcome<E>)
        ensures
            r == self.spec_outcome(),
    {
        self.outcome
    }

    /// Consumes this result and returns the successful outputs.
    pub fn into_outputs(self) -> (r: Vec<BatchCallOutput<R>>)
        ensures
            r@ == self.spec_outputs(),
    {
        self.outputs
    }

    /// Consumes this result and returns both stored parts.
    pub fn into_parts(self) -> (r: (BatchOutcome<E>, Vec<BatchCallOutput<R>>))
        ensures
            r.0 == self.spec_outcome(),
            r.1@ == self.spec_outputs(),
    {
        (self.outcome, self.outputs)
    }
}

/// At a bad position whose predecessors are all good, the chosen first bad
/// position is that one.
proof fn lemma_choose_first_bad<R>(outputs: Seq<BatchCallOutput<R>>, task_count: usize, completed_count: usize, i: int)
    requires
        0 <= i < outputs.len(),
        is_bad_output(outputs, task_count, completed_count, i),
        forall|j: int| 0 <= j < i ==> !is_bad_output(outputs, task_count, completed_count, j),
    ensures
        exists|k: int| first_bad_output_at(outputs, task_count, completed_count, k),
        (choose|k: int| first_bad_output_at(outputs, task_count, completed_count, k)) == i,
{
    assert(first_bad_output_at(outputs, task_count, completed_count, i));
    let k = choose|k: int| first_bad_output_at(outputs, task_count, completed_count, k);
    if k < i {
    } else if k > i {
    }
}

/// Batch-level callable error that preserves the successful outputs
/// collected before execution stopped, sorted by callable index.
#[derive(Debug)]
pub struct BatchCallError<R, E, S = Infallible> {
    source: Box<BatchExecutionError<E, S>>,
    outputs: Vec<BatchCallOutput<R>>,
}

impl<R, E, S> BatchCallError<R, E, S> {
    /// The nested batch execution error.
    pub closed spec fn spec_source(&self) -> BatchExecutionError<E, S> {
        *self.source
    }

    /// The preserved successful outputs.
    pub closed spec fn spec_outputs(&self) -> Seq<BatchCallOutput<R>> {
        self.outputs@
    }

    /// Creates a callable error from a batch execution error and sparse
    /// outputs.
    pub fn new(source: BatchExecutionError<E, S>, outputs: Vec<BatchCallOutput<R>>) -> (r: Self)
        ensures
            r.spec_source() == source,
            r.spec_outputs() == outputs@,
    {
        BatchCallError { source: Box::new(source), outputs }
    }

    /// Converts only the scheduler error, preserving all partial outputs and
    /// everything else of the nested error.
    pub fn map_scheduler_error<S2, F: FnOnce(S) -> S2>(self, map: F) -> (r: BatchCallError<R, E, S2>)
        requires
            self.spec_source() matches BatchExecutionError::ScheduleFailed { source, .. } ==> map.requires(
                (source,),
            ),
        ensures
            r.spec_outputs() == self.spec_outputs(),
            r.spec_source().spec_outcome() == self.spec_source().spec_outcome(),
            r.spec_source().spec_progress_report_error() == self.spec_source().spec_progress_report_error(),
            crate::error::is_scheduler_error_mapping(self.spec_source(), r.spec_source(), map),
    {
        let (source, outputs) = self.into_parts();
        BatchCallError::new(source.map_scheduler_error(map), outputs)
    }

    /// Returns the nested batch execution error.
    pub fn source(&self) -> (r: &BatchExecutionError<E, S>)
        ensures
            *r == self.spec_source(),
    {
        &*self.source
    }

    /// Returns the partial execution outcome.
    pub fn outcome(&self) -> (r: &BatchOutcome<E>)
        ensures
            *r == self.spec_source().spec_outcome(),
    {
        self.source.outcome()
    }

    /// Returns the successful outputs collected before the error.
    pub fn outputs(&self) -> (r: &[BatchCallOutput<R>])
        ensures
            r@ == self.spec_outputs(),
    {
        self.outputs.as_slice()
    }

    /// Consumes this error and returns the nested execution error.
    pub fn into_source(self) -> (r: BatchExecutionError<E, S>)
        ensures
            r == self.spec_source(),
    {
        *self.source
    }

    /// Consumes this error and returns the successful outputs.
    pub fn into_outputs(self) -> (r: Vec<BatchCallOutput<R>>)
        ensures
            r@ == self.spec_outputs(),
    {
        self.outputs
    }

    /// Consumes this error and returns both preserved parts.
    pub fn into_parts(self) -> (r: (BatchExecutionError<E, S>, Vec<BatchCallOutput<R>>))
        ensures
            r.0 == self.spec_source(),
            r.1@ == self.spec_outputs(),
    {
        (*self.source, self.outputs)
    }
}

/// The result of a callable batch, given what the execution returned and
/// the outputs collected by index: an outcome goes with the outputs through
/// [`BatchCallResult::try_new`], whose validation error is the outer error;
/// a batch error keeps the outputs in a [`BatchCallError`].
pub fn call_result_of<R, E, S>(
    execution: Result<BatchOutcome<E>, BatchExecutionError<E, S>>,
    outputs: Vec<BatchCallOutput<R>>,
) -> (r: Result<Result<BatchCallResult<R, E>, BatchCallError<R, E, S>>, BatchCallResultBuildError>)
    ensures
        match execution {
            Ok(o) => match call_result_build_error(o@, outputs@) {
                None => r matches Ok(Ok(res)) && res.spec_outcome() == o && res.spec_outputs() == outputs@
                    && outputs_agree(o@, outputs@),
                Some(e) => r matches Err(e2) && e2 == e,
            },
            Err(error) => r matches Ok(Err(ce)) && ce.spec_source() == error && ce.spec_outputs() == outputs@,
        },
{
    match execution {
        Ok(outcome) => match BatchCallResult::try_new(outcome, outputs) {
            Ok(result) => Ok(Ok(result)),
            Err(e) => Err(e),
        },
        Err(error) => Ok(Err(BatchCallError::new(error, outputs))),
    }
}

} // verus!

