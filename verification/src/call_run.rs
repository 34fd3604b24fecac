//! The sequential run of a callable batch: the sequential run's decisions,
//! plus the successful values collected with their task indexes, which
//! always agree with the outcome the run ends with.
use std::time::Duration;
use vstd::prelude::*;

use crate::call::{
    has_output_index, lemma_agreeing_outputs_build, output_from_pair, outputs_agree, BatchCallError,
    BatchCallOutput, BatchCallResult,
};
use crate::error::{BatchExecutionError, ProgressFailure};
use crate::outcome::BatchOutcome;
use crate::policy::TaskFailurePolicy;
use crate::run::{
    final_outcome_parts, is_consistent_run, is_idle_run, is_sequential_completion, SequentialBatchRun, SequentialEnd,
    SequentialRunView, SequentialStep, TerminalReport,
};
use crate::state::TaskRunOutcome;

verus! {

/// What calling one callable produced, as observed by the caller that ran
/// it.
#[derive(Debug)]
pub enum CallRunOutcome<R, E> {
    /// The callable returned its value.
    Succeeded(R),
    /// The callable returned its own error.
    Failed(E),
    /// The callable panicked; `message` holds the panic text when the
    /// payload was a string.
    Panicked {
        /// Captured panic message.
        message: Option<String>,
    },
}

/// The task outcome a call outcome stands for.
pub open spec fn task_outcome_of<R, E>(outcome: CallRunOutcome<R, E>) -> TaskRunOutcome<E> {
    match outcome {
        CallRunOutcome::Succeeded(_) => TaskRunOutcome::Succeeded,
        CallRunOutcome::Failed(e) => TaskRunOutcome::Failed(e),
        CallRunOutcome::Panicked { message } => TaskRunOutcome::Panicked { message },
    }
}

/// The state of a sequential callable run, as the contracts speak of it.
pub ghost struct CallRunView<R, E> {
    /// The sequential run.
    pub run: SequentialRunView<E>,
    /// The successful values collected so far, with their task indexes.
    pub outputs: Seq<BatchCallOutput<R>>,
}

/// The collected outputs agree with the run: their indexes strictly
/// increase, every one belongs to a completed task, there is one per
/// successful task, and no failed task has one.
pub open spec fn is_consistent_call_run<R, E>(v: CallRunView<R, E>) -> bool {
    &&& is_consistent_run(v.run)
    &&& forall|i: int, j: int|
        0 <= i < j < v.outputs.len() ==> v.outputs[i].spec_index() < v.outputs[j].spec_index()
    &&& forall|i: int| 0 <= i < v.outputs.len() ==> v.outputs[i].spec_index() < v.run.state.completed_count
    &&& v.outputs.len() == v.run.state.succeeded_count
    &&& forall|j: int|
        0 <= j < v.run.state.failures.len() ==> !has_output_index(v.outputs, v.run.state.failures[j].spec_index())
}

/// Sequential execution of one callable batch on the caller thread.
pub struct SequentialCallRun<R, E> {
    run: SequentialBatchRun<E>,
    outputs: Vec<BatchCallOutput<R>>,
}

impl<R, E> View for SequentialCallRun<R, E> {
    type V = CallRunView<R, E>;

    closed spec fn view(&self) -> CallRunView<R, E> {
        CallRunView { run: self.run@, outputs: self.outputs@ }
    }
}

impl<R, E> SequentialCallRun<R, E> {
    /// Starts a callable run of `count` declared tasks under
    /// `task_failure_policy`, with no outputs.
    pub fn new(count: usize, task_failure_policy: TaskFailurePolicy) -> (r: Self)
        ensures
            is_consistent_call_run(r@),
            is_idle_run(r@.run),
            r@.run.count == count,
            r@.run.actual_count == 0,
            !r@.run.stopped,
            r@.run.state.failures.len() == 0,
            r@.run.state.completed_count == 0,
            r@.run.state.task_failure_policy == task_failure_policy,
            r@.outputs.len() == 0,
    {
        SequentialCallRun { run: SequentialBatchRun::new(count, task_failure_policy), outputs: Vec::new() }
    }

    /// Returns whether the task failure policy has stopped the run.
    pub fn is_stopped(&self) -> (r: bool)
        ensures
            r == self@.run.stopped,
    {
        self.run.is_stopped()
    }

    /// Records one item pulled from the source and says what to do with it,
    /// as [`SequentialBatchRun::observe_item`] does.
    pub fn observe_item(&mut self) -> (r: SequentialStep)
        requires
            is_consistent_call_run(old(self)@),
            is_idle_run(old(self)@.run),
            !old(self)@.run.stopped,
            old(self)@.run.actual_count <= old(self)@.run.count,
            old(self)@.run.actual_count < usize::MAX,
        ensures
            is_consistent_call_run(final(self)@),
            final(self)@.outputs == old(self)@.outputs,
            final(self)@.run.actual_count == old(self)@.run.actual_count + 1,
            final(self)@.run.state.completed_count == old(self)@.run.state.completed_count,
            final(self)@.run.state.failures == old(self)@.run.state.failures,
            final(self)@.run.state.succeeded_count == old(self)@.run.state.succeeded_count,
            final(self)@.run.state.task_failure_policy == old(self)@.run.state.task_failure_policy,
            final(self)@.run.count == old(self)@.run.count,
            !final(self)@.run.stopped,
            final(self)@.run.actual_count > final(self)@.run.count ==> r == SequentialStep::CountExceeded,
            final(self)@.run.actual_count <= final(self)@.run.count ==> r == (SequentialStep::Run {
                index: old(self)@.run.actual_count,
            }),
    {
        self.run.observe_item()
    }

    /// Records what calling the callable of the last observed item
    /// produced: a value is kept with the item's index; the run records the
    /// outcome. Returns whether the task failure policy now stops the run.
    pub fn record_outcome(&mut self, outcome: CallRunOutcome<R, E>) -> (r: bool)
        requires
            is_consistent_call_run(old(self)@),
            !is_idle_run(old(self)@.run),
            old(self)@.run.actual_count <= old(self)@.run.count,
        ensures
            is_consistent_call_run(final(self)@),
            is_idle_run(final(self)@.run),
            final(self)@.run.count == old(self)@.run.count,
            final(self)@.run.actual_count == old(self)@.run.actual_count,
            final(self)@.run.state.task_failure_policy == old(self)@.run.state.task_failure_policy,
            match outcome {
                CallRunOutcome::Succeeded(value) => final(self)@.outputs == old(self)@.outputs.push(
                    output_from_pair(((old(self)@.run.actual_count - 1) as usize, value)),
                ) && final(self)@.run.state.failures == old(self)@.run.state.failures
                    && final(self)@.run.state.succeeded_count == old(self)@.run.state.succeeded_count + 1,
                _ => final(self)@.outputs == old(self)@.outputs && final(self)@.run.state.failures.drop_last()
                    == old(self)@.run.state.failures && final(self)@.run.state.failures.len()
                    == old(self)@.run.state.failures.len() + 1 && crate::state::leaves_failure(
                    task_outcome_of(outcome),
                    (old(self)@.run.actual_count - 1) as usize,
                    final(self)@.run.state.failures.last(),
                ) && final(self)@.run.state.succeeded_count == old(self)@.run.state.succeeded_count,
            },
            r == final(self)@.run.stopped,
            r == old(self)@.run.state.task_failure_policy.spec_should_stop(
                final(self)@.run.state.failures.len() as int,
            ),
    {
        let ghost old_outputs = self.outputs@;
        let ghost old_failures = self.run@.state.failures;
        let index = self.run.observed_count() - 1;
        let task_outcome = match outcome {
            CallRunOutcome::Succeeded(value) => {
                self.outputs.push(BatchCallOutput::new(index, value));
                TaskRunOutcome::Succeeded
            },
            CallRunOutcome::Failed(e) => TaskRunOutcome::Failed(e),
            CallRunOutcome::Panicked { message } => TaskRunOutcome::Panicked { message },
        };
        let stop = self.run.record_outcome(task_outcome);
        proof {
            let v = self@;
            assert forall|i: int| 0 <= i < v.outputs.len() implies v.outputs[i].spec_index()
                < v.run.state.completed_count by {
                if i < old_outputs.len() {
                    assert(v.outputs[i] == old_outputs[i]);
                }
            }
            assert forall|i: int, j: int| 0 <= i < j < v.outputs.len() implies v.outputs[i].spec_index()
                < v.outputs[j].spec_index() by {
                if j < old_outputs.len() {
                    assert(v.outputs[i] == old_outputs[i]);
                    assert(v.outputs[j] == old_outputs[j]);
                } else {
                    assert(v.outputs[i] == old_outputs[i]);
                }
            }
            assert forall|j: int| 0 <= j < v.run.state.failures.len() implies !has_output_index(
                v.outputs,
                v.run.state.failures[j].spec_index(),
            ) by {
                let f = v.run.state.failures;
                if j < old_failures.len() {
                    assert(f[j] == old_failures[j]);
                    assert(!has_output_index(old_outputs, f[j].spec_index()));
                    if has_output_index(v.outputs, f[j].spec_index()) {
                        let m = choose|m: int|
                            0 <= m < v.outputs.len() && v.outputs[m].spec_index() == f[j].spec_index();
                        if m < old_outputs.len() {
                            assert(v.outputs[m] == old_outputs[m]);
                        }
                    }
                } else {
                    if has_output_index(v.outputs, f[j].spec_index()) {
                        let m = choose|m: int|
                            0 <= m < v.outputs.len() && v.outputs[m].spec_index() == f[j].spec_index();
                        assert(v.outputs[m] == old_outputs[m]);
                    }
                }
            }
        }
        stop
    }

    /// Says how the run ends, as [`SequentialBatchRun::end`] does.
    pub fn end(&self) -> (r: SequentialEnd)
        ensures
            r == crate::run::sequential_end_of(self@.run),
    {
        self.run.end()
    }

    /// The error for a source that yielded more items than declared, with
    /// the outputs collected so far.
    pub fn fail_count_exceeded(self, report: TerminalReport) -> (r: BatchCallError<R, E>)
        requires
            is_consistent_call_run(self@),
        ensures
            r.spec_outputs() == self@.outputs,
            outputs_agree(r.spec_source().spec_outcome()@, r.spec_outputs()),
            r.spec_source() matches BatchExecutionError::CountExceeded {
                expected,
                observed_at_least,
                outcome,
                report_error,
            } && expected == self@.run.count && observed_at_least == self@.run.actual_count && outcome@
                == final_outcome_parts(self@.run.state, report.spec_elapsed(), crate::policy::BatchTermination::Finished)
                && crate::error::spec_unbox(report_error) == report.spec_failure(),
    {
        let ghost v = self@;
        let SequentialCallRun { run, outputs } = self;
        let error = run.fail_count_exceeded(report);
        proof {
            lemma_outputs_agree_with_final(v, error.spec_outcome());
        }
        BatchCallError::new(error, outputs)
    }

    /// The error for a failed running-progress report between tasks, with
    /// the outputs collected so far.
    pub fn fail_progress_report(self, elapsed: Duration, failure: ProgressFailure) -> (r: BatchCallError<R, E>)
        requires
            is_consistent_call_run(self@),
            is_idle_run(self@.run),
        ensures
            r.spec_outputs() == self@.outputs,
            outputs_agree(r.spec_source().spec_outcome()@, r.spec_outputs()),
            r.spec_source() matches BatchExecutionError::ProgressReport { source, outcome } && *source == failure
                && outcome@ == final_outcome_parts(self@.run.state, elapsed, crate::policy::BatchTermination::Finished),
    {
        let ghost v = self@;
        let SequentialCallRun { run, outputs } = self;
        let error = run.fail_progress_report(elapsed, failure);
        proof {
            lemma_outputs_agree_with_final(v, error.spec_outcome());
        }
        BatchCallError::new(error, outputs)
    }

    /// Completes the run as [`SequentialBatchRun::complete`] does; an
    /// outcome comes with the collected outputs, and an error keeps them;
    /// either way they agree with the outcome.
    pub fn complete(self, report: TerminalReport) -> (r: Result<BatchCallResult<R, E>, BatchCallError<R, E>>)
        requires
            is_consistent_call_run(self@),
            is_idle_run(self@.run),
            self@.run.actual_count <= self@.run.count,
        ensures
            match r {
                Ok(res) => {
                    &&& is_sequential_completion(self@.run, report, Ok(res.spec_outcome()))
                    &&& res.spec_outputs() == self@.outputs
                    &&& outputs_agree(res.spec_outcome()@, res.spec_outputs())
                },
                Err(e) => {
                    &&& is_sequential_completion(self@.run, report, Err(e.spec_source()))
                    &&& e.spec_outputs() == self@.outputs
                    &&& outputs_agree(e.spec_source().spec_outcome()@, e.spec_outputs())
                },
            },
    {
        let ghost v = self@;
        let SequentialCallRun { run, outputs } = self;
        match run.complete(report) {
            Ok(outcome) => {
                proof {
                    lemma_outputs_agree_with_final(v, outcome);
                }
                match BatchCallResult::try_new(outcome, outputs) {
                    Ok(res) => Ok(res),
                    Err(_) => vstd::pervasive::unreached(),
                }
            },
            Err(error) => {
                proof {
                    lemma_outputs_agree_with_final(v, error.spec_outcome());
                }
                Err(BatchCallError::new(error, outputs))
            },
        }
    }
}

/// The outputs of a consistent callable run agree with every outcome its
/// sequential run builds, whether returned or attached to an error: the
/// outcome's failures are the run's failures reordered, so none has an
/// output.
proof fn lemma_outputs_agree_with_final<R, E>(v: CallRunView<R, E>, outcome: BatchOutcome<E>)
    requires
        is_consistent_call_run(v),
        outcome@.task_count == v.run.state.acceptance.task_count,
        outcome@.completed_count == v.run.state.completed_count,
        outcome@.succeeded_count == v.run.state.succeeded_count,
        outcome@.failures == crate::sort::sorted_by_index(v.run.state.failures),
    ensures
        outputs_agree(outcome@, v.outputs),
        crate::call::call_result_build_error(outcome@, v.outputs) is None,
{
    let f = v.run.state.failures;
    crate::sort::lemma_sorted_by_index(f);
    assert forall|j: int| 0 <= j < outcome@.failures.len() implies !has_output_index(
        v.outputs,
        outcome@.failures[j].spec_index(),
    ) by {
        let k = crate::sort::lemma_reordered_member(f, outcome@.failures, j);
        assert(!has_output_index(v.outputs, f[k].spec_index()));
    }
    lemma_agreeing_outputs_build(outcome@, v.outputs);
}

} // verus!
