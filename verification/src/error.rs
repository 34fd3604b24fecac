//! Batch-level errors: progress-reporting, scheduler and source-count
//! failures, each carrying the partial outcome of the batch.
use std::convert::Infallible;
use vstd::prelude::*;

use qubit_progress::{AutoReporterError, EmissionError, FinishError, StartError, TerminalError};

use crate::outcome::BatchOutcome;

verus! {

#[verifier::external_type_specification]
#[verifier::external_body]
pub struct ExStartError(StartError);

#[verifier::external_type_specification]
#[verifier::external_body]
pub struct ExEmissionError(EmissionError);

#[verifier::external_type_specification]
#[verifier::external_body]
pub struct ExAutoReporterError(AutoReporterError);

#[verifier::external_type_specification]
#[verifier::external_body]
pub struct ExTerminalError(TerminalError);

#[verifier::external_type_specification]
#[verifier::external_body]
pub struct ExFinishError(FinishError);

/// A failure of the progress reporter attached to a batch run, kept as the
/// reporter library returned it.
#[derive(Debug)]
pub enum ProgressFailure {
    /// Starting the progress run failed.
    Start(StartError),
    /// Emitting a running progress event failed.
    Emission(EmissionError),
    /// The automatic running-progress reporter failed.
    AutoReporter(AutoReporterError),
    /// Emitting a terminal (failed) progress event failed.
    Terminal(TerminalError),
    /// Emitting the finished progress event failed.
    Finish(FinishError),
}

/// Batch-level error returned when progress, source-count validation, or
/// parallel scheduling fails.
///
/// Task failures are reported through [`BatchOutcome`], not through this
/// enum.
#[non_exhaustive]
#[derive(Debug)]
pub enum BatchExecutionError<E, S = Infallible> {
    /// Reporting batch progress failed.
    ProgressReport {
        /// Reporter error returned by the configured progress sink.
        source: Box<ProgressFailure>,
        /// Outcome accumulated before reporting failed.
        outcome: BatchOutcome<E>,
    },
    /// The runtime scheduler rejected or could not submit work.
    ScheduleFailed {
        /// Scheduler error returned by the runtime integration.
        source: S,
        /// Outcome accumulated before scheduling failed.
        outcome: BatchOutcome<E>,
        /// Additional progress-reporting error observed while reporting this
        /// primary scheduler error.
        report_error: Option<Box<ProgressFailure>>,
    },
    /// The task source ended before the declared task count was reached.
    CountShortfall {
        /// Declared task count.
        expected: usize,
        /// Actual number of tasks observed from the source.
        actual: usize,
        /// Outcome accumulated from the tasks that did run.
        outcome: BatchOutcome<E>,
        /// Additional progress-reporting error observed while reporting this
        /// primary count error.
        report_error: Option<Box<ProgressFailure>>,
    },
    /// The task source yielded more tasks than the declared task count.
    CountExceeded {
        /// Declared task count.
        expected: usize,
        /// Lower bound of observed tasks.
        observed_at_least: usize,
        /// Outcome accumulated from the tasks that did run.
        outcome: BatchOutcome<E>,
        /// Additional progress-reporting error observed while reporting this
        /// primary count error.
        report_error: Option<Box<ProgressFailure>>,
    },
    /// The scheduler accepted tasks but did not execute all of them.
    IncompleteSchedule {
        /// Declared task count.
        expected: usize,
        /// Number of tasks accepted by the scheduler.
        accepted: usize,
        /// Number of source tasks observed before scheduling stopped.
        observed: usize,
        /// Number of accepted tasks that reached a terminal outcome.
        completed: usize,
        /// Outcome accumulated before the incomplete schedule was reported.
        outcome: BatchOutcome<E>,
        /// Additional progress-reporting error observed while reporting this
        /// primary scheduling error.
        report_error: Option<Box<ProgressFailure>>,
    },
}

impl<E, S> BatchExecutionError<E, S> {
    /// The batch outcome attached to this error.
    pub open spec fn spec_outcome(&self) -> BatchOutcome<E> {
        match self {
            BatchExecutionError::ProgressReport { outcome, .. } => *outcome,
            BatchExecutionError::ScheduleFailed { outcome, .. } => *outcome,
            BatchExecutionError::CountShortfall { outcome, .. } => *outcome,
            BatchExecutionError::CountExceeded { outcome, .. } => *outcome,
            BatchExecutionError::IncompleteSchedule { outcome, .. } => *outcome,
        }
    }

    /// The progress-reporting error carried by this error: the primary one of
    /// `ProgressReport`, or the secondary one of the other variants.
    pub open spec fn spec_progress_report_error(&self) -> Option<ProgressFailure> {
        match self {
            BatchExecutionError::ProgressReport { source, .. } => Some(**source),
            BatchExecutionError::ScheduleFailed { report_error, .. } => spec_unbox(*report_error),
            BatchExecutionError::CountShortfall { report_error, .. } => spec_unbox(*report_error),
            BatchExecutionError::CountExceeded { report_error, .. } => spec_unbox(*report_error),
            BatchExecutionError::IncompleteSchedule { report_error, .. } => spec_unbox(*report_error),
        }
    }

    /// Returns the batch outcome attached to this error.
    pub fn outcome(&self) -> (r: &BatchOutcome<E>)
        ensures
            *r == self.spec_outcome(),
    {
        match self {
            BatchExecutionError::ProgressReport { outcome, .. } => outcome,
            BatchExecutionError::ScheduleFailed { outcome, .. } => outcome,
            BatchExecutionError::CountShortfall { outcome, .. } => outcome,
            BatchExecutionError::CountExceeded { outcome, .. } => outcome,
            BatchExecutionError::IncompleteSchedule { outcome, .. } => outcome,
        }
    }

    /// Returns whether this error represents a task-count shortfall.
    pub fn is_count_shortfall(&self) -> (r: bool)
        ensures
            r == (*self is CountShortfall),
    {
        match self {
            BatchExecutionError::CountShortfall { .. } => true,
            _ => false,
        }
    }

    /// Returns whether this error represents a scheduler failure.
    pub fn is_schedule_failed(&self) -> (r: bool)
        ensures
            r == (*self is ScheduleFailed),
    {
        match self {
            BatchExecutionError::ScheduleFailed { .. } => true,
            _ => false,
        }
    }

    /// Returns the scheduler error, when scheduling failed.
    pub fn scheduler_error(&self) -> (r: Option<&S>)
        ensures
            match self {
                BatchExecutionError::ScheduleFailed { source, .. } => r == Some(source),
                _ => r is None,
            },
    {
        match self {
            BatchExecutionError::ScheduleFailed { source, .. } => Some(source),
            _ => None,
        }
    }

    /// Returns whether this error represents an oversized task source.
    pub fn is_count_exceeded(&self) -> (r: bool)
        ensures
            r == (*self is CountExceeded),
    {
        match self {
            BatchExecutionError::CountExceeded { .. } => true,
            _ => false,
        }
    }

    /// Returns whether this error represents an incomplete parallel schedule.
    pub fn is_incomplete_schedule(&self) -> (r: bool)
        ensures
            r == (*self is IncompleteSchedule),
    {
        match self {
            BatchExecutionError::IncompleteSchedule { .. } => true,
            _ => false,
        }
    }

    /// Returns the progress-reporting error associated with this error.
    pub fn progress_report_error(&self) -> (r: Option<&ProgressFailure>)
        ensures
            match r {
                Some(f) => self.spec_progress_report_error() == Some(*f),
                None => self.spec_progress_report_error() is None,
            },
    {
        match self {
            BatchExecutionError::ProgressReport { source, .. } => Some(&**source),
            BatchExecutionError::ScheduleFailed { report_error, .. } => unbox_ref(report_error),
            BatchExecutionError::CountShortfall { report_error, .. } => unbox_ref(report_error),
            BatchExecutionError::CountExceeded { report_error, .. } => unbox_ref(report_error),
            BatchExecutionError::IncompleteSchedule { report_error, .. } => unbox_ref(report_error),
        }
    }

    /// Consumes this error and returns the attached batch outcome.
    pub fn into_outcome(self) -> (r: BatchOutcome<E>)
        ensures
            r == self.spec_outcome(),
    {
        match self {
            BatchExecutionError::ProgressReport { outcome, .. } => outcome,
            BatchExecutionError::ScheduleFailed { outcome, .. } => outcome,
            BatchExecutionError::CountShortfall { outcome, .. } => outcome,
            BatchExecutionError::CountExceeded { outcome, .. } => outcome,
            BatchExecutionError::IncompleteSchedule { outcome, .. } => outcome,
        }
    }

    /// Maps the scheduler error while preserving everything else: `map` is
    /// applied once to the scheduler error of `ScheduleFailed`, and every
    /// other variant keeps all of its fields.
    pub fn map_scheduler_error<T, F: FnOnce(S) -> T>(self, map: F) -> (r: BatchExecutionError<E, T>)
        requires
            self matches BatchExecutionError::ScheduleFailed { source, .. } ==> map.requires((source,)),
        ensures
            r.spec_outcome() == self.spec_outcome(),
            r.spec_progress_report_error() == self.spec_progress_report_error(),
            is_scheduler_error_mapping(self, r, map),
    {
        match self {
            BatchExecutionError::ProgressReport { source, outcome } => BatchExecutionError::ProgressReport {
                source,
                outcome,
            },
            BatchExecutionError::ScheduleFailed { source, outcome, report_error } => {
                BatchExecutionError::ScheduleFailed { source: map(source), outcome, report_error }
            },
            BatchExecutionError::CountShortfall { expected, actual, outcome, report_error } => {
                BatchExecutionError::CountShortfall { expected, actual, outcome, report_error }
            },
            BatchExecutionError::CountExceeded { expected, observed_at_least, outcome, report_error } => {
                BatchExecutionError::CountExceeded { expected, observed_at_least, outcome, report_error }
            },
            BatchExecutionError::IncompleteSchedule {
                expected,
                accepted,
                observed,
                completed,
                outcome,
                report_error,
            } => BatchExecutionError::IncompleteSchedule {
                expected,
                accepted,
                observed,
                completed,
                outcome,
                report_error,
            },
        }
    }
}

/// `after` is `before` with `map` applied to the scheduler error of
/// `ScheduleFailed`: that variant keeps its outcome and secondary report
/// error and holds a result of `map`; every other variant keeps all of its
/// fields.
pub open spec fn is_scheduler_error_mapping<E, S, T, F: FnOnce(S) -> T>(
    before: BatchExecutionError<E, S>,
    after: BatchExecutionError<E, T>,
    map: F,
) -> bool {
    match before {
        BatchExecutionError::ProgressReport { source, outcome } => after
            == (BatchExecutionError::<E, T>::ProgressReport { source, outcome }),
        BatchExecutionError::ScheduleFailed { source, outcome, report_error } => {
            &&& after matches BatchExecutionError::ScheduleFailed {
                source: mapped,
                outcome: o,
                report_error: re,
            }
            &&& map.ensures((source,), mapped)
            &&& o == outcome
            &&& re == report_error
        },
        BatchExecutionError::CountShortfall { expected, actual, outcome, report_error } => after
            == (BatchExecutionError::<E, T>::CountShortfall {
            expected,
            actual,
            outcome,
            report_error,
        }),
        BatchExecutionError::CountExceeded {
            expected,
            observed_at_least,
            outcome,
            report_error,
        } => after == (BatchExecutionError::<E, T>::CountExceeded {
            expected,
            observed_at_least,
            outcome,
            report_error,
        }),
        BatchExecutionError::IncompleteSchedule {
            expected,
            accepted,
            observed,
            completed,
            outcome,
            report_error,
        } => after == (BatchExecutionError::<E, T>::IncompleteSchedule {
            expected,
            accepted,
            observed,
            completed,
            outcome,
            report_error,
        }),
    }
}

/// The failure inside an optional box.
pub open spec fn spec_unbox(b: Option<Box<ProgressFailure>>) -> Option<ProgressFailure> {
    match b {
        Some(f) => Some(*f),
        None => None,
    }
}

/// Borrows the failure inside an optional box.
fn unbox_ref(b: &Option<Box<ProgressFailure>>) -> (r: Option<&ProgressFailure>)
    ensures
        match r {
            Some(f) => spec_unbox(*b) == Some(*f),
            None => spec_unbox(*b) is None,
        },
{
    match b {
        Some(f) => Some(&**f),
        None => None,
    }
}

} // verus!
