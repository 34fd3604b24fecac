//! Errors and failure records for single tasks of a batch.
use vstd::prelude::*;

use crate::sort::IndexedRecord;

verus! {

/// Error recorded for one task inside a batch execution.
///
/// `Failed` wraps the task's own business error; `Panicked` records a panic
/// captured while the task ran, with its message when the payload was a
/// string.
#[derive(Debug, Clone, PartialEq, Eq)]
pub enum BatchTaskError<E> {
    /// The task returned its own business error.
    Failed(E),
    /// The task panicked while running.
    Panicked {
        /// Captured panic message when the panic payload is a string.
        message: Option<String>,
    },
}

impl<E> BatchTaskError<E> {
    /// The captured panic message as characters, or `None` for business
    /// errors and panics without a readable message.
    pub open spec fn spec_panic_message(&self) -> Option<Seq<char>> {
        match self {
            BatchTaskError::Panicked { message: Some(m) } => Some(m@),
            _ => None,
        }
    }

    /// Creates a panicked task error with a captured message.
    pub fn panicked(message: &str) -> (r: Self)
        ensures
            r is Panicked,
            r.spec_panic_message() == Some(message@),
    {
        BatchTaskError::Panicked { message: Some(message.to_owned()) }
    }

    /// Creates a panicked task error without a readable message.
    pub fn panicked_without_message() -> (r: Self)
        ensures
            r == (BatchTaskError::<E>::Panicked { message: None }),
    {
        BatchTaskError::Panicked { message: None }
    }

    /// Returns whether the task returned a business error of its own.
    pub fn is_failed(&self) -> (r: bool)
        ensures
            r == (*self is Failed),
    {
        match self {
            BatchTaskError::Failed(_) => true,
            BatchTaskError::Panicked { .. } => false,
        }
    }

    /// Returns whether the task panicked.
    pub fn is_panicked(&self) -> (r: bool)
        ensures
            r == (*self is Panicked),
    {
        match self {
            BatchTaskError::Failed(_) => false,
            BatchTaskError::Panicked { .. } => true,
        }
    }

    /// Returns the captured panic message, if one is available.
    pub fn panic_message(&self) -> (r: Option<&str>)
        ensures
            r matches Some(s) ==> self.spec_panic_message() == Some(s@),
            r is None <==> self.spec_panic_message() is None,
    {
        match self {
            BatchTaskError::Failed(_) => None,
            BatchTaskError::Panicked { message: None } => None,
            BatchTaskError::Panicked { message: Some(message) } => Some(message.as_str()),
        }
    }
}

/// Failure record for one task inside a batch.
///
/// Each failure keeps the task's stable batch index so callers can map the
/// failure back to the source task.
#[derive(Debug, Clone, PartialEq, Eq)]
pub struct BatchTaskFailure<E> {
    /// Zero-based task index within the batch.
    index: usize,
    /// The error the task ended with.
    error: BatchTaskError<E>,
}

impl<E> BatchTaskFailure<E> {
    /// The zero-based task index of this failure.
    pub closed spec fn spec_index(&self) -> usize {
        self.index
    }

    /// The task error of this failure.
    pub closed spec fn spec_error(&self) -> BatchTaskError<E> {
        self.error
    }

    /// Creates a new batch task failure record.
    pub fn new(index: usize, error: BatchTaskError<E>) -> (r: Self)
        ensures
            r.spec_index() == index,
            r.spec_error() == error,
    {
        BatchTaskFailure { index, error }
    }

    /// Returns the failed task's zero-based batch index.
    pub fn index(&self) -> (r: usize)
        ensures
            r == self.spec_index(),
    {
        self.index
    }

    /// Returns the task error recorded for this failure.
    pub fn error(&self) -> (r: &BatchTaskError<E>)
        ensures
            *r == self.spec_error(),
    {
        &self.error
    }

    /// Consumes this failure record and returns the stored task error.
    pub fn into_error(self) -> (r: BatchTaskError<E>)
        ensures
            r == self.spec_error(),
    {
        self.error
    }
}

impl<E> IndexedRecord for BatchTaskFailure<E> {
    open spec fn key(&self) -> usize {
        self.spec_index()
    }

    fn record_index(&self) -> (r: usize) {
        self.index
    }
}

} // verus!
