//! Batch-oriented task execution accounting.
//!
//! The library keeps the rules of one-shot batch execution: declared task
//! counts, stable failure indexes, captured task panics, validated outcomes,
//! task-failure policies and the decisions a sequential or parallel executor
//! takes while it runs. Running user tasks, spawning workers and reporting
//! progress are left to the caller, which feeds each observed event into the
//! state machines of this crate.
use vstd::prelude::*;

pub mod call;
pub mod call_run;
pub mod config;
pub mod error;
pub mod execution;
pub mod executor;
pub mod outcome;
pub mod parallel;
pub mod policy;
pub mod result;
pub mod run;
pub mod sort;
pub mod state;
pub mod task;

pub use call::BatchCallError;
pub use call::BatchCallOutput;
pub use call::BatchCallResult;
pub use call::BatchCallResultBuildError;
pub use call_run::CallRunOutcome;
pub use call_run::SequentialCallRun;
pub use config::ParallelBatchExecutor;
pub use config::ParallelBatchExecutorBuildError;
pub use config::ParallelBatchExecutorBuilder;
pub use config::SequentialBatchExecutor;
pub use config::SequentialBatchExecutorBuilder;
pub use error::BatchExecutionError;
pub use error::ProgressFailure;
pub use outcome::BatchOutcome;
pub use outcome::BatchOutcomeBuildError;
pub use outcome::BatchOutcomeBuilder;
pub use parallel::ParallelBatchExecution;
pub use parallel::ParallelBatchExecutionContext;
pub use parallel::ParallelBatchTask;
pub use policy::BatchTermination;
pub use policy::FailureLimit;
pub use policy::TaskFailurePolicy;
pub use result::BatchExecutionResult;
pub use run::SequentialBatchRun;
pub use run::SequentialStep;
pub use run::TerminalReport;
pub use state::BatchExecutionState;
pub use state::ParallelBatchAcceptanceState;
pub use state::TaskExecutionStatus;
pub use state::TaskRunOutcome;
pub use task::BatchTaskError;
pub use task::BatchTaskFailure;

verus! {

} // verus!
