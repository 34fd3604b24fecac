# qubit_batch

Verified accounting for one-shot batch execution, written in Verus.

A batch executor runs a finite list of independent tasks once and returns a
`BatchOutcome`: how many tasks completed, succeeded, failed or panicked, the
failure of each task with its stable index, and whether a task-failure policy
stopped the run. This crate holds the rules of that accounting and proves
them:

- `src/outcome.rs`, `src/sort.rs`: outcome validation and the stable order of
  failure records;
- `src/state.rs`, `src/policy.rs`: admission counters, task failure policies
  and the execution state;
- `src/run.rs`, `src/call_run.rs`: the sequential run as a state machine,
  for runnable tasks and for callables with their values;
- `src/parallel.rs`: unique task tokens of a parallel run and how the run
  ends once every worker joined;
- `src/call.rs`, `src/error.rs`, `src/config.rs`, `src/result.rs`,
  `src/executor.rs`, `src/execution.rs`: callable results, batch errors,
  executor settings and the counter-based variants.

`app/` drives these state machines: it runs the tasks, captures panics,
spawns workers and reports progress through `qubit_progress`.
