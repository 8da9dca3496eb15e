//! Data model of a run: task descriptors, run policies, per-task outcomes and
//! the aggregated result of one run.

use vstd::prelude::*;

verus! {

/// Immutable description of one check: its position in the run, the text shown
/// beside its terminal row, the shell command to execute, the messages painted
/// on success and on failure, and the name its captured output is filed under.
///
/// `index` fixes both the execution order and the terminal row the task owns.
pub struct TaskDescriptor {
    pub index: usize,
    pub title: String,
    pub command: String,
    pub success_message: String,
    pub failure_message: String,
    pub capture_name: String,
}

/// What the run does after a task fails: give up at once, or attempt every
/// remaining task and only then report failure.
#[derive(Clone, Copy, PartialEq, Eq, Structural, Debug)]
pub enum RunPolicy {
    StopOnFirstFailure,
    RunAllThenReport,
}

/// Verdict of one attempted task: which task it was, whether the child process
/// exited successfully (a spawn failure counts as an unsuccessful exit), and
/// the wall-clock time the attempt took.
#[derive(Clone, Copy, PartialEq, Eq, Structural, Debug)]
pub struct ExecutionOutcome {
    pub task_index: usize,
    pub succeeded: bool,
    pub duration_ms: u64,
}

/// Aggregate of one run: the outcomes of the tasks that were attempted, in
/// order; whether the run gave up before attempting every task; and the
/// overall verdict.
pub struct RunResult {
    pub outcomes: Vec<ExecutionOutcome>,
    pub aborted_early: bool,
    pub overall_success: bool,
}

/// Every recorded outcome succeeded.
pub open spec fn all_succeeded(outcomes: Seq<ExecutionOutcome>) -> bool {
    forall|i: int| 0 <= i < outcomes.len() ==> outcomes[i].succeeded
}

/// The outcomes sit at their own task indices: the outcome at position `i`
/// reports on task `i`.
pub open spec fn indexed_in_order(outcomes: Seq<ExecutionOutcome>) -> bool {
    forall|i: int| 0 <= i < outcomes.len() ==> outcomes[i].task_index == i
}

/// Task `i` was attempted and succeeded. A task that was never attempted
/// (because the run stopped before it) counts as not ok.
pub open spec fn outcome_ok(outcomes: Seq<ExecutionOutcome>, i: int) -> bool {
    0 <= i < outcomes.len() && outcomes[i].succeeded
}

/// The one consistency law of a `RunResult`: `overall_success` holds exactly
/// when every recorded outcome succeeded and the run was not aborted early.
pub open spec fn result_consistent(r: RunResult) -> bool {
    r.overall_success == (all_succeeded(r.outcomes@) && !r.aborted_early)
}

/// Exec check that every outcome in the vector succeeded.
pub fn all_outcomes_ok(outcomes: &Vec<ExecutionOutcome>) -> (b: bool)
    ensures
        b == all_succeeded(outcomes@),
{
    let mut i: usize = 0;
    while i < outcomes.len()
        invariant
            0 <= i <= outcomes@.len(),
            forall|j: int| 0 <= j < i ==> outcomes@[j].succeeded,
        decreases outcomes@.len() - i,
    {
        if !outcomes[i].succeeded {
            return false;
        }
        i = i + 1;
    }
    true
}

} // verus!
