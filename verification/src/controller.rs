//! The run controller: drives an ordered task list strictly in order, records
//! one outcome per attempted task, and applies the run policy. The outside
//! work of one step — spawning the task's command and waiting for it — happens
//! between `next_index` and `record`, outside this module; the controller is
//! the decision logic of the loop, verified for every verdict the outside
//! world can hand back.

use vstd::prelude::*;

use crate::task::{
    all_outcomes_ok, all_succeeded, indexed_in_order, result_consistent, ExecutionOutcome,
    RunPolicy, RunResult, TaskDescriptor,
};

verus! {

/// State of one run in progress. The next task to attempt is always the one
/// at position `outcomes.len()`; a run under `StopOnFirstFailure` that has
/// recorded a failure is aborted and attempts nothing more.
pub struct RunController {
    pub tasks: Vec<TaskDescriptor>,
    pub policy: RunPolicy,
    pub outcomes: Vec<ExecutionOutcome>,
    pub aborted_early: bool,
}

impl RunController {
    /// Invariant of a run in progress: no more outcomes than tasks, outcomes
    /// indexed in order; an aborted run is a stop-on-first-failure run whose
    /// last outcome failed; and under stop-on-first-failure every outcome
    /// before the last one succeeded, so a live (non-aborted) run has seen no
    /// failure at all.
    pub open spec fn wf(self) -> bool {
        &&& self.outcomes@.len() <= self.tasks@.len()
        &&& indexed_in_order(self.outcomes@)
        &&& self.aborted_early ==> {
            &&& self.policy == RunPolicy::StopOnFirstFailure
            &&& self.outcomes@.len() > 0
            &&& !self.outcomes@.last().succeeded
        }
        &&& self.policy == RunPolicy::StopOnFirstFailure ==> (forall|i: int|
            0 <= i < self.outcomes@.len() - 1 ==> self.outcomes@[i].succeeded)
        &&& (self.policy == RunPolicy::StopOnFirstFailure && !self.aborted_early)
            ==> all_succeeded(self.outcomes@)
    }

    /// The run attempts nothing more: it was aborted early, or every task has
    /// an outcome.
    pub open spec fn finished(self) -> bool {
        self.aborted_early || self.outcomes@.len() == self.tasks@.len()
    }

    /// A fresh run over `tasks`: nothing attempted yet.
    pub fn new(tasks: Vec<TaskDescriptor>, policy: RunPolicy) -> (r: Self)
        ensures
            r.wf(),
            r.tasks == tasks,
            r.policy == policy,
            r.outcomes@ =~= Seq::<ExecutionOutcome>::empty(),
            !r.aborted_early,
    {
        RunController { tasks, policy, outcomes: Vec::new(), aborted_early: false }
    }

    /// Position of the next task to attempt, or `None` when the run is
    /// finished. Tasks are attempted strictly in order, each at most once.
    pub fn next_index(&self) -> (r: Option<usize>)
        requires
            self.wf(),
        ensures
            match r {
                Some(i) => !self.finished() && i == self.outcomes@.len(),
                None => self.finished(),
            },
    {
        if self.aborted_early || self.outcomes.len() >= self.tasks.len() {
            None
        } else {
            Some(self.outcomes.len())
        }
    }

    /// Whether the run attempts anything more.
    pub fn is_finished(&self) -> (b: bool)
        requires
            self.wf(),
        ensures
            b == self.finished(),
    {
        self.aborted_early || self.outcomes.len() >= self.tasks.len()
    }

    /// Record the verdict of the task just attempted: append its outcome, and
    /// under stop-on-first-failure mark the run aborted if it failed. The
    /// tasks and the policy never change over a run.
    pub fn record(&mut self, succeeded: bool, duration_ms: u64)
        requires
            old(self).wf(),
            !old(self).finished(),
        ensures
            final(self).wf(),
            final(self).tasks == old(self).tasks,
            final(self).policy == old(self).policy,
            final(self).outcomes@ =~= old(self).outcomes@.push(
                (ExecutionOutcome {
                    task_index: old(self).outcomes@.len() as usize,
                    succeeded,
                    duration_ms,
                }),
            ),
            final(self).aborted_early == (old(self).policy == RunPolicy::StopOnFirstFailure
                && !succeeded),
    {
        let task_index = self.outcomes.len();
        self.outcomes.push(ExecutionOutcome { task_index, succeeded, duration_ms });
        if !succeeded && self.policy == RunPolicy::StopOnFirstFailure {
            self.aborted_early = true;
        }
    }

    /// Close a finished run. `overall_success` holds exactly when every
    /// recorded outcome succeeded and the run was not aborted early; an
    /// aborted run is never successful.
    pub fn into_result(self) -> (r: RunResult)
        requires
            self.wf(),
            self.finished(),
        ensures
            r.outcomes@ =~= self.outcomes@,
            r.aborted_early == self.aborted_early,
            r.overall_success == (all_succeeded(self.outcomes@) && !self.aborted_early),
            result_consistent(r),
    {
        let overall_success = all_outcomes_ok(&self.outcomes) && !self.aborted_early;
        RunResult { outcomes: self.outcomes, aborted_early: self.aborted_early, overall_success }
    }
}

/// What a finished run over `n` tasks looks like when the outside world's
/// verdict for task `i` is `verdicts[i]`: the attempted prefix mirrors the
/// verdicts; under run-everything each task has an outcome and nothing is
/// aborted; under stop-on-first-failure every outcome before the last one
/// succeeded, the run is aborted exactly when its last verdict failed, and a
/// run that was not aborted attempted every task.
pub open spec fn run_matches(r: RunResult, n: nat, verdicts: Seq<bool>, policy: RunPolicy) -> bool {
    &&& verdicts.len() == n
    &&& r.outcomes@.len() <= n
    &&& indexed_in_order(r.outcomes@)
    &&& forall|i: int| 0 <= i < r.outcomes@.len() ==> r.outcomes@[i].succeeded == verdicts[i]
    &&& (policy == RunPolicy::RunAllThenReport ==> r.outcomes@.len() == n && !r.aborted_early)
    &&& (policy == RunPolicy::StopOnFirstFailure ==> {
        &&& (forall|i: int| 0 <= i < r.outcomes@.len() - 1 ==> verdicts[i])
        &&& (r.aborted_early <==> r.outcomes@.len() > 0 && !verdicts[r.outcomes@.len() - 1])
        &&& (!r.aborted_early ==> r.outcomes@.len() == n)
    })
    &&& result_consistent(r)
}

/// Run the whole task list against a table of per-task verdicts: the
/// controller loop with the outside world's answer for each task supplied up
/// front as data. The verdict for task `i` stands for whether the spawned
/// command exited successfully; a spawn failure is a `false` like any other.
pub fn run_with(tasks: Vec<TaskDescriptor>, policy: RunPolicy, verdicts: &Vec<bool>) -> (r:
    RunResult)
    requires
        verdicts@.len() == tasks@.len(),
    ensures
        run_matches(r, tasks@.len(), verdicts@, policy),
{
    let ghost n = tasks@.len();
    let mut c = RunController::new(tasks, policy);
    loop
        invariant
            c.wf(),
            c.policy == policy,
            c.tasks@.len() == n,
            verdicts@.len() == n,
            forall|i: int| 0 <= i < c.outcomes@.len() ==> c.outcomes@[i].succeeded == verdicts@[i],
        ensures
            c.wf(),
            c.finished(),
            c.policy == policy,
            c.tasks@.len() == n,
            forall|i: int| 0 <= i < c.outcomes@.len() ==> c.outcomes@[i].succeeded == verdicts@[i],
        decreases n - c.outcomes@.len() + (if c.aborted_early { 0int } else { 1int }),
    {
        match c.next_index() {
            None => {
                break;
            },
            Some(i) => {
                c.record(verdicts[i], 0);
            },
        }
    }
    let ghost done = c;
    let r = c.into_result();
    proof {
        if policy == RunPolicy::StopOnFirstFailure {
            let len = done.outcomes@.len() as int;
            if len > 0 && !verdicts@[len - 1] && !done.aborted_early {
                assert(!done.outcomes@[len - 1].succeeded);
                assert(!all_succeeded(done.outcomes@));
            }
        }
    }
    r
}

/// Law of the run-everything policy: a finished run attempts every task, so
/// there are exactly as many outcomes as tasks.
pub proof fn lemma_run_all_attempts_every_task(
    r: RunResult,
    n: nat,
    verdicts: Seq<bool>,
    policy: RunPolicy,
)
    requires
        run_matches(r, n, verdicts, policy),
        policy == RunPolicy::RunAllThenReport,
    ensures
        r.outcomes@.len() == n,
        !r.aborted_early,
{
}

/// Law of the stop-on-first-failure policy: when the first failing verdict
/// sits at position `k`, the run records exactly the outcomes of tasks `0`
/// through `k`, is aborted early, and is not successful — no task after `k`
/// is ever attempted.
pub proof fn lemma_stop_policy_stops_at_first_failure(
    r: RunResult,
    n: nat,
    verdicts: Seq<bool>,
    k: int,
)
    requires
        run_matches(r, n, verdicts, RunPolicy::StopOnFirstFailure),
        0 <= k < verdicts.len(),
        !verdicts[k],
        forall|j: int| 0 <= j < k ==> verdicts[j],
    ensures
        r.outcomes@.len() == k + 1,
        r.aborted_early,
        !r.overall_success,
{
    let len = r.outcomes@.len() as int;
    if len <= k {
        assert(!r.aborted_early);
    } else {
        if len - 1 > k {
            assert(verdicts[k]);
        }
        assert(len - 1 == k);
    }
    assert(r.aborted_early);
    assert(!r.overall_success);
}

/// Law of a run in which no verdict fails: the run attempts every task, is
/// not aborted, and is successful, under either policy.
pub proof fn lemma_clean_run_succeeds(r: RunResult, n: nat, verdicts: Seq<bool>, policy: RunPolicy)
    requires
        run_matches(r, n, verdicts, policy),
        forall|j: int| 0 <= j < verdicts.len() ==> verdicts[j],
    ensures
        r.outcomes@.len() == n,
        !r.aborted_early,
        r.overall_success,
{
    assert forall|i: int| 0 <= i < r.outcomes@.len() implies r.outcomes@[i].succeeded by {
        assert(verdicts[i]);
    }
    if policy == RunPolicy::StopOnFirstFailure {
        let len = r.outcomes@.len() as int;
        if len > 0 {
            assert(verdicts[len - 1]);
        }
        assert(!r.aborted_early);
    }
}

} // verus!
