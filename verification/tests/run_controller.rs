use zuu::controller::{run_with, RunController};
use zuu::task::{RunPolicy, TaskDescriptor};

fn task(index: usize, title: &str, command: &str) -> TaskDescriptor {
    TaskDescriptor {
        index,
        title: String::from(title),
        command: String::from(command),
        success_message: format!("{title} passed"),
        failure_message: format!("{title} failed"),
        capture_name: format!("{title}.txt"),
    }
}

fn three_tasks() -> Vec<TaskDescriptor> {
    vec![task(0, "fmt", "true"), task(1, "test", "false"), task(2, "lint", "true")]
}

#[test]
fn scenario_run_all_records_every_outcome() {
    let r = run_with(three_tasks(), RunPolicy::RunAllThenReport, &vec![true, false, true]);
    assert_eq!(r.outcomes.len(), 3);
    assert!(r.outcomes[0].succeeded);
    assert!(!r.outcomes[1].succeeded);
    assert!(r.outcomes[2].succeeded);
    assert!(!r.aborted_early);
    assert!(!r.overall_success);
}

#[test]
fn scenario_strict_stops_after_first_failure() {
    let r = run_with(three_tasks(), RunPolicy::StopOnFirstFailure, &vec![true, false, true]);
    assert_eq!(r.outcomes.len(), 2);
    assert!(r.outcomes[0].succeeded);
    assert!(!r.outcomes[1].succeeded);
    assert!(r.aborted_early);
    assert!(!r.overall_success);
}

#[test]
fn scenario_single_success_either_policy() {
    let strict = run_with(vec![task(0, "a", "true")], RunPolicy::StopOnFirstFailure, &vec![true]);
    assert!(strict.overall_success);
    assert!(!strict.aborted_early);
    assert_eq!(strict.outcomes.len(), 1);
    let lax = run_with(vec![task(0, "a", "true")], RunPolicy::RunAllThenReport, &vec![true]);
    assert!(lax.overall_success);
    assert!(!lax.aborted_early);
    assert_eq!(lax.outcomes.len(), 1);
}

#[test]
fn scenario_spawn_failure_is_an_ordinary_failure() {
    // A command whose binary does not exist cannot be spawned; the executor
    // hands the controller the same verdict as a non-zero exit.
    let tasks = vec![task(0, "audit", "no-such-binary-anywhere")];
    let r = run_with(tasks, RunPolicy::RunAllThenReport, &vec![false]);
    assert_eq!(r.outcomes.len(), 1);
    assert!(!r.outcomes[0].succeeded);
    assert!(!r.overall_success);
}

#[test]
fn run_all_attempts_every_task_even_when_all_fail() {
    let r = run_with(three_tasks(), RunPolicy::RunAllThenReport, &vec![false, false, false]);
    assert_eq!(r.outcomes.len(), 3);
    assert!(!r.aborted_early);
    assert!(!r.overall_success);
}

#[test]
fn strict_run_with_no_failure_attempts_every_task() {
    let r = run_with(three_tasks(), RunPolicy::StopOnFirstFailure, &vec![true, true, true]);
    assert_eq!(r.outcomes.len(), 3);
    assert!(!r.aborted_early);
    assert!(r.overall_success);
}

#[test]
fn strict_run_failing_last_records_every_task() {
    let r = run_with(three_tasks(), RunPolicy::StopOnFirstFailure, &vec![true, true, false]);
    assert_eq!(r.outcomes.len(), 3);
    assert!(r.aborted_early);
    assert!(!r.overall_success);
}

#[test]
fn empty_task_list_succeeds_vacuously() {
    let r = run_with(Vec::new(), RunPolicy::StopOnFirstFailure, &Vec::new());
    assert_eq!(r.outcomes.len(), 0);
    assert!(!r.aborted_early);
    assert!(r.overall_success);
}

#[test]
fn outcomes_carry_their_task_index_in_order() {
    let r = run_with(three_tasks(), RunPolicy::RunAllThenReport, &vec![true, true, true]);
    for (i, o) in r.outcomes.iter().enumerate() {
        assert_eq!(o.task_index, i);
    }
}

#[test]
fn controller_steps_through_tasks_in_order() {
    let mut c = RunController::new(three_tasks(), RunPolicy::RunAllThenReport);
    assert_eq!(c.next_index(), Some(0));
    assert!(!c.is_finished());
    c.record(true, 12);
    assert_eq!(c.next_index(), Some(1));
    c.record(false, 7);
    assert_eq!(c.next_index(), Some(2));
    c.record(true, 3);
    assert_eq!(c.next_index(), None);
    assert!(c.is_finished());
    let r = c.into_result();
    assert_eq!(r.outcomes.len(), 3);
    assert_eq!(r.outcomes[1].duration_ms, 7);
    assert!(!r.overall_success);
}

#[test]
fn controller_under_strict_policy_finishes_on_failure() {
    let mut c = RunController::new(three_tasks(), RunPolicy::StopOnFirstFailure);
    c.record(true, 1);
    c.record(false, 1);
    assert!(c.is_finished());
    assert_eq!(c.next_index(), None);
    let r = c.into_result();
    assert!(r.aborted_early);
    assert_eq!(r.outcomes.len(), 2);
}
