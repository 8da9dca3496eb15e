use zuu::controller::run_with;
use zuu::report::{overall_exit, report_from, Report, FAILURE, SUCCESS};
use zuu::task::{RunPolicy, TaskDescriptor};

fn task(index: usize, title: &str) -> TaskDescriptor {
    TaskDescriptor {
        index,
        title: String::from(title),
        command: String::from("true"),
        success_message: format!("{title} passed"),
        failure_message: format!("{title} failed"),
        capture_name: format!("{title}.txt"),
    }
}

fn nine_tasks() -> Vec<TaskDescriptor> {
    (0..9).map(|i| task(i, "check")).collect()
}

#[test]
fn fresh_report_shows_every_cell_failing() {
    let r = Report::new();
    assert_eq!(r.language, "Unknown");
    assert_eq!(r.project_structure, "NOT VALID");
    assert_eq!(r.licenses, "NOT COMPATIBLE");
    assert_eq!(r.dependencies, "NO");
    assert_eq!(r.audit, "NO");
    assert_eq!(r.test, "FAIL");
    assert_eq!(r.secure, "NO");
    assert_eq!(r.standard, "NOT RESPECTED");
    assert_eq!(r.documented, "NOT GENERATED");
    assert_eq!(r.outdated, "OUTDATED");
    assert_eq!(r.lint, "REJECTED");
    assert_eq!(r.code, FAILURE);
}

#[test]
fn default_report_equals_fresh_report() {
    let d = Report::default();
    let n = Report::new();
    assert_eq!(d.language, n.language);
    assert_eq!(d.project_structure, n.project_structure);
    assert_eq!(d.lint, n.lint);
    assert_eq!(d.code, n.code);
}

#[test]
fn report_cells_follow_the_outcome_at_their_position() {
    let verdicts = vec![true, false, true, true, false, true, true, false, true];
    let r = run_with(nine_tasks(), RunPolicy::RunAllThenReport, &verdicts);
    let rep = report_from("Rust", &r);
    assert_eq!(rep.language, "Rust");
    assert_eq!(rep.project_structure, "VALID");
    assert_eq!(rep.licenses, "NOT COMPATIBLE");
    assert_eq!(rep.dependencies, "YES");
    assert_eq!(rep.audit, "YES");
    assert_eq!(rep.test, "FAIL");
    assert_eq!(rep.standard, "RESPECTED");
    assert_eq!(rep.documented, "GENERATED");
    assert_eq!(rep.outdated, "OUTDATED");
    assert_eq!(rep.lint, "APPROVED");
    assert_eq!(rep.code, FAILURE);
}

#[test]
fn clean_run_report_shows_every_cell_passing() {
    let verdicts = vec![true; 9];
    let r = run_with(nine_tasks(), RunPolicy::RunAllThenReport, &verdicts);
    let rep = report_from("Go", &r);
    assert_eq!(rep.language, "Go");
    assert_eq!(rep.project_structure, "VALID");
    assert_eq!(rep.licenses, "COMPATIBLE");
    assert_eq!(rep.dependencies, "YES");
    assert_eq!(rep.audit, "YES");
    assert_eq!(rep.test, "PASS");
    assert_eq!(rep.standard, "RESPECTED");
    assert_eq!(rep.documented, "GENERATED");
    assert_eq!(rep.outdated, "UP TO DATE");
    assert_eq!(rep.lint, "APPROVED");
    assert_eq!(rep.code, SUCCESS);
}

#[test]
fn aborted_run_leaves_unattempted_cells_failing() {
    let verdicts = vec![true, false, true, true, true, true, true, true, true];
    let r = run_with(nine_tasks(), RunPolicy::StopOnFirstFailure, &verdicts);
    assert_eq!(r.outcomes.len(), 2);
    let rep = report_from("Rust", &r);
    assert_eq!(rep.project_structure, "VALID");
    assert_eq!(rep.licenses, "NOT COMPATIBLE");
    // everything after the stop was never attempted and reports failure
    assert_eq!(rep.dependencies, "NO");
    assert_eq!(rep.test, "FAIL");
    assert_eq!(rep.lint, "REJECTED");
    assert_eq!(rep.code, FAILURE);
}

#[test]
fn secure_cell_is_never_updated_by_a_run() {
    let verdicts = vec![true; 9];
    let r = run_with(nine_tasks(), RunPolicy::RunAllThenReport, &verdicts);
    let rep = report_from("Rust", &r);
    assert_eq!(rep.secure, "NO");
}

#[test]
fn overall_exit_fails_if_any_subject_failed() {
    let verdicts_ok = vec![true; 9];
    let ok = run_with(nine_tasks(), RunPolicy::RunAllThenReport, &verdicts_ok);
    let verdicts_ko = vec![true, true, false, true, true, true, true, true, true];
    let ko = run_with(nine_tasks(), RunPolicy::RunAllThenReport, &verdicts_ko);
    let reports = vec![report_from("Rust", &ok), report_from("Go", &ko)];
    assert_eq!(overall_exit(&reports), FAILURE);
}

#[test]
fn overall_exit_succeeds_when_every_subject_passed() {
    let verdicts = vec![true; 9];
    let a = run_with(nine_tasks(), RunPolicy::RunAllThenReport, &verdicts);
    let b = run_with(nine_tasks(), RunPolicy::StopOnFirstFailure, &verdicts);
    let reports = vec![report_from("Rust", &a), report_from("Go", &b)];
    assert_eq!(overall_exit(&reports), SUCCESS);
}

#[test]
fn overall_exit_of_no_subjects_is_success() {
    assert_eq!(overall_exit(&Vec::new()), SUCCESS);
}
