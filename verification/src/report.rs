//! The per-subject report: one row of the final summary table. Each task
//! category owns a fixed position in the task list, and the cell of that
//! category is derived from the outcome at that position — a task that was
//! never attempted (the run stopped before it) reports its failure text, as
//! does a fresh report before any run.

use vstd::prelude::*;

use crate::task::{outcome_ok, ExecutionOutcome, RunResult};

verus! {

/// Position of each task category in a subject's task list. The order of the
/// task list and the columns of the report are coupled through these names
/// alone.
pub const TASK_STRUCTURE: usize = 0;

pub const TASK_LICENSES: usize = 1;

pub const TASK_DEPENDENCIES: usize = 2;

pub const TASK_AUDIT: usize = 3;

pub const TASK_TESTS: usize = 4;

pub const TASK_STANDARD: usize = 5;

pub const TASK_DOCUMENTATION: usize = 6;

pub const TASK_OUTDATED: usize = 7;

pub const TASK_LINT: usize = 8;

/// How many task categories a subject's task list has.
pub const TASK_CATEGORIES: usize = 9;

/// Cell texts of each category, one pair per column.
pub const PROJECT_STRUCTURE_VALID: &'static str = "VALID";

pub const PROJECT_STRUCTURE_NOT_VALID: &'static str = "NOT VALID";

pub const PROJECT_LICENSE_VALID: &'static str = "COMPATIBLE";

pub const PROJECT_LICENSE_NOT_VALID: &'static str = "NOT COMPATIBLE";

pub const BUILD_DEPENDENCIES_VALID: &'static str = "YES";

pub const BUILD_DEPENDENCIES_NOT_VALID: &'static str = "NO";

pub const AUDIT_VALID: &'static str = "YES";

pub const AUDIT_NOT_VALID: &'static str = "NO";

pub const TESTS_RESULT_VALID: &'static str = "PASS";

pub const TESTS_RESULTS_NOT_VALID: &'static str = "FAIL";

pub const RESPECT_OF_STANDARD_VALID: &'static str = "RESPECTED";

pub const RESPECT_OF_STANDARD_NOT_VALID: &'static str = "NOT RESPECTED";

pub const DOCUMENTED_VALID: &'static str = "GENERATED";

pub const DOCUMENTED_NOT_VALID: &'static str = "NOT GENERATED";

pub const OUTDATED_VALID: &'static str = "UP TO DATE";

pub const OUTDATED_NOT_VALID: &'static str = "OUTDATED";

pub const CODE_VALID: &'static str = "APPROVED";

pub const CODE_NOT_VALID: &'static str = "REJECTED";

/// Process exit values: a run that found nothing wrong exits with `SUCCESS`,
/// any other run with `FAILURE`.
pub const SUCCESS: i32 = 0;

pub const FAILURE: i32 = 1;

/// One row of the summary table: the subject's name, one text cell per task
/// category, and the subject's exit verdict.
pub struct Report {
    pub language: String,
    pub project_structure: String,
    pub licenses: String,
    pub dependencies: String,
    pub audit: String,
    pub test: String,
    pub secure: String,
    pub standard: String,
    pub documented: String,
    pub outdated: String,
    pub lint: String,
    pub code: i32,
}

/// The text a category's cell shows, given the recorded outcomes: the
/// category's success text when the task at its position was attempted and
/// succeeded, its failure text otherwise.
pub open spec fn cell(
    outcomes: Seq<ExecutionOutcome>,
    i: int,
    ok_text: Seq<char>,
    ko_text: Seq<char>,
) -> Seq<char> {
    if outcome_ok(outcomes, i) {
        ok_text
    } else {
        ko_text
    }
}

/// A report before any task ran: every cell shows its failure text, the
/// subject is unknown, and the verdict is failure.
pub open spec fn is_fresh_report(r: Report) -> bool {
    &&& r.language@ == "Unknown"@
    &&& r.project_structure@ == PROJECT_STRUCTURE_NOT_VALID@
    &&& r.licenses@ == PROJECT_LICENSE_NOT_VALID@
    &&& r.dependencies@ == BUILD_DEPENDENCIES_NOT_VALID@
    &&& r.audit@ == AUDIT_NOT_VALID@
    &&& r.test@ == TESTS_RESULTS_NOT_VALID@
    &&& r.secure@ == AUDIT_NOT_VALID@
    &&& r.standard@ == RESPECT_OF_STANDARD_NOT_VALID@
    &&& r.documented@ == DOCUMENTED_NOT_VALID@
    &&& r.outdated@ == OUTDATED_NOT_VALID@
    &&& r.lint@ == CODE_NOT_VALID@
    &&& r.code == FAILURE
}

impl Report {
    /// A fresh report: everything failing until a run says otherwise.
    pub fn new() -> (r: Self)
        ensures
            is_fresh_report(r),
    {
        Report {
            language: String::from_str("Unknown"),
            project_structure: String::from_str(PROJECT_STRUCTURE_NOT_VALID),
            licenses: String::from_str(PROJECT_LICENSE_NOT_VALID),
            dependencies: String::from_str(BUILD_DEPENDENCIES_NOT_VALID),
            audit: String::from_str(AUDIT_NOT_VALID),
            test: String::from_str(TESTS_RESULTS_NOT_VALID),
            secure: String::from_str(AUDIT_NOT_VALID),
            standard: String::from_str(RESPECT_OF_STANDARD_NOT_VALID),
            documented: String::from_str(DOCUMENTED_NOT_VALID),
            outdated: String::from_str(OUTDATED_NOT_VALID),
            lint: String::from_str(CODE_NOT_VALID),
            code: FAILURE,
        }
    }
}

impl Default for Report {
    /// Same as `Report::new`.
    fn default() -> (r: Self)
        ensures
            is_fresh_report(r),
    {
        Report::new()
    }
}

/// Whether the task at position `i` was attempted and succeeded.
fn nth_ok(outcomes: &Vec<ExecutionOutcome>, i: usize) -> (b: bool)
    ensures
        b == outcome_ok(outcomes@, i as int),
{
    i < outcomes.len() && outcomes[i].succeeded
}

/// The text of one category's cell.
fn cell_text(outcomes: &Vec<ExecutionOutcome>, i: usize, ok_text: &str, ko_text: &str) -> (t:
    String)
    ensures
        t@ == cell(outcomes@, i as int, ok_text@, ko_text@),
{
    if nth_ok(outcomes, i) {
        String::from_str(ok_text)
    } else {
        String::from_str(ko_text)
    }
}

/// Build the report row of one subject from its finished run: each category's
/// cell is derived from the outcome at the category's fixed position, and the
/// exit verdict mirrors the run's overall success.
pub fn report_from(language: &str, result: &RunResult) -> (r: Report)
    ensures
        r.language@ == language@,
        r.project_structure@ == cell(
            result.outcomes@,
            TASK_STRUCTURE as int,
            PROJECT_STRUCTURE_VALID@,
            PROJECT_STRUCTURE_NOT_VALID@,
        ),
        r.licenses@ == cell(
            result.outcomes@,
            TASK_LICENSES as int,
            PROJECT_LICENSE_VALID@,
            PROJECT_LICENSE_NOT_VALID@,
        ),
        r.dependencies@ == cell(
            result.outcomes@,
            TASK_DEPENDENCIES as int,
            BUILD_DEPENDENCIES_VALID@,
            BUILD_DEPENDENCIES_NOT_VALID@,
        ),
        r.audit@ == cell(result.outcomes@, TASK_AUDIT as int, AUDIT_VALID@, AUDIT_NOT_VALID@),
        r.test@ == cell(
            result.outcomes@,
            TASK_TESTS as int,
            TESTS_RESULT_VALID@,
            TESTS_RESULTS_NOT_VALID@,
        ),
        r.secure@ == AUDIT_NOT_VALID@,
        r.standard@ == cell(
            result.outcomes@,
            TASK_STANDARD as int,
            RESPECT_OF_STANDARD_VALID@,
            RESPECT_OF_STANDARD_NOT_VALID@,
        ),
        r.documented@ == cell(
            result.outcomes@,
            TASK_DOCUMENTATION as int,
            DOCUMENTED_VALID@,
            DOCUMENTED_NOT_VALID@,
        ),
        r.outdated@ == cell(
            result.outcomes@,
            TASK_OUTDATED as int,
            OUTDATED_VALID@,
            OUTDATED_NOT_VALID@,
        ),
        r.lint@ == cell(result.outcomes@, TASK_LINT as int, CODE_VALID@, CODE_NOT_VALID@),
        r.code == if result.overall_success {
            SUCCESS
        } else {
            FAILURE
        },
{
    let outcomes = &result.outcomes;
    Report {
        language: String::from_str(language),
        project_structure: cell_text(
            outcomes,
            TASK_STRUCTURE,
            PROJECT_STRUCTURE_VALID,
            PROJECT_STRUCTURE_NOT_VALID,
        ),
        licenses: cell_text(
            outcomes,
            TASK_LICENSES,
            PROJECT_LICENSE_VALID,
            PROJECT_LICENSE_NOT_VALID,
        ),
        dependencies: cell_text(
            outcomes,
            TASK_DEPENDENCIES,
            BUILD_DEPENDENCIES_VALID,
            BUILD_DEPENDENCIES_NOT_VALID,
        ),
        audit: cell_text(outcomes, TASK_AUDIT, AUDIT_VALID, AUDIT_NOT_VALID),
        test: cell_text(outcomes, TASK_TESTS, TESTS_RESULT_VALID, TESTS_RESULTS_NOT_VALID),
        secure: String::from_str(AUDIT_NOT_VALID),
        standard: cell_text(
            outcomes,
            TASK_STANDARD,
            RESPECT_OF_STANDARD_VALID,
            RESPECT_OF_STANDARD_NOT_VALID,
        ),
        documented: cell_text(outcomes, TASK_DOCUMENTATION, DOCUMENTED_VALID, DOCUMENTED_NOT_VALID),
        outdated: cell_text(outcomes, TASK_OUTDATED, OUTDATED_VALID, OUTDATED_NOT_VALID),
        lint: cell_text(outcomes, TASK_LINT, CODE_VALID, CODE_NOT_VALID),
        code: if result.overall_success {
            SUCCESS
        } else {
            FAILURE
        },
    }
}

/// Exit verdict of the whole invocation: failure as soon as any subject's
/// report carries a failure verdict, success only when none does.
pub fn overall_exit(reports: &Vec<Report>) -> (code: i32)
    ensures
        (code == FAILURE) <==> (exists|i: int|
            0 <= i < reports@.len() && reports@[i].code == FAILURE),
        code == FAILURE || code == SUCCESS,
{
    let mut i: usize = 0;
    while i < reports.len()
        invariant
            0 <= i <= reports@.len(),
            forall|j: int| 0 <= j < i ==> reports@[j].code != FAILURE,
        decreases reports@.len() - i,
    {
        if reports[i].code == FAILURE {
            return FAILURE;
        }
        i = i + 1;
    }
    SUCCESS
}

} // verus!
