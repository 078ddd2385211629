//! File generation as the adapters see it: the request, the plan shown for review, the
//! check that a reviewed plan is still current, and the execution report.
use vstd::prelude::*;

use std::collections::BTreeMap;

use crate::errors::{command_error, CliError, CommandError};
use crate::templates::MAX_USER_TEMPLATE_BYTES;
use crate::text::str_eq;

verus! {

/// What the plan intends for one file.
#[derive(Debug, Clone, Copy, PartialEq, Eq)]
pub enum FileAction {
    Create,
    Overwrite,
    Conflict,
}

/// The overall status of an executed plan.
#[derive(Debug, Clone, Copy, PartialEq, Eq)]
pub enum ExecutionStatus {
    Complete,
    Conflict,
    PartialFailure,
    Failed,
}

/// What happened to one file when the plan was executed.
#[derive(Debug, Clone, PartialEq, Eq)]
pub enum FileOutcome {
    Created,
    Overwritten,
    SkippedConflict,
    Failed(String),
}

/// One file of a generation plan: its path relative to the destination, the action, and the
/// revision of the file it would overwrite.
#[derive(Debug, Clone, PartialEq, Eq)]
pub struct PlannedFile {
    pub relative_path: String,
    pub action: FileAction,
    pub target_revision: Option<String>,
}

/// One file of an execution report.
#[derive(Debug, Clone, PartialEq, Eq)]
pub struct ExecutedFile {
    pub relative_path: String,
    pub outcome: FileOutcome,
}

/// A request of the desktop to plan or execute a file generation.
#[derive(Debug, Clone, PartialEq, Eq)]
pub struct FileGenerationRequest {
    pub template_json: String,
    pub destination: String,
    pub variables: BTreeMap<String, String>,
    pub overwrite: bool,
}

/// A planned file as the desktop shows it.
#[derive(Debug, Clone, PartialEq, Eq)]
pub struct PlannedFileOutput {
    pub path: String,
    pub action: String,
    pub target_revision: Option<String>,
}

/// A planned file as the user reviewed it.
#[derive(Debug, Clone, PartialEq, Eq)]
pub struct ReviewedFileInput {
    pub path: String,
    pub action: String,
    pub target_revision: Option<String>,
}

/// A plan as the desktop shows it.
#[derive(Debug, Clone, PartialEq, Eq)]
pub struct FileGenerationPlanOutput {
    pub status: String,
    pub files: Vec<PlannedFileOutput>,
}

/// An executed file as the desktop reports it.
#[derive(Debug, Clone, PartialEq, Eq)]
pub struct ExecutedFileOutput {
    pub path: String,
    pub outcome: String,
    pub error: Option<String>,
}

/// An execution report as the desktop shows it.
#[derive(Debug, Clone, PartialEq, Eq)]
pub struct FileGenerationReportOutput {
    pub status: String,
    pub files: Vec<ExecutedFileOutput>,
}

/// The name of a planned action.
pub open spec fn action_text(a: FileAction) -> Seq<char> {
    match a {
        FileAction::Create => "create"@,
        FileAction::Overwrite => "overwrite"@,
        FileAction::Conflict => "conflict"@,
    }
}

/// The name of an execution status.
pub open spec fn status_text(s: ExecutionStatus) -> Seq<char> {
    match s {
        ExecutionStatus::Complete => "complete"@,
        ExecutionStatus::Conflict => "conflict"@,
        ExecutionStatus::PartialFailure => "partial_failure"@,
        ExecutionStatus::Failed => "failed"@,
    }
}

/// The name of a file outcome.
pub open spec fn outcome_text(o: FileOutcome) -> Seq<char> {
    match o {
        FileOutcome::Created => "created"@,
        FileOutcome::Overwritten => "overwritten"@,
        FileOutcome::SkippedConflict => "skipped_conflict"@,
        FileOutcome::Failed(_) => "failed"@,
    }
}

/// The error message that a file outcome carries.
pub open spec fn outcome_error(o: FileOutcome) -> Option<Seq<char>> {
    match o {
        FileOutcome::Failed(e) => Some(e@),
        _ => None,
    }
}

/// The name of a planned action (desktop).
pub fn action_name(action: FileAction) -> (r: &'static str)
    ensures
        r@ == action_text(action),
{
    match action {
        FileAction::Create => "create",
        FileAction::Overwrite => "overwrite",
        FileAction::Conflict => "conflict",
    }
}

/// The name of a planned action (command line).
pub fn file_action_name(action: FileAction) -> (r: &'static str)
    ensures
        r@ == action_text(action),
{
    action_name(action)
}

/// The name of an execution status (desktop).
pub fn status_name(status: ExecutionStatus) -> (r: &'static str)
    ensures
        r@ == status_text(status),
{
    match status {
        ExecutionStatus::Complete => "complete",
        ExecutionStatus::Conflict => "conflict",
        ExecutionStatus::PartialFailure => "partial_failure",
        ExecutionStatus::Failed => "failed",
    }
}

/// The name of an execution status (command line).
pub fn execution_status_name(status: ExecutionStatus) -> (r: &'static str)
    ensures
        r@ == status_text(status),
{
    status_name(status)
}

/// The name of a file outcome and the error it carries (command line).
pub fn file_outcome(outcome: &FileOutcome) -> (r: (&'static str, Option<&str>))
    ensures
        r.0@ == outcome_text(*outcome),
        match r.1 {
            Some(e) => outcome_error(*outcome) == Some(e@),
            None => outcome_error(*outcome) is None,
        },
{
    match outcome {
        FileOutcome::Created => ("created", None),
        FileOutcome::Overwritten => ("overwritten", None),
        FileOutcome::SkippedConflict => ("skipped_conflict", None),
        FileOutcome::Failed(error) => ("failed", Some(error.as_str())),
    }
}

/// An executed file as the desktop reports it.
pub fn outcome(file: &ExecutedFile) -> (r: ExecutedFileOutput)
    ensures
        r.path@ == file.relative_path@,
        r.outcome@ == outcome_text(file.outcome),
        match r.error {
            Some(e) => outcome_error(file.outcome) == Some(e@),
            None => outcome_error(file.outcome) is None,
        },
{
    let (name, error) = file_outcome(&file.outcome);
    let error = match error {
        Some(e) => Some(e.to_owned()),
        None => None,
    };
    ExecutedFileOutput { path: file.relative_path.clone(), outcome: name.to_owned(), error }
}

/// The error with which a desktop command reports that its worker task failed.
pub fn task_error(message: &str) -> (r: CommandError)
    ensures
        r.code@ == "file_generation_task_failed"@,
        r.message@ == message@,
{
    command_error("file_generation_task_failed", message)
}

/// Checks a desktop generation request before anything is authorized or parsed: the
/// destination must not be empty and the template must fit in 1 MiB.
pub fn validate_generation_request(request: &FileGenerationRequest) -> (r: Result<(), CommandError>)
    ensures
        request.destination@.len() == 0 ==> (r matches Err(e) && e.code@ == "invalid_destination"@
            && e.message@ == "destination must not be empty"@),
        request.destination@.len() > 0 && crate::text::utf8_len(request.template_json@)
            > MAX_USER_TEMPLATE_BYTES ==> (r matches Err(e) && e.code@
            == "user_template_too_large"@ && e.message@ == "template exceeds 1 MiB"@),
        r is Ok <==> request.destination@.len() > 0 && crate::text::utf8_len(request.template_json@)
            <= MAX_USER_TEMPLATE_BYTES,
{
    if request.destination.as_str().is_empty() {
        return Err(command_error("invalid_destination", "destination must not be empty"));
    }
    if request.template_json.as_str().len() as u64 > MAX_USER_TEMPLATE_BYTES {
        return Err(command_error("user_template_too_large", "template exceeds 1 MiB"));
    }
    Ok(())
}

/// A planned file shown as the desktop shows it, and as it must come back reviewed.
pub open spec fn planned_view(f: PlannedFile) -> (Seq<char>, Seq<char>, Option<Seq<char>>) {
    (f.relative_path@, action_text(f.action), opt_view(f.target_revision))
}

/// The characters of an optional string.
pub open spec fn opt_view(o: Option<String>) -> Option<Seq<char>> {
    match o {
        Some(s) => Some(s@),
        None => None,
    }
}

/// A reviewed file as plain text.
pub open spec fn reviewed_view(f: ReviewedFileInput) -> (Seq<char>, Seq<char>, Option<Seq<char>>) {
    (f.path@, f.action@, opt_view(f.target_revision))
}

fn clone_opt(o: &Option<String>) -> (r: Option<String>)
    ensures
        opt_view(r) == opt_view(*o),
{
    match o {
        Some(s) => Some(s.clone()),
        None => None,
    }
}

/// The plan output of the desktop for planned files.
pub fn plan_output(files: &Vec<PlannedFile>) -> (r: FileGenerationPlanOutput)
    ensures
        r.status@ == "planned"@,
        r.files@.len() == files@.len(),
        forall|i: int|
            0 <= i < files@.len() ==> (#[trigger] r.files@[i]).path@ == files@[i].relative_path@
                && r.files@[i].action@ == action_text(files@[i].action) && opt_view(
                r.files@[i].target_revision,
            ) == opt_view(files@[i].target_revision),
{
    let mut out: Vec<PlannedFileOutput> = Vec::new();
    let mut i: usize = 0;
    while i < files.len()
        invariant
            i <= files@.len(),
            out@.len() == i,
            forall|j: int|
                0 <= j < i ==> (#[trigger] out@[j]).path@ == files@[j].relative_path@
                    && out@[j].action@ == action_text(files@[j].action) && opt_view(
                    out@[j].target_revision,
                ) == opt_view(files@[j].target_revision),
        decreases files@.len() - i,
    {
        let f = &files[i];
        out.push(
            PlannedFileOutput {
                path: f.relative_path.clone(),
                action: action_name(f.action).to_owned(),
                target_revision: clone_opt(&f.target_revision),
            },
        );
        i = i + 1;
    }
    FileGenerationPlanOutput { status: "planned".to_owned(), files: out }
}

fn opt_eq(a: &Option<String>, b: &Option<String>) -> (r: bool)
    ensures
        r == (opt_view(*a) == opt_view(*b)),
{
    match (a, b) {
        (Some(x), Some(y)) => str_eq(x.as_str(), y.as_str()),
        (None, None) => true,
        _ => false,
    }
}

/// The reviewed files are exactly the current plan, file by file.
pub open spec fn review_matches(current: Seq<PlannedFile>, reviewed: Seq<ReviewedFileInput>) -> bool {
    &&& current.len() == reviewed.len()
    &&& forall|i: int|
        0 <= i < current.len() ==> planned_view(#[trigger] current[i]) == reviewed_view(reviewed[i])
}

/// Refuses to execute when the plan computed now differs from the plan the user reviewed.
pub fn check_review(current: &Vec<PlannedFile>, reviewed: &Vec<ReviewedFileInput>) -> (r: Result<(), CommandError>)
    ensures
        r is Ok <==> review_matches(current@, reviewed@),
        r is Ok ==> current@.len() == reviewed@.len() && forall|i: int|
            0 <= i < current@.len() ==> (#[trigger] current@[i]).relative_path@ == reviewed@[i].path@
                && opt_view(current@[i].target_revision) == opt_view(reviewed@[i].target_revision),
        r matches Err(e) ==> e.code@ == "plan_changed"@ && e.message@
            == "the destination changed after preview; review a new plan"@,
{
    let changed = command_error(
        "plan_changed",
        "the destination changed after preview; review a new plan",
    );
    if current.len() != reviewed.len() {
        return Err(changed);
    }
    let mut i: usize = 0;
    while i < current.len()
        invariant
            current@.len() == reviewed@.len(),
            i <= current@.len(),
            changed.code@ == "plan_changed"@,
            changed.message@ == "the destination changed after preview; review a new plan"@,
            forall|j: int|
                0 <= j < i ==> planned_view(#[trigger] current@[j]) == reviewed_view(reviewed@[j]),
        decreases current@.len() - i,
    {
        let c = &current[i];
        let r = &reviewed[i];
        let same = str_eq(c.relative_path.as_str(), r.path.as_str()) && str_eq(
            action_name(c.action),
            r.action.as_str(),
        ) && opt_eq(&c.target_revision, &r.target_revision);
        if !same {
            return Err(changed);
        }
        i = i + 1;
    }
    Ok(())
}

/// The report output of the desktop for an executed plan.
pub fn report_output(status: ExecutionStatus, files: &Vec<ExecutedFile>) -> (r: FileGenerationReportOutput)
    ensures
        r.status@ == status_text(status),
        r.files@.len() == files@.len(),
        forall|i: int|
            0 <= i < files@.len() ==> (#[trigger] r.files@[i]).path@ == files@[i].relative_path@
                && r.files@[i].outcome@ == outcome_text(files@[i].outcome) && opt_view(
                r.files@[i].error,
            ) == outcome_error(files@[i].outcome),
{
    let mut out: Vec<ExecutedFileOutput> = Vec::new();
    let mut i: usize = 0;
    while i < files.len()
        invariant
            i <= files@.len(),
            out@.len() == i,
            forall|j: int|
                0 <= j < i ==> (#[trigger] out@[j]).path@ == files@[j].relative_path@
                    && out@[j].outcome@ == outcome_text(files@[j].outcome) && opt_view(
                    out@[j].error,
                ) == outcome_error(files@[j].outcome),
        decreases files@.len() - i,
    {
        out.push(outcome(&files[i]));
        i = i + 1;
    }
    FileGenerationReportOutput { status: status_name(status).to_owned(), files: out }
}

impl CliError {
    /// The error with which the command line ends after executing a plan, if any: a conflict
    /// exits with 3, a partial or total failure with 5.
    pub fn execution_status(status: ExecutionStatus, json: bool) -> (r: Option<CliError>)
        ensures
            status == ExecutionStatus::Complete <==> r is None,
            status == ExecutionStatus::Conflict ==> (r matches Some(e) && e.code@ == "conflict"@
                && e.message@ == "one or more files conflict with existing files"@ && e.exit_code == 3),
            status == ExecutionStatus::PartialFailure ==> (r matches Some(e) && e.code@
                == "partial_failure"@ && e.message@ == "some files could not be generated"@
                && e.exit_code == 5),
            status == ExecutionStatus::Failed ==> (r matches Some(e) && e.code@ == "execution_failed"@
                && e.message@ == "files could not be generated"@ && e.exit_code == 5),
            r matches Some(e) ==> e.json == json && e.details is None,
    {
        match status {
            ExecutionStatus::Complete => None,
            ExecutionStatus::Conflict => Some(
                CliError::operation("conflict", "one or more files conflict with existing files", 3, json),
            ),
            ExecutionStatus::PartialFailure => Some(
                CliError::operation("partial_failure", "some files could not be generated", 5, json),
            ),
            ExecutionStatus::Failed => Some(
                CliError::operation("execution_failed", "files could not be generated", 5, json),
            ),
        }
    }
}

} // verus!

verus! {

/// A plan shown for review and sent back unchanged passes the review check: execution is
/// refused only when the plan differs from the one the user saw.
pub proof fn law_unchanged_preview_passes_review(
    files: Seq<PlannedFile>,
    shown: Seq<PlannedFileOutput>,
    reviewed: Seq<ReviewedFileInput>,
)
    requires
        shown.len() == files.len(),
        forall|i: int|
            0 <= i < files.len() ==> (#[trigger] shown[i]).path@ == files[i].relative_path@
                && shown[i].action@ == action_text(files[i].action) && opt_view(
                shown[i].target_revision,
            ) == opt_view(files[i].target_revision),
        reviewed.len() == shown.len(),
        forall|i: int|
            0 <= i < shown.len() ==> (#[trigger] reviewed[i]).path@ == shown[i].path@
                && reviewed[i].action@ == shown[i].action@ && opt_view(reviewed[i].target_revision)
                == opt_view(shown[i].target_revision),
    ensures
        review_matches(files, reviewed),
{
    assert forall|i: int| 0 <= i < files.len() implies planned_view(#[trigger] files[i])
        == reviewed_view(reviewed[i]) by {
        assert(shown[i].path@ == files[i].relative_path@);
        assert(reviewed[i].path@ == shown[i].path@);
    }
}

/// Only a complete execution reports the status name `complete`.
pub proof fn law_only_complete_is_named_complete(status: ExecutionStatus)
    ensures
        (status == ExecutionStatus::Complete) == (status_text(status) == "complete"@),
{
    reveal_strlit("complete");
    reveal_strlit("conflict");
    reveal_strlit("partial_failure");
    reveal_strlit("failed");
    match status {
        ExecutionStatus::Complete => {},
        ExecutionStatus::Conflict => {
            assert(status_text(status)[2] != "complete"@[2]);
        },
        ExecutionStatus::PartialFailure => {
            assert(status_text(status)[0] != "complete"@[0]);
        },
        ExecutionStatus::Failed => {
            assert(status_text(status)[0] != "complete"@[0]);
        },
    }
}

/// The name under which a planned action is shown for review and must come back: a file to
/// create is `create`, one to overwrite `overwrite`, a conflict `conflict`.
pub proof fn law_review_names_each_action(a: FileAction)
    ensures
        a == FileAction::Create <==> action_text(a) == "create"@,
        a == FileAction::Overwrite <==> action_text(a) == "overwrite"@,
        a == FileAction::Conflict <==> action_text(a) == "conflict"@,
{
    reveal_strlit("create");
    reveal_strlit("overwrite");
    reveal_strlit("conflict");
    assert("create"@[0] != "overwrite"@[0]);
    assert("create"@[1] != "conflict"@[1]);
    assert("overwrite"@[0] != "conflict"@[0]);
}

/// A review passes exactly when the user reviewed the same files as are planned now, in the
/// same order: each reviewed file has the planned file's path, the name of its action, and the
/// revision of the file it would overwrite. A planned file that is not the one reviewed, at any
/// position, fails the review.
pub proof fn law_review_passes_only_for_the_reviewed_files(
    current: Seq<PlannedFile>,
    reviewed: Seq<ReviewedFileInput>,
)
    ensures
        review_matches(current, reviewed) <==> {
            &&& current.len() == reviewed.len()
            &&& forall|i: int|
                0 <= i < current.len() ==> {
                    &&& (#[trigger] current[i]).relative_path@ == reviewed[i].path@
                    &&& (current[i].action == FileAction::Create ==> reviewed[i].action@ == "create"@)
                    &&& (current[i].action == FileAction::Overwrite ==> reviewed[i].action@
                        == "overwrite"@)
                    &&& (current[i].action == FileAction::Conflict ==> reviewed[i].action@
                        == "conflict"@)
                    &&& (current[i].target_revision is Some <==> reviewed[i].target_revision is Some)
                    &&& (current[i].target_revision matches Some(t) ==> reviewed[i].target_revision->0@
                        == t@)
                }
        },
{
    reveal_strlit("create");
    reveal_strlit("overwrite");
    reveal_strlit("conflict");
}

} // verus!
