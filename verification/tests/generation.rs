// Where a test is named after a command-level scenario, it checks the part of that scenario
// that the library decides: reading and writing files, the consent store and running the
// program belong to the application and are not exercised here, so such a test asserts fewer
// values than the whole scenario does.
use std::collections::BTreeMap;

use bkmt::generation::{
    action_name, check_review, execution_status_name, file_action_name, file_outcome, outcome,
    plan_output, report_output, status_name, task_error, validate_generation_request,
    ExecutedFile, ExecutionStatus, FileAction, FileGenerationRequest, FileOutcome, PlannedFile,
    ReviewedFileInput,
};

fn request(template_json: String, destination: &str) -> FileGenerationRequest {
    FileGenerationRequest {
        template_json,
        destination: destination.to_string(),
        variables: BTreeMap::from([("name".to_string(), "Demo".to_string())]),
        overwrite: false,
    }
}

fn planned(path: &str, action: FileAction, revision: Option<&str>) -> PlannedFile {
    PlannedFile {
        relative_path: path.to_string(),
        action,
        target_revision: revision.map(str::to_string),
    }
}

fn reviewed(path: &str, action: &str, revision: Option<&str>) -> ReviewedFileInput {
    ReviewedFileInput {
        path: path.to_string(),
        action: action.to_string(),
        target_revision: revision.map(str::to_string),
    }
}

#[test]
fn names_are_stable() {
    assert_eq!(action_name(FileAction::Create), "create");
    assert_eq!(action_name(FileAction::Overwrite), "overwrite");
    assert_eq!(file_action_name(FileAction::Conflict), "conflict");
    assert_eq!(status_name(ExecutionStatus::Complete), "complete");
    assert_eq!(execution_status_name(ExecutionStatus::PartialFailure), "partial_failure");
    assert_eq!(status_name(ExecutionStatus::Failed), "failed");
    assert_eq!(file_outcome(&FileOutcome::SkippedConflict), ("skipped_conflict", None));
    assert_eq!(file_outcome(&FileOutcome::Failed("disk full".to_string())), ("failed", Some("disk full")));
    let task = task_error("join error");
    assert_eq!((task.code.as_str(), task.message.as_str()), ("file_generation_task_failed", "join error"));
}

#[test]
fn desktop_planning_rejects_empty_destinations_and_oversized_templates() {
    let e = validate_generation_request(&request("{}".to_string(), "")).unwrap_err();
    assert_eq!(e.code, "invalid_destination");
    let e = validate_generation_request(&request(" ".repeat(1024 * 1024 + 1), "output")).unwrap_err();
    assert_eq!(e.code, "user_template_too_large");
    assert_eq!(e.message, "template exceeds 1 MiB");
    assert!(validate_generation_request(&request(" ".repeat(1024 * 1024), "output")).is_ok());
}

#[test]
fn desktop_command_plans_files_through_the_shared_core() {
    let plan = plan_output(&vec![planned("README.md", FileAction::Create, None)]);
    assert_eq!(plan.status, "planned");
    assert_eq!(plan.files[0].path, "README.md");
    assert_eq!(plan.files[0].action, "create");
    assert_eq!(plan.files[0].target_revision, None);
}

#[test]
fn desktop_execution_is_authorized_in_rust_and_returns_each_file() {
    let current = vec![planned("README.md", FileAction::Create, None)];
    assert!(check_review(&current, &vec![reviewed("README.md", "create", None)]).is_ok());
    let report = report_output(
        ExecutionStatus::Complete,
        &vec![ExecutedFile { relative_path: "README.md".to_string(), outcome: FileOutcome::Created }],
    );
    assert_eq!(report.status, "complete");
    assert_eq!(report.files[0].path, "README.md");
    assert_eq!(report.files[0].outcome, "created");
    assert_eq!(report.files[0].error, None);
}

#[test]
fn desktop_execution_rejects_a_destination_changed_after_preview() {
    let current = vec![planned("README.md", FileAction::Conflict, None)];
    let e = check_review(&current, &vec![reviewed("README.md", "create", None)]).unwrap_err();
    assert_eq!(e.code, "plan_changed");
    assert_eq!(e.message, "the destination changed after preview; review a new plan");
}

#[test]
fn desktop_execution_rejects_an_overwrite_target_changed_after_preview() {
    let current = vec![planned("README.md", FileAction::Overwrite, Some("rev-2"))];
    let e = check_review(&current, &vec![reviewed("README.md", "overwrite", Some("rev-1"))]).unwrap_err();
    assert_eq!(e.code, "plan_changed");
    assert!(check_review(&current, &vec![reviewed("README.md", "overwrite", Some("rev-2"))]).is_ok());
    assert!(check_review(&current, &vec![]).is_err());
    assert!(check_review(&current, &vec![reviewed("README.md", "overwrite", None)]).is_err());
}

#[test]
fn an_unchanged_preview_passes_review() {
    let files = vec![
        planned("a.txt", FileAction::Create, None),
        planned("b.txt", FileAction::Overwrite, Some("r")),
        planned("dir", FileAction::Conflict, None),
    ];
    let shown = plan_output(&files);
    let back: Vec<ReviewedFileInput> = shown
        .files
        .into_iter()
        .map(|f| ReviewedFileInput { path: f.path, action: f.action, target_revision: f.target_revision })
        .collect();
    assert!(check_review(&files, &back).is_ok());
}

#[test]
fn desktop_overwrite_keeps_existing_directories_as_conflicts() {
    let report = report_output(
        ExecutionStatus::Conflict,
        &vec![ExecutedFile { relative_path: "existing".to_string(), outcome: FileOutcome::SkippedConflict }],
    );
    assert_eq!(report.status, "conflict");
    assert_eq!(report.files[0].outcome, "skipped_conflict");
    let failed = outcome(&ExecutedFile { relative_path: "x".to_string(), outcome: FileOutcome::Failed("denied".to_string()) });
    assert_eq!(failed.outcome, "failed");
    assert_eq!(failed.error.as_deref(), Some("denied"));
}
