// Where a test is named after a command-level scenario, it checks the part of that scenario
// that the library decides: reading and writing files, the consent store and running the
// program belong to the application and are not exercised here, so such a test asserts fewer
// values than the whole scenario does.
use std::collections::BTreeMap;

use bkmt::capability::{AuthorizationError, AuthorizationErrorKind};
use bkmt::errors::{command_error, CliError};
use bkmt::capability::CapabilityId;
use bkmt::flows::{
    advance_analysis, advance_cli_generation, advance_generation, start_analysis,
    start_cli_generation, start_generation, AnalysisAction, AnalysisEvent, AnalysisStage,
    CliGenerationAction, CliGenerationEvent, CliGenerationStage, GenerationAction,
    GenerationEvent, GenerationStage,
};
use bkmt::generation::{
    ExecutedFile, ExecutionStatus, FileAction, FileGenerationRequest, FileOutcome, PlannedFile,
    ReviewedFileInput,
};

fn request(destination: &str) -> FileGenerationRequest {
    FileGenerationRequest {
        template_json: "{}".to_string(),
        destination: destination.to_string(),
        variables: BTreeMap::new(),
        overwrite: false,
    }
}

fn readme() -> PlannedFile {
    PlannedFile {
        relative_path: "README.md".to_string(),
        action: FileAction::Create,
        target_revision: None,
    }
}

fn reviewed_readme() -> ReviewedFileInput {
    ReviewedFileInput {
        path: "README.md".to_string(),
        action: "create".to_string(),
        target_revision: None,
    }
}

fn denied() -> AuthorizationError {
    AuthorizationError {
        kind: AuthorizationErrorKind::ConsentDenied,
        message: "consent denied".to_string(),
    }
}

#[test]
fn desktop_plan_asks_for_consent_before_parsing_and_planning() {
    let (flow, action) = start_generation(&request("/tmp/out"), None);
    assert_eq!(flow.stage, GenerationStage::Authorizing);
    assert_eq!(action, GenerationAction::Authorize);
    let (flow, action) = advance_generation(flow, GenerationEvent::Authorized(Ok(())));
    assert_eq!(action, GenerationAction::ParseTemplate);
    let (flow, action) = advance_generation(flow, GenerationEvent::TemplateParsed(Ok(())));
    assert_eq!(action, GenerationAction::PlanFiles);
    let (flow, action) = advance_generation(flow, GenerationEvent::FilesPlanned(Ok(vec![readme()])));
    assert_eq!(flow.stage, GenerationStage::Done);
    match action {
        GenerationAction::AnswerPlan(plan) => {
            assert_eq!(plan.status, "planned");
            assert_eq!(plan.files.len(), 1);
            assert_eq!(plan.files[0].path, "README.md");
            assert_eq!(plan.files[0].action, "create");
        }
        other => panic!("unexpected action {other:?}"),
    }
}

#[test]
fn desktop_generation_refuses_before_consent_when_the_request_is_invalid() {
    let (flow, action) = start_generation(&request(""), None);
    assert_eq!(flow.stage, GenerationStage::Done);
    assert_eq!(action, GenerationAction::Fail(command_error("invalid_destination", "destination must not be empty")));
}

#[test]
fn desktop_generation_stops_when_consent_is_denied() {
    let (flow, _) = start_generation(&request("/tmp/out"), Some(vec![reviewed_readme()]));
    let (flow, action) = advance_generation(flow, GenerationEvent::Authorized(Err(denied())));
    assert_eq!(flow.stage, GenerationStage::Done);
    assert_eq!(action, GenerationAction::Fail(command_error("consent_denied", "consent denied")));
}

#[test]
fn desktop_execution_writes_only_the_reviewed_plan() {
    let (flow, _) = start_generation(&request("/tmp/out"), Some(vec![reviewed_readme()]));
    let (flow, _) = advance_generation(flow, GenerationEvent::Authorized(Ok(())));
    let (flow, _) = advance_generation(flow, GenerationEvent::TemplateParsed(Ok(())));
    let changed = PlannedFile {
        action: FileAction::Overwrite,
        target_revision: Some("rev-1".to_string()),
        ..readme()
    };
    let (done, action) = advance_generation(flow.clone(), GenerationEvent::FilesPlanned(Ok(vec![changed])));
    assert_eq!(done.stage, GenerationStage::Done);
    match action {
        GenerationAction::Fail(error) => assert_eq!(error.code, "plan_changed"),
        other => panic!("unexpected action {other:?}"),
    }
    let (flow, action) = advance_generation(flow, GenerationEvent::FilesPlanned(Ok(vec![readme()])));
    assert_eq!(action, GenerationAction::CreateDestination);
    let (flow, action) = advance_generation(flow, GenerationEvent::DestinationCreated(Ok(())));
    assert_eq!(action, GenerationAction::ExecutePlan);
    let executed = vec![ExecutedFile {
        relative_path: "README.md".to_string(),
        outcome: FileOutcome::Failed("disk full".to_string()),
    }];
    let (flow, action) = advance_generation(flow, GenerationEvent::PlanExecuted(ExecutionStatus::Failed, executed));
    assert_eq!(flow.stage, GenerationStage::Done);
    match action {
        GenerationAction::AnswerReport(report) => {
            assert_eq!(report.status, "failed");
            assert_eq!(report.files[0].outcome, "failed");
            assert_eq!(report.files[0].error.as_deref(), Some("disk full"));
        }
        other => panic!("unexpected action {other:?}"),
    }
}

#[test]
fn desktop_execution_reports_an_unavailable_destination() {
    let (flow, _) = start_generation(&request("/tmp/out"), Some(vec![]));
    let (flow, _) = advance_generation(flow, GenerationEvent::Authorized(Ok(())));
    let (flow, _) = advance_generation(flow, GenerationEvent::TemplateParsed(Ok(())));
    let (flow, action) = advance_generation(flow, GenerationEvent::FilesPlanned(Ok(vec![])));
    assert_eq!(action, GenerationAction::CreateDestination);
    let (_, action) = advance_generation(flow, GenerationEvent::DestinationCreated(Err("read-only".to_string())));
    assert_eq!(action, GenerationAction::Fail(command_error("destination_unavailable", "read-only")));
}

#[test]
fn dry_run_only_prints_the_plan() {
    assert_eq!(start_cli_generation(true), (CliGenerationStage::Done, CliGenerationAction::RenderPlan));
    assert_eq!(
        start_cli_generation(false),
        (CliGenerationStage::ResolvingDataRoot, CliGenerationAction::ResolveDataRoot)
    );
}

#[test]
fn file_create_requires_consent_before_writing() {
    let (stage, action) = advance_cli_generation(
        CliGenerationStage::ResolvingDataRoot,
        CliGenerationEvent::DataRootResolved(Ok(())),
        true,
    );
    assert_eq!(action, CliGenerationAction::Authorize);
    let required = AuthorizationError {
        kind: AuthorizationErrorKind::ConsentRequired,
        message: "consent required".to_string(),
    };
    let (done, action) = advance_cli_generation(stage, CliGenerationEvent::Authorized(Err(required)), true);
    assert_eq!(done, CliGenerationStage::Done);
    assert_eq!(action, CliGenerationAction::Fail(CliError::consent_required(true)));
    let (_, action) = advance_cli_generation(stage, CliGenerationEvent::Authorized(Err(denied())), false);
    assert_eq!(action, CliGenerationAction::Fail(CliError::consent_denied(false)));
    let (stage, action) = advance_cli_generation(stage, CliGenerationEvent::Authorized(Ok(())), true);
    assert_eq!(action, CliGenerationAction::CreateDestination);
    let (_, action) = advance_cli_generation(
        stage,
        CliGenerationEvent::DestinationCreated(Err("permission denied".to_string())),
        true,
    );
    assert_eq!(
        action,
        CliGenerationAction::Fail(CliError::operation(
            "destination_unavailable",
            "failed to create destination: permission denied",
            1,
            true
        ))
    );
    let (stage, action) = advance_cli_generation(stage, CliGenerationEvent::DestinationCreated(Ok(())), true);
    assert_eq!(action, CliGenerationAction::ExecutePlan);
    let (done, action) = advance_cli_generation(stage, CliGenerationEvent::PlanExecuted(ExecutionStatus::Conflict), true);
    assert_eq!(done, CliGenerationStage::Done);
    match action {
        CliGenerationAction::RenderReport(Some(error)) => {
            assert_eq!(error.code, "conflict");
            assert_eq!(error.exit_code, 3);
        }
        other => panic!("unexpected action {other:?}"),
    }
    let (_, action) = advance_cli_generation(
        CliGenerationStage::Executing,
        CliGenerationEvent::PlanExecuted(ExecutionStatus::Complete),
        true,
    );
    assert_eq!(action, CliGenerationAction::RenderReport(None));
}

#[test]
fn unavailable_data_root_ends_file_create() {
    let error = CliError::operation("data_root_unavailable", "no home", 1, true);
    let (stage, action) = advance_cli_generation(
        CliGenerationStage::ResolvingDataRoot,
        CliGenerationEvent::DataRootResolved(Err(error.clone())),
        true,
    );
    assert_eq!(stage, CliGenerationStage::Done);
    assert_eq!(action, CliGenerationAction::Fail(error));
}

#[test]
fn spark_ai_analysis_requires_network_consent_in_rust() {
    let (stage, action) = start_analysis();
    assert_eq!(action, AnalysisAction::CheckConsent(CapabilityId::NetworkSpark));
    let required = AuthorizationError {
        kind: AuthorizationErrorKind::ConsentRequired,
        message: "consent required".to_string(),
    };
    let (done, action) = advance_analysis(stage, AnalysisEvent::ConsentChecked(Err(required)), true);
    assert_eq!(done, AnalysisStage::Done);
    assert_eq!(
        action,
        AnalysisAction::Fail(CliError::capability(
            "consent_required",
            "consent required",
            "spark-analyzer",
            "network:spark",
            true
        ))
    );
}

#[test]
fn spark_ai_analysis_requires_credential_consent_in_rust() {
    let (stage, _) = start_analysis();
    let (stage, action) = advance_analysis(stage, AnalysisEvent::ConsentChecked(Ok(())), true);
    assert_eq!(stage, AnalysisStage::CheckingCredentials);
    assert_eq!(action, AnalysisAction::CheckConsent(CapabilityId::CredentialsAi));
    let (_, action) = advance_analysis(stage, AnalysisEvent::ConsentChecked(Err(denied())), false);
    assert_eq!(
        action,
        AnalysisAction::Fail(CliError::capability(
            "consent_denied",
            "consent denied",
            "spark-analyzer",
            "credentials:ai",
            false
        ))
    );
}

#[test]
fn spark_ai_analysis_needs_a_credential_after_both_consents() {
    let (stage, _) = start_analysis();
    let (stage, _) = advance_analysis(stage, AnalysisEvent::ConsentChecked(Ok(())), true);
    let (stage, action) = advance_analysis(stage, AnalysisEvent::ConsentChecked(Ok(())), true);
    assert_eq!((stage, action), (AnalysisStage::ReadingKey, AnalysisAction::ReadKey));
    let (done, action) = advance_analysis(stage, AnalysisEvent::KeyRead(None, Some("  ".to_string())), true);
    assert_eq!(done, AnalysisStage::Done);
    match action {
        AnalysisAction::Fail(error) => {
            assert_eq!(error.code, "missing_ai_credential");
            assert_eq!(error.exit_code, 2);
        }
        other => panic!("unexpected action {other:?}"),
    }
    let (cleared, action) = advance_analysis(
        stage,
        AnalysisEvent::KeyRead(Some(" ".to_string()), Some("fallback".to_string())),
        true,
    );
    assert_eq!((cleared, action), (AnalysisStage::Analyzing, AnalysisAction::Analyze("fallback".to_string())));
}
