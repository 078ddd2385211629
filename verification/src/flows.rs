//! The order of the outside steps of file generation, for the desktop and for the command
//! line, and of the checks before a Spark AI analysis, as state machines: the adapter performs
//! each action (resolving the data root, a consent check, parsing, planning, writing, reading
//! the credential) and hands back what happened. Consent is always checked before the
//! destination is written, and before a report is sent for analysis.
use vstd::prelude::*;

use crate::capability::{
    authorization_code, cli_capability_check_error, cli_generation_authorization_error,
    map_authorization_error, AuthorizationError, AuthorizationErrorKind, CapabilityId,
};
use crate::errors::{command_error, CliError, CommandError};
use crate::text::concat;
use crate::generation::{
    check_review, plan_output, report_output, validate_generation_request, ExecutedFile,
    ExecutionStatus, FileGenerationPlanOutput, FileGenerationReportOutput, FileGenerationRequest,
    PlannedFile, ReviewedFileInput,
};

verus! {

/// Where a desktop file generation stands.
#[derive(Debug, Clone, Copy, PartialEq, Eq)]
pub enum GenerationStage {
    /// Waiting for the filesystem write consent check.
    Authorizing,
    /// Waiting for the template to be parsed.
    Parsing,
    /// Waiting for the plan of the files in the destination.
    Planning,
    /// Waiting for the destination directory to be created.
    CreatingDestination,
    /// Waiting for the plan to be executed.
    Executing,
    /// Finished; the last action holds the answer.
    Done,
}

/// A desktop file generation in progress: its stage, and for an execution the files that the
/// user reviewed and the plan that is being carried out.
#[derive(Debug, Clone, PartialEq, Eq)]
pub struct GenerationFlow {
    pub stage: GenerationStage,
    pub reviewed: Option<Vec<ReviewedFileInput>>,
}

/// What the adapter must do next.
#[derive(Debug, Clone, PartialEq, Eq)]
pub enum GenerationAction {
    /// Check the file generator's persisted filesystem write consent.
    Authorize,
    /// Parse the request's template.
    ParseTemplate,
    /// Plan the template's files in the destination.
    PlanFiles,
    /// Create the destination directory.
    CreateDestination,
    /// Execute the plan.
    ExecutePlan,
    /// Answer with this plan.
    AnswerPlan(FileGenerationPlanOutput),
    /// Answer with this execution report.
    AnswerReport(FileGenerationReportOutput),
    /// Answer with this error.
    Fail(CommandError),
}

/// What happened when the adapter performed an action.
#[derive(Debug, PartialEq, Eq)]
pub enum GenerationEvent {
    Authorized(Result<(), AuthorizationError>),
    TemplateParsed(Result<(), String>),
    FilesPlanned(Result<Vec<PlannedFile>, CommandError>),
    DestinationCreated(Result<(), String>),
    PlanExecuted(ExecutionStatus, Vec<ExecutedFile>),
}

/// The kind of an event, as the stage machine sees it.
#[derive(Debug, Clone, Copy, PartialEq, Eq)]
pub enum EventKind {
    Granted,
    Refused,
    Succeeded,
    Failed,
    Executed,
}

/// The kind of an event.
pub open spec fn event_kind(e: GenerationEvent) -> EventKind {
    match e {
        GenerationEvent::Authorized(r) => if r is Ok {
            EventKind::Granted
        } else {
            EventKind::Refused
        },
        GenerationEvent::TemplateParsed(r) => if r is Ok {
            EventKind::Succeeded
        } else {
            EventKind::Failed
        },
        GenerationEvent::FilesPlanned(r) => if r is Ok {
            EventKind::Succeeded
        } else {
            EventKind::Failed
        },
        GenerationEvent::DestinationCreated(r) => if r is Ok {
            EventKind::Succeeded
        } else {
            EventKind::Failed
        },
        GenerationEvent::PlanExecuted(_, _) => EventKind::Executed,
    }
}

/// The event that answers the action of a stage.
pub open spec fn answers(stage: GenerationStage, e: GenerationEvent) -> bool {
    match stage {
        GenerationStage::Authorizing => e is Authorized,
        GenerationStage::Parsing => e is TemplateParsed,
        GenerationStage::Planning => e is FilesPlanned,
        GenerationStage::CreatingDestination => e is DestinationCreated,
        GenerationStage::Executing => e is PlanExecuted,
        GenerationStage::Done => false,
    }
}

/// The stage that follows `stage` after an event of kind `k`; `executing` says whether the
/// flow executes (rather than only plans), and `review_ok` whether the plan is the reviewed one.
pub open spec fn next_stage(stage: GenerationStage, k: EventKind, executing: bool, review_ok: bool) -> GenerationStage {
    match stage {
        GenerationStage::Authorizing => if k == EventKind::Granted {
            GenerationStage::Parsing
        } else {
            GenerationStage::Done
        },
        GenerationStage::Parsing => if k == EventKind::Succeeded {
            GenerationStage::Planning
        } else {
            GenerationStage::Done
        },
        GenerationStage::Planning => if k == EventKind::Succeeded && executing && review_ok {
            GenerationStage::CreatingDestination
        } else {
            GenerationStage::Done
        },
        GenerationStage::CreatingDestination => if k == EventKind::Succeeded {
            GenerationStage::Executing
        } else {
            GenerationStage::Done
        },
        _ => GenerationStage::Done,
    }
}

/// The action asked for when a flow enters `stage`.
pub open spec fn stage_action(stage: GenerationStage, a: GenerationAction) -> bool {
    match stage {
        GenerationStage::Authorizing => a is Authorize,
        GenerationStage::Parsing => a is ParseTemplate,
        GenerationStage::Planning => a is PlanFiles,
        GenerationStage::CreatingDestination => a is CreateDestination,
        GenerationStage::Executing => a is ExecutePlan,
        GenerationStage::Done => a is AnswerPlan || a is AnswerReport || a is Fail,
    }
}

/// Starts a desktop plan (`reviewed` is `None`) or execution of the reviewed files: the request
/// is checked first, then consent is asked for.
pub fn start_generation(request: &FileGenerationRequest, reviewed: Option<Vec<ReviewedFileInput>>) -> (r: (
    GenerationFlow,
    GenerationAction,
))
    ensures
        match validate_generation_request_spec(request) {
            None => r.0.stage == GenerationStage::Authorizing && r.1 is Authorize,
            Some((code, message)) => r.0.stage == GenerationStage::Done && (r.1 matches GenerationAction::Fail(e)
                && e.code@ == code && e.message@ == message),
        },
        r.0.reviewed == reviewed,
{
    match validate_generation_request(request) {
        Ok(()) => (GenerationFlow { stage: GenerationStage::Authorizing, reviewed }, GenerationAction::Authorize),
        Err(e) => (GenerationFlow { stage: GenerationStage::Done, reviewed }, GenerationAction::Fail(e)),
    }
}

/// Why a request is refused before consent is asked for, as code and message.
pub open spec fn validate_generation_request_spec(request: &FileGenerationRequest) -> Option<(Seq<char>, Seq<char>)> {
    if request.destination@.len() == 0 {
        Some(("invalid_destination"@, "destination must not be empty"@))
    } else if crate::text::utf8_len(request.template_json@) > crate::templates::MAX_USER_TEMPLATE_BYTES {
        Some(("user_template_too_large"@, "template exceeds 1 MiB"@))
    } else {
        None
    }
}

/// Advances a desktop file generation by what the last action produced.
pub fn advance_generation(flow: GenerationFlow, event: GenerationEvent) -> (r: (GenerationFlow, GenerationAction))
    requires
        answers(flow.stage, event),
    ensures
        r.0.reviewed == flow.reviewed,
        r.0.stage == next_stage(
            flow.stage,
            event_kind(event),
            flow.reviewed is Some,
            match (event, flow.reviewed) {
                (GenerationEvent::FilesPlanned(Ok(files)), Some(reviewed)) => crate::generation::review_matches(files@, reviewed@),
                _ => false,
            },
        ),
        stage_action(r.0.stage, r.1),
        event matches GenerationEvent::Authorized(Err(e)) ==> (r.1 matches GenerationAction::Fail(c)
            && c.code@ == crate::capability::authorization_code(e.kind) && c.message@ == e.message@),
        event matches GenerationEvent::TemplateParsed(Err(m)) ==> (r.1 matches GenerationAction::Fail(c)
            && c.code@ == "invalid_template"@ && c.message@ == m@),
        event matches GenerationEvent::FilesPlanned(Err(e)) ==> r.1 == GenerationAction::Fail(e),
        event matches GenerationEvent::FilesPlanned(Ok(files)) ==> match flow.reviewed {
            None => r.1 matches GenerationAction::AnswerPlan(p) && p.status@ == "planned"@
                && p.files@.len() == files@.len() && forall|i: int|
                0 <= i < files@.len() ==> (#[trigger] p.files@[i]).path@ == files@[i].relative_path@
                    && p.files@[i].action@ == crate::generation::action_text(files@[i].action)
                    && crate::generation::opt_view(p.files@[i].target_revision)
                    == crate::generation::opt_view(files@[i].target_revision),
            Some(reviewed) => !crate::generation::review_matches(files@, reviewed@) ==> (r.1 matches GenerationAction::Fail(
                c,
            ) && c.code@ == "plan_changed"@),
        },
        event matches GenerationEvent::DestinationCreated(Err(m)) ==> (r.1 matches GenerationAction::Fail(c)
            && c.code@ == "destination_unavailable"@ && c.message@ == m@),
        event matches GenerationEvent::PlanExecuted(status, files) ==> (r.1 matches GenerationAction::AnswerReport(
            rep,
        ) && rep.status@ == crate::generation::status_text(status) && rep.files@.len() == files@.len()
            && forall|i: int|
            0 <= i < files@.len() ==> (#[trigger] rep.files@[i]).path@ == files@[i].relative_path@
                && rep.files@[i].outcome@ == crate::generation::outcome_text(files@[i].outcome)
                && crate::generation::opt_view(rep.files@[i].error)
                == crate::generation::outcome_error(files@[i].outcome)),
{
    let reviewed = flow.reviewed;
    match event {
        GenerationEvent::Authorized(result) => match result {
            Ok(()) => (GenerationFlow { stage: GenerationStage::Parsing, reviewed }, GenerationAction::ParseTemplate),
            Err(e) => (
                GenerationFlow { stage: GenerationStage::Done, reviewed },
                GenerationAction::Fail(map_authorization_error(e)),
            ),
        },
        GenerationEvent::TemplateParsed(result) => match result {
            Ok(()) => (GenerationFlow { stage: GenerationStage::Planning, reviewed }, GenerationAction::PlanFiles),
            Err(m) => (
                GenerationFlow { stage: GenerationStage::Done, reviewed },
                GenerationAction::Fail(command_error("invalid_template", m.as_str())),
            ),
        },
        GenerationEvent::FilesPlanned(result) => match result {
            Err(e) => (GenerationFlow { stage: GenerationStage::Done, reviewed }, GenerationAction::Fail(e)),
            Ok(files) => match reviewed {
                None => (
                    GenerationFlow { stage: GenerationStage::Done, reviewed: None },
                    GenerationAction::AnswerPlan(plan_output(&files)),
                ),
                Some(list) => match check_review(&files, &list) {
                    Ok(()) => (
                        GenerationFlow { stage: GenerationStage::CreatingDestination, reviewed: Some(list) },
                        GenerationAction::CreateDestination,
                    ),
                    Err(e) => (
                        GenerationFlow { stage: GenerationStage::Done, reviewed: Some(list) },
                        GenerationAction::Fail(e),
                    ),
                },
            },
        },
        GenerationEvent::DestinationCreated(result) => match result {
            Ok(()) => (GenerationFlow { stage: GenerationStage::Executing, reviewed }, GenerationAction::ExecutePlan),
            Err(m) => (
                GenerationFlow { stage: GenerationStage::Done, reviewed },
                GenerationAction::Fail(command_error("destination_unavailable", m.as_str())),
            ),
        },
        GenerationEvent::PlanExecuted(status, files) => (
            GenerationFlow { stage: GenerationStage::Done, reviewed },
            GenerationAction::AnswerReport(report_output(status, &files)),
        ),
    }
}

} // verus!

verus! {

/// The stage a flow reaches from `stage` through events of the given kinds, each paired with
/// whether the plan matched the review.
pub open spec fn stage_after(stage: GenerationStage, events: Seq<(EventKind, bool)>, executing: bool) -> GenerationStage
    decreases events.len(),
{
    if events.len() == 0 {
        stage
    } else {
        stage_after(next_stage(stage, events[0].0, executing, events[0].1), events.drop_first(), executing)
    }
}

/// A finished flow stays finished.
pub proof fn lemma_done_stays_done(events: Seq<(EventKind, bool)>, executing: bool)
    ensures
        stage_after(GenerationStage::Done, events, executing) == GenerationStage::Done,
    decreases events.len(),
{
    if events.len() > 0 {
        lemma_done_stays_done(events.drop_first(), executing);
    }
}

/// Consent comes first: a desktop generation plans files in the destination only after the
/// consent check granted filesystem writes and the template parsed, and creates or writes the
/// destination only when, in addition, it executes a plan that matches the reviewed one.
pub proof fn law_consent_precedes_probing_and_writing(events: Seq<(EventKind, bool)>, executing: bool)
    ensures
        stage_after(GenerationStage::Authorizing, events, executing) == GenerationStage::Planning
            ==> events.len() == 2 && events[0].0 == EventKind::Granted && events[1].0
            == EventKind::Succeeded,
        stage_after(GenerationStage::Authorizing, events, executing)
            == GenerationStage::CreatingDestination ==> events.len() == 3 && events[0].0
            == EventKind::Granted && events[1].0 == EventKind::Succeeded && events[2].0
            == EventKind::Succeeded && executing && events[2].1,
        stage_after(GenerationStage::Authorizing, events, executing) == GenerationStage::Executing
            ==> events.len() == 4 && events[0].0 == EventKind::Granted && events[1].0
            == EventKind::Succeeded && events[2].0 == EventKind::Succeeded && executing
            && events[2].1 && events[3].0 == EventKind::Succeeded,
{
    let e = events;
    if e.len() > 0 {
        let s1 = next_stage(GenerationStage::Authorizing, e[0].0, executing, e[0].1);
        let e1 = e.drop_first();
        assert(stage_after(GenerationStage::Authorizing, e, executing) == stage_after(s1, e1, executing));
        if s1 == GenerationStage::Done {
            lemma_done_stays_done(e1, executing);
        } else if e1.len() > 0 {
            let s2 = next_stage(s1, e1[0].0, executing, e1[0].1);
            let e2 = e1.drop_first();
            assert(stage_after(s1, e1, executing) == stage_after(s2, e2, executing));
            if s2 == GenerationStage::Done {
                lemma_done_stays_done(e2, executing);
            } else if e2.len() > 0 {
                let s3 = next_stage(s2, e2[0].0, executing, e2[0].1);
                let e3 = e2.drop_first();
                assert(stage_after(s2, e2, executing) == stage_after(s3, e3, executing));
                if s3 == GenerationStage::Done {
                    lemma_done_stays_done(e3, executing);
                } else if e3.len() > 0 {
                    let s4 = next_stage(s3, e3[0].0, executing, e3[0].1);
                    let e4 = e3.drop_first();
                    assert(stage_after(s3, e3, executing) == stage_after(s4, e4, executing));
                    if s4 == GenerationStage::Done {
                        lemma_done_stays_done(e4, executing);
                    } else if e4.len() > 0 {
                        let s5 = next_stage(s4, e4[0].0, executing, e4[0].1);
                        assert(s5 == GenerationStage::Done);
                        assert(stage_after(s4, e4, executing) == stage_after(s5, e4.drop_first(), executing));
                        lemma_done_stays_done(e4.drop_first(), executing);
                    }
                }
            }
        }
    }
}

} // verus!

verus! {

/// Where a command-line file generation stands once its plan has been computed.
#[derive(Debug, Clone, Copy, PartialEq, Eq)]
pub enum CliGenerationStage {
    /// Waiting for the data root that holds the consents.
    ResolvingDataRoot,
    /// Waiting for the filesystem write consent check.
    Authorizing,
    /// Waiting for the destination directory to be created.
    CreatingDestination,
    /// Waiting for the plan to be executed.
    Executing,
    /// Finished; the last action holds the answer.
    Done,
}

/// What the command line must do next with a computed plan.
#[derive(Debug, Clone, PartialEq, Eq)]
pub enum CliGenerationAction {
    /// Print the plan; nothing is written (`--dry-run`).
    RenderPlan,
    /// Resolve the data root.
    ResolveDataRoot,
    /// Check the file generator's persisted filesystem write consent.
    Authorize,
    /// Create the destination directory.
    CreateDestination,
    /// Execute the plan.
    ExecutePlan,
    /// Print the execution report, then end with this error, if any.
    RenderReport(Option<CliError>),
    /// End with this error.
    Fail(CliError),
}

/// What happened when the command line performed an action. A consent store that cannot be
/// opened is reported as an authorization error of kind `Other`.
#[derive(Debug, PartialEq, Eq)]
pub enum CliGenerationEvent {
    DataRootResolved(Result<(), CliError>),
    Authorized(Result<(), AuthorizationError>),
    DestinationCreated(Result<(), String>),
    PlanExecuted(ExecutionStatus),
}

/// The event that answers the action of a stage.
pub open spec fn cli_answers(stage: CliGenerationStage, e: CliGenerationEvent) -> bool {
    match stage {
        CliGenerationStage::ResolvingDataRoot => e is DataRootResolved,
        CliGenerationStage::Authorizing => e is Authorized,
        CliGenerationStage::CreatingDestination => e is DestinationCreated,
        CliGenerationStage::Executing => e is PlanExecuted,
        CliGenerationStage::Done => false,
    }
}

/// Whether an event reports success.
pub open spec fn cli_succeeded(e: CliGenerationEvent) -> bool {
    match e {
        CliGenerationEvent::DataRootResolved(r) => r is Ok,
        CliGenerationEvent::Authorized(r) => r is Ok,
        CliGenerationEvent::DestinationCreated(r) => r is Ok,
        CliGenerationEvent::PlanExecuted(_) => true,
    }
}

/// The stage that follows `stage` after an event that succeeded or not.
pub open spec fn cli_next_stage(stage: CliGenerationStage, succeeded: bool) -> CliGenerationStage {
    match stage {
        CliGenerationStage::ResolvingDataRoot => if succeeded {
            CliGenerationStage::Authorizing
        } else {
            CliGenerationStage::Done
        },
        CliGenerationStage::Authorizing => if succeeded {
            CliGenerationStage::CreatingDestination
        } else {
            CliGenerationStage::Done
        },
        CliGenerationStage::CreatingDestination => if succeeded {
            CliGenerationStage::Executing
        } else {
            CliGenerationStage::Done
        },
        _ => CliGenerationStage::Done,
    }
}

/// The action asked for when a command-line flow enters `stage`.
pub open spec fn cli_stage_action(stage: CliGenerationStage, a: CliGenerationAction) -> bool {
    match stage {
        CliGenerationStage::ResolvingDataRoot => a is ResolveDataRoot,
        CliGenerationStage::Authorizing => a is Authorize,
        CliGenerationStage::CreatingDestination => a is CreateDestination,
        CliGenerationStage::Executing => a is ExecutePlan,
        CliGenerationStage::Done => a is RenderPlan || a is RenderReport || a is Fail,
    }
}

/// Starts what follows the planning of `bkmt file create`: a dry run only prints the plan;
/// otherwise the data root is resolved first, for the consent check.
pub fn start_cli_generation(dry_run: bool) -> (r: (CliGenerationStage, CliGenerationAction))
    ensures
        dry_run ==> r.0 == CliGenerationStage::Done && r.1 is RenderPlan,
        !dry_run ==> r.0 == CliGenerationStage::ResolvingDataRoot && r.1 is ResolveDataRoot,
{
    if dry_run {
        (CliGenerationStage::Done, CliGenerationAction::RenderPlan)
    } else {
        (CliGenerationStage::ResolvingDataRoot, CliGenerationAction::ResolveDataRoot)
    }
}

/// Advances a command-line file generation by what the last action produced.
pub fn advance_cli_generation(stage: CliGenerationStage, event: CliGenerationEvent, json: bool) -> (r: (
    CliGenerationStage,
    CliGenerationAction,
))
    requires
        cli_answers(stage, event),
    ensures
        r.0 == cli_next_stage(stage, cli_succeeded(event)),
        cli_stage_action(r.0, r.1),
        event matches CliGenerationEvent::DataRootResolved(Err(e)) ==> r.1 == CliGenerationAction::Fail(e),
        event matches CliGenerationEvent::Authorized(Err(e)) ==> (r.1 matches CliGenerationAction::Fail(c)
            && c.json == json && (e.kind == AuthorizationErrorKind::ConsentRequired ==> c.code@
            == "consent_required"@ && c.exit_code == 4) && (e.kind
            == AuthorizationErrorKind::ConsentDenied ==> c.code@ == "consent_denied"@ && c.exit_code
            == 4) && (!(e.kind == AuthorizationErrorKind::ConsentRequired || e.kind
            == AuthorizationErrorKind::ConsentDenied) ==> c.code@ == "authorization_failed"@
            && c.message@ == e.message@ && c.exit_code == 1 && c.details is None) && (e.kind
            == AuthorizationErrorKind::ConsentRequired || e.kind
            == AuthorizationErrorKind::ConsentDenied ==> crate::errors::details_view(c.details)
            == Some(("file-generator"@, "filesystem:write"@)))),
        event matches CliGenerationEvent::DestinationCreated(Err(m)) ==> (r.1 matches CliGenerationAction::Fail(
            c,
        ) && c.code@ == "destination_unavailable"@ && c.message@ == "failed to create destination: "@
            + m@ && c.exit_code == 1 && c.json == json),
        event matches CliGenerationEvent::PlanExecuted(status) ==> (r.1 matches CliGenerationAction::RenderReport(
            o,
        ) && (o is None <==> status == ExecutionStatus::Complete) && (o matches Some(c) ==> c.json
            == json && (status == ExecutionStatus::Conflict ==> c.code@ == "conflict"@ && c.exit_code
            == 3) && (status == ExecutionStatus::PartialFailure ==> c.code@ == "partial_failure"@
            && c.exit_code == 5) && (status == ExecutionStatus::Failed ==> c.code@
            == "execution_failed"@ && c.exit_code == 5))),
{
    match event {
        CliGenerationEvent::DataRootResolved(result) => match result {
            Ok(()) => (CliGenerationStage::Authorizing, CliGenerationAction::Authorize),
            Err(e) => (CliGenerationStage::Done, CliGenerationAction::Fail(e)),
        },
        CliGenerationEvent::Authorized(result) => match result {
            Ok(()) => (CliGenerationStage::CreatingDestination, CliGenerationAction::CreateDestination),
            Err(e) => (
                CliGenerationStage::Done,
                CliGenerationAction::Fail(cli_generation_authorization_error(e, json)),
            ),
        },
        CliGenerationEvent::DestinationCreated(result) => match result {
            Ok(()) => (CliGenerationStage::Executing, CliGenerationAction::ExecutePlan),
            Err(m) => {
                let message = concat("failed to create destination: ", m.as_str());
                (
                    CliGenerationStage::Done,
                    CliGenerationAction::Fail(
                        CliError::operation("destination_unavailable", message.as_str(), 1, json),
                    ),
                )
            },
        },
        CliGenerationEvent::PlanExecuted(status) => (
            CliGenerationStage::Done,
            CliGenerationAction::RenderReport(CliError::execution_status(status, json)),
        ),
    }
}

/// The stage a command-line flow reaches from `stage` through events that succeeded or not.
pub open spec fn cli_stage_after(stage: CliGenerationStage, outcomes: Seq<bool>) -> CliGenerationStage
    decreases outcomes.len(),
{
    if outcomes.len() == 0 {
        stage
    } else {
        cli_stage_after(cli_next_stage(stage, outcomes[0]), outcomes.drop_first())
    }
}

proof fn lemma_cli_done_stays_done(outcomes: Seq<bool>)
    ensures
        cli_stage_after(CliGenerationStage::Done, outcomes) == CliGenerationStage::Done,
    decreases outcomes.len(),
{
    if outcomes.len() > 0 {
        lemma_cli_done_stays_done(outcomes.drop_first());
    }
}

/// Consent comes first on the command line too: a generation that is not a dry run creates
/// its destination only after the data root resolved and the consent check granted
/// filesystem writes, and executes its plan only after the destination was created as well.
pub proof fn law_cli_consent_precedes_writing(outcomes: Seq<bool>)
    ensures
        cli_stage_after(CliGenerationStage::ResolvingDataRoot, outcomes)
            == CliGenerationStage::CreatingDestination ==> outcomes.len() == 2 && outcomes[0]
            && outcomes[1],
        cli_stage_after(CliGenerationStage::ResolvingDataRoot, outcomes)
            == CliGenerationStage::Executing ==> outcomes.len() == 3 && outcomes[0] && outcomes[1]
            && outcomes[2],
{
    let o = outcomes;
    if o.len() > 0 {
        let s1 = cli_next_stage(CliGenerationStage::ResolvingDataRoot, o[0]);
        let o1 = o.drop_first();
        assert(cli_stage_after(CliGenerationStage::ResolvingDataRoot, o) == cli_stage_after(s1, o1));
        if s1 == CliGenerationStage::Done {
            lemma_cli_done_stays_done(o1);
        } else if o1.len() > 0 {
            let s2 = cli_next_stage(s1, o1[0]);
            let o2 = o1.drop_first();
            assert(cli_stage_after(s1, o1) == cli_stage_after(s2, o2));
            if s2 == CliGenerationStage::Done {
                lemma_cli_done_stays_done(o2);
            } else if o2.len() > 0 {
                let s3 = cli_next_stage(s2, o2[0]);
                let o3 = o2.drop_first();
                assert(cli_stage_after(s2, o2) == cli_stage_after(s3, o3));
                if s3 == CliGenerationStage::Done {
                    lemma_cli_done_stays_done(o3);
                } else if o3.len() > 0 {
                    let s4 = cli_next_stage(s3, o3[0]);
                    assert(s4 == CliGenerationStage::Done);
                    assert(cli_stage_after(s3, o3) == cli_stage_after(s4, o3.drop_first()));
                    lemma_cli_done_stays_done(o3.drop_first());
                }
            }
        }
    }
}

} // verus!

verus! {

/// Where `bkmt spark analyze` stands once its report is loaded: it asks for network consent,
/// then for credential consent, then reads the AI credential, and only then analyses.
#[derive(Debug, Clone, Copy, PartialEq, Eq)]
pub enum AnalysisStage {
    /// Waiting for the `network:spark` consent check.
    CheckingNetwork,
    /// Waiting for the `credentials:ai` consent check.
    CheckingCredentials,
    /// Waiting for the two credential environment values.
    ReadingKey,
    /// Cleared to send the report to the AI service.
    Analyzing,
    /// Refused; the last action holds the error.
    Done,
}

/// What the command line must do next for an analysis.
#[derive(Debug, Clone, PartialEq, Eq)]
pub enum AnalysisAction {
    /// Check the Spark Analyzer's persisted consent for this capability.
    CheckConsent(CapabilityId),
    /// Read `BKMT_SPARK_API_KEY` and `BKMSA_API_KEY`.
    ReadKey,
    /// Run the AI analysis with this credential.
    Analyze(String),
    /// End with this error.
    Fail(CliError),
}

/// What happened when the command line performed an action of an analysis.
#[derive(Debug, PartialEq, Eq)]
pub enum AnalysisEvent {
    /// A consent check; a consent store that cannot be opened is an error of kind `Other`.
    ConsentChecked(Result<(), AuthorizationError>),
    /// The values of `BKMT_SPARK_API_KEY` and `BKMSA_API_KEY`.
    KeyRead(Option<String>, Option<String>),
}

/// The event that answers the action of a stage.
pub open spec fn analysis_answers(stage: AnalysisStage, e: AnalysisEvent) -> bool {
    match stage {
        AnalysisStage::CheckingNetwork | AnalysisStage::CheckingCredentials => e is ConsentChecked,
        AnalysisStage::ReadingKey => e is KeyRead,
        _ => false,
    }
}

/// Whether an event lets the analysis go on: a granted consent, or a usable credential.
pub open spec fn analysis_succeeded(e: AnalysisEvent) -> bool {
    match e {
        AnalysisEvent::ConsentChecked(r) => r is Ok,
        AnalysisEvent::KeyRead(primary, fallback) => crate::spark::usable_key(primary)
            || crate::spark::usable_key(fallback),
    }
}

/// The stage that follows `stage` after an event that lets the analysis go on or not.
pub open spec fn analysis_next_stage(stage: AnalysisStage, succeeded: bool) -> AnalysisStage {
    if !succeeded {
        AnalysisStage::Done
    } else {
        match stage {
            AnalysisStage::CheckingNetwork => AnalysisStage::CheckingCredentials,
            AnalysisStage::CheckingCredentials => AnalysisStage::ReadingKey,
            AnalysisStage::ReadingKey => AnalysisStage::Analyzing,
            _ => AnalysisStage::Done,
        }
    }
}

/// Starts the consent and credential checks of an analysis.
pub fn start_analysis() -> (r: (AnalysisStage, AnalysisAction))
    ensures
        r.0 == AnalysisStage::CheckingNetwork,
        r.1 == AnalysisAction::CheckConsent(CapabilityId::NetworkSpark),
{
    (AnalysisStage::CheckingNetwork, AnalysisAction::CheckConsent(CapabilityId::NetworkSpark))
}

/// Advances the checks of an analysis by what the last action produced.
pub fn advance_analysis(stage: AnalysisStage, event: AnalysisEvent, json: bool) -> (r: (AnalysisStage, AnalysisAction))
    requires
        analysis_answers(stage, event),
    ensures
        r.0 == analysis_next_stage(stage, analysis_succeeded(event)),
        r.0 == AnalysisStage::CheckingCredentials ==> r.1 == AnalysisAction::CheckConsent(
            CapabilityId::CredentialsAi,
        ),
        r.0 == AnalysisStage::ReadingKey ==> r.1 == AnalysisAction::ReadKey,
        r.0 == AnalysisStage::Analyzing <==> r.1 is Analyze,
        r.0 == AnalysisStage::Done <==> r.1 is Fail,
        event matches AnalysisEvent::ConsentChecked(Err(e)) ==> (r.1 matches AnalysisAction::Fail(c)
            && c.message@ == e.message@ && c.json == json && c.code@ == authorization_code(e.kind)
            && (e.kind == AuthorizationErrorKind::ConsentRequired || e.kind
            == AuthorizationErrorKind::ConsentDenied ==> c.exit_code == 4
            && crate::errors::details_view(c.details) == Some(
                (
                    "spark-analyzer"@,
                    if stage == AnalysisStage::CheckingNetwork {
                        "network:spark"@
                    } else {
                        "credentials:ai"@
                    },
                ),
            ))),
        event matches AnalysisEvent::KeyRead(primary, fallback) ==> {
            &&& crate::spark::usable_key(primary) ==> (r.1 matches AnalysisAction::Analyze(k)
                && k@ == primary->0@)
            &&& !crate::spark::usable_key(primary) && crate::spark::usable_key(fallback) ==> (
            r.1 matches AnalysisAction::Analyze(k) && k@ == fallback->0@)
            &&& !crate::spark::usable_key(primary) && !crate::spark::usable_key(fallback) ==> (
            r.1 matches AnalysisAction::Fail(c) && c.code@ == "missing_ai_credential"@
                && c.exit_code == 2 && c.json == json)
        },
{
    match event {
        AnalysisEvent::ConsentChecked(result) => {
            let network = match stage {
                AnalysisStage::CheckingNetwork => true,
                _ => false,
            };
            match result {
                Ok(()) => if network {
                    (
                        AnalysisStage::CheckingCredentials,
                        AnalysisAction::CheckConsent(CapabilityId::CredentialsAi),
                    )
                } else {
                    (AnalysisStage::ReadingKey, AnalysisAction::ReadKey)
                },
                Err(e) => {
                    let name = if network {
                        "network:spark"
                    } else {
                        "credentials:ai"
                    };
                    (
                        AnalysisStage::Done,
                        AnalysisAction::Fail(
                            cli_capability_check_error(e, "spark-analyzer", name, json),
                        ),
                    )
                },
            }
        },
        AnalysisEvent::KeyRead(primary, fallback) => match crate::spark::select_api_key(
            primary,
            fallback,
            json,
        ) {
            Ok(key) => (AnalysisStage::Analyzing, AnalysisAction::Analyze(key)),
            Err(e) => (AnalysisStage::Done, AnalysisAction::Fail(e)),
        },
    }
}

/// The stage an analysis reaches from `stage` through events that let it go on or not.
pub open spec fn analysis_stage_after(stage: AnalysisStage, outcomes: Seq<bool>) -> AnalysisStage
    decreases outcomes.len(),
{
    if outcomes.len() == 0 {
        stage
    } else {
        analysis_stage_after(analysis_next_stage(stage, outcomes[0]), outcomes.drop_first())
    }
}

proof fn lemma_analysis_end_stays(stage: AnalysisStage, outcomes: Seq<bool>)
    requires
        stage == AnalysisStage::Done || stage == AnalysisStage::Analyzing,
    ensures
        outcomes.len() > 0 ==> analysis_stage_after(stage, outcomes) == AnalysisStage::Done,
        outcomes.len() == 0 ==> analysis_stage_after(stage, outcomes) == stage,
    decreases outcomes.len(),
{
    if outcomes.len() > 0 {
        lemma_analysis_end_stays(AnalysisStage::Done, outcomes.drop_first());
    }
}

/// No analysis request without consent and a credential: an analysis is cleared to reach the
/// AI service only after exactly three steps went through, the `network:spark` consent, the
/// `credentials:ai` consent, and a usable credential, in that order.
pub proof fn law_analysis_needs_both_consents_and_a_key(outcomes: Seq<bool>)
    ensures
        analysis_stage_after(AnalysisStage::CheckingNetwork, outcomes) == AnalysisStage::Analyzing
            ==> outcomes.len() == 3 && outcomes[0] && outcomes[1] && outcomes[2],
{
    let o = outcomes;
    if o.len() > 0 {
        let s1 = analysis_next_stage(AnalysisStage::CheckingNetwork, o[0]);
        let o1 = o.drop_first();
        assert(analysis_stage_after(AnalysisStage::CheckingNetwork, o) == analysis_stage_after(s1, o1));
        if s1 == AnalysisStage::Done {
            lemma_analysis_end_stays(s1, o1);
        } else if o1.len() > 0 {
            let s2 = analysis_next_stage(s1, o1[0]);
            let o2 = o1.drop_first();
            assert(analysis_stage_after(s1, o1) == analysis_stage_after(s2, o2));
            if s2 == AnalysisStage::Done {
                lemma_analysis_end_stays(s2, o2);
            } else if o2.len() > 0 {
                let s3 = analysis_next_stage(s2, o2[0]);
                let o3 = o2.drop_first();
                assert(analysis_stage_after(s2, o2) == analysis_stage_after(s3, o3));
                lemma_analysis_end_stays(s3, o3);
            }
        }
    }
}

} // verus!
