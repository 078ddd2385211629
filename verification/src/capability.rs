//! Capabilities that tools ask consent for, consent decisions, and how a failed
//! authorization is reported by the command line, the desktop commands and the Spark host.
use vstd::prelude::*;

use crate::errors::{command_error, CliError, CommandError};
use crate::text::{concat, str_eq};

verus! {

/// A capability that a built-in tool may be granted.
#[derive(Debug, Clone, Copy, PartialEq, Eq)]
pub enum CapabilityId {
    CredentialsAi,
    FilesystemRead,
    FilesystemWrite,
    NetworkSpark,
}

/// A persisted consent decision.
#[derive(Debug, Clone, Copy, PartialEq, Eq)]
pub enum ConsentDecision {
    Allowed,
    Denied,
}

/// Why an authorizer refused or failed.
#[derive(Debug, Clone, Copy, PartialEq, Eq)]
pub enum AuthorizationErrorKind {
    ConsentRequired,
    ConsentDenied,
    UnknownTool,
    CapabilityNotDeclared,
    Other,
}

/// A failed authorization: its kind and its message.
#[derive(Debug, Clone, PartialEq, Eq)]
pub struct AuthorizationError {
    pub kind: AuthorizationErrorKind,
    pub message: String,
}

/// A capability that the Spark Analyzer plugin asks its host for.
#[derive(Debug, Clone, Copy, PartialEq, Eq)]
pub enum HostCapability {
    Network,
    Credentials,
    FilesystemWrite,
}

/// The stable name of a capability.
pub open spec fn capability_name_of(c: CapabilityId) -> Seq<char> {
    match c {
        CapabilityId::CredentialsAi => "credentials:ai"@,
        CapabilityId::FilesystemRead => "filesystem:read"@,
        CapabilityId::FilesystemWrite => "filesystem:write"@,
        CapabilityId::NetworkSpark => "network:spark"@,
    }
}

/// The stable name of a capability.
pub fn capability_name(c: CapabilityId) -> (r: &'static str)
    ensures
        r@ == capability_name_of(c),
{
    match c {
        CapabilityId::CredentialsAi => "credentials:ai",
        CapabilityId::FilesystemRead => "filesystem:read",
        CapabilityId::FilesystemWrite => "filesystem:write",
        CapabilityId::NetworkSpark => "network:spark",
    }
}

/// Parses a capability name given on the command line.
pub fn parse_capability(value: &str) -> (r: Result<CapabilityId, String>)
    ensures
        match r {
            Ok(c) => capability_name_of(c) == value@,
            Err(m) => m@ == "unknown capability: "@ + value@ && forall|c: CapabilityId|
                capability_name_of(c) != value@,
        },
{
    if str_eq(value, "credentials:ai") {
        Ok(CapabilityId::CredentialsAi)
    } else if str_eq(value, "filesystem:read") {
        Ok(CapabilityId::FilesystemRead)
    } else if str_eq(value, "filesystem:write") {
        Ok(CapabilityId::FilesystemWrite)
    } else if str_eq(value, "network:spark") {
        Ok(CapabilityId::NetworkSpark)
    } else {
        assert forall|c: CapabilityId| capability_name_of(c) != value@ by {
            match c {
                CapabilityId::CredentialsAi => {},
                CapabilityId::FilesystemRead => {},
                CapabilityId::FilesystemWrite => {},
                CapabilityId::NetworkSpark => {},
            }
        }
        Err(concat("unknown capability: ", value))
    }
}

/// Parses the capability of `bkmt consent allow|deny`: an unknown name is the input error
/// `invalid_capability`.
pub fn cli_parse_capability(value: &str, json: bool) -> (r: Result<CapabilityId, CliError>)
    ensures
        match r {
            Ok(c) => capability_name_of(c) == value@,
            Err(e) => e.code@ == "invalid_capability"@ && e.message@ == "unknown capability: "@
                + value@ && e.exit_code == 2 && e.json == json && e.details is None && forall|
                c: CapabilityId,
            | capability_name_of(c) != value@,
        },
{
    match parse_capability(value) {
        Ok(c) => Ok(c),
        Err(m) => Err(CliError::input("invalid_capability", m.as_str(), json)),
    }
}

/// Parses a capability that the desktop may record for the Spark Analyzer: every
/// capability but `filesystem:read`.
pub fn parse_spark_capability(value: &str) -> (r: Result<CapabilityId, String>)
    ensures
        match r {
            Ok(c) => capability_name_of(c) == value@ && c != CapabilityId::FilesystemRead,
            Err(m) => m@ == "unknown Spark capability: "@ + value@ && forall|c: CapabilityId|
                c != CapabilityId::FilesystemRead ==> capability_name_of(c) != value@,
        },
{
    if str_eq(value, "credentials:ai") {
        Ok(CapabilityId::CredentialsAi)
    } else if str_eq(value, "filesystem:write") {
        Ok(CapabilityId::FilesystemWrite)
    } else if str_eq(value, "network:spark") {
        Ok(CapabilityId::NetworkSpark)
    } else {
        assert forall|c: CapabilityId|
            c != CapabilityId::FilesystemRead implies capability_name_of(c) != value@ by {
            match c {
                CapabilityId::CredentialsAi => {},
                CapabilityId::FilesystemRead => {},
                CapabilityId::FilesystemWrite => {},
                CapabilityId::NetworkSpark => {},
            }
        }
        Err(concat("unknown Spark capability: ", value))
    }
}

/// The toolbox capability, and its name, that a Spark host capability stands for.
pub open spec fn toolbox_capability_of(h: HostCapability) -> CapabilityId {
    match h {
        HostCapability::Network => CapabilityId::NetworkSpark,
        HostCapability::Credentials => CapabilityId::CredentialsAi,
        HostCapability::FilesystemWrite => CapabilityId::FilesystemWrite,
    }
}

/// The toolbox capability, and its name, that a Spark host capability stands for.
pub fn toolbox_capability(h: HostCapability) -> (r: (CapabilityId, &'static str))
    ensures
        r.0 == toolbox_capability_of(h),
        r.1@ == capability_name_of(r.0),
        h == HostCapability::Network ==> r.0 == CapabilityId::NetworkSpark && r.1@ == "network:spark"@,
        h == HostCapability::Credentials ==> r.0 == CapabilityId::CredentialsAi && r.1@
            == "credentials:ai"@,
        h == HostCapability::FilesystemWrite ==> r.0 == CapabilityId::FilesystemWrite && r.1@
            == "filesystem:write"@,
{
    match h {
        HostCapability::Network => (CapabilityId::NetworkSpark, "network:spark"),
        HostCapability::Credentials => (CapabilityId::CredentialsAi, "credentials:ai"),
        HostCapability::FilesystemWrite => (CapabilityId::FilesystemWrite, "filesystem:write"),
    }
}

/// The decision that an allow or deny request records.
pub fn consent_decision(allowed: bool) -> (r: ConsentDecision)
    ensures
        r == (if allowed { ConsentDecision::Allowed } else { ConsentDecision::Denied }),
{
    if allowed {
        ConsentDecision::Allowed
    } else {
        ConsentDecision::Denied
    }
}

/// The decision and the confirmation printed for `consent allow` and `consent deny`.
pub fn consent_command(allow: bool) -> (r: (ConsentDecision, &'static str))
    ensures
        allow ==> r.0 == ConsentDecision::Allowed && r.1@ == "allowed"@,
        !allow ==> r.0 == ConsentDecision::Denied && r.1@ == "denied"@,
{
    if allow {
        (ConsentDecision::Allowed, "allowed")
    } else {
        (ConsentDecision::Denied, "denied")
    }
}

/// The code under which a failed authorization is reported.
pub open spec fn authorization_code(k: AuthorizationErrorKind) -> Seq<char> {
    match k {
        AuthorizationErrorKind::ConsentRequired => "consent_required"@,
        AuthorizationErrorKind::ConsentDenied => "consent_denied"@,
        _ => "authorization_failed"@,
    }
}

fn authorization_code_str(k: AuthorizationErrorKind) -> (r: &'static str)
    ensures
        r@ == authorization_code(k),
{
    match k {
        AuthorizationErrorKind::ConsentRequired => "consent_required",
        AuthorizationErrorKind::ConsentDenied => "consent_denied",
        _ => "authorization_failed",
    }
}

/// Maps a failed authorization of a desktop command to its `CommandError`.
pub fn map_authorization_error(error: AuthorizationError) -> (r: CommandError)
    ensures
        r.code@ == authorization_code(error.kind),
        r.message@ == error.message@,
{
    command_error(authorization_code_str(error.kind), error.message.as_str())
}

/// Maps a failed capability check of the command line: refused consent becomes a capability
/// error naming the tool and capability, anything else `authorization_failed` with exit code 1.
pub fn cli_capability_check_error(
    error: AuthorizationError,
    tool_id: &str,
    capability_name: &str,
    json: bool,
) -> (r: CliError)
    ensures
        r.message@ == error.message@,
        r.json == json,
        r.code@ == authorization_code(error.kind),
        error.kind == AuthorizationErrorKind::ConsentRequired || error.kind
            == AuthorizationErrorKind::ConsentDenied ==> r.exit_code == 4
            && crate::errors::details_view(r.details) == Some((tool_id@, capability_name@)),
        !(error.kind == AuthorizationErrorKind::ConsentRequired || error.kind
            == AuthorizationErrorKind::ConsentDenied) ==> r.exit_code == 1 && r.details is None,
{
    match error.kind {
        AuthorizationErrorKind::ConsentDenied => CliError::capability(
            "consent_denied",
            error.message.as_str(),
            tool_id,
            capability_name,
            json,
        ),
        AuthorizationErrorKind::ConsentRequired => CliError::capability(
            "consent_required",
            error.message.as_str(),
            tool_id,
            capability_name,
            json,
        ),
        _ => CliError::operation("authorization_failed", error.message.as_str(), 1, json),
    }
}

/// Maps a failure to open the consent store on the command line.
pub fn cli_authorizer_error(message: &str, json: bool) -> (r: CliError)
    ensures
        r.code@ == "authorization_failed"@,
        r.message@ == message@,
        r.exit_code == 1,
        r.details is None,
        r.json == json,
{
    CliError::operation("authorization_failed", message, 1, json)
}

/// Maps a refused filesystem write check before the command line generates files.
pub fn cli_generation_authorization_error(error: AuthorizationError, json: bool) -> (r: CliError)
    ensures
        error.kind == AuthorizationErrorKind::ConsentDenied ==> r.code@ == "consent_denied"@
            && r.message@ == "filesystem write consent was denied"@ && r.exit_code == 4,
        error.kind == AuthorizationErrorKind::ConsentRequired ==> r.code@ == "consent_required"@
            && r.message@ == "filesystem write consent is required"@ && r.exit_code == 4,
        error.kind == AuthorizationErrorKind::ConsentRequired || error.kind
            == AuthorizationErrorKind::ConsentDenied ==> crate::errors::details_view(r.details)
            == Some(("file-generator"@, "filesystem:write"@)),
        !(error.kind == AuthorizationErrorKind::ConsentRequired || error.kind
            == AuthorizationErrorKind::ConsentDenied) ==> r.code@ == "authorization_failed"@
            && r.message@ == error.message@ && r.exit_code == 1 && r.details is None,
        r.json == json,
{
    match error.kind {
        AuthorizationErrorKind::ConsentRequired => CliError::consent_required(json),
        AuthorizationErrorKind::ConsentDenied => CliError::consent_denied(json),
        _ => CliError::operation("authorization_failed", error.message.as_str(), 1, json),
    }
}

/// Maps a failure to record a consent decision on the command line: an unknown tool or an
/// undeclared capability is an input error `invalid_consent_target`.
pub fn cli_record_error(error: AuthorizationError) -> (r: CliError)
    ensures
        r.message@ == error.message@,
        !r.json,
        r.details is None,
        error.kind == AuthorizationErrorKind::UnknownTool || error.kind
            == AuthorizationErrorKind::CapabilityNotDeclared ==> r.code@
            == "invalid_consent_target"@ && r.exit_code == 2,
        !(error.kind == AuthorizationErrorKind::UnknownTool || error.kind
            == AuthorizationErrorKind::CapabilityNotDeclared) ==> r.code@
            == "authorization_failed"@ && r.exit_code == 1,
{
    match error.kind {
        AuthorizationErrorKind::UnknownTool | AuthorizationErrorKind::CapabilityNotDeclared => {
            CliError::input("invalid_consent_target", error.message.as_str(), false)
        },
        _ => CliError::operation("authorization_failed", error.message.as_str(), 1, false),
    }
}

/// The structured text with which the desktop answers a Spark host capability request
/// that was refused: `{"capability":..,"code":..,"message":..}`.
pub open spec fn host_authorization_text(code: Seq<char>, capability: Seq<char>, message: Seq<char>) -> Seq<char> {
    crate::json::object3(
        "capability"@,
        crate::json::json_string_literal(capability),
        "code"@,
        crate::json::json_string_literal(code),
        "message"@,
        crate::json::json_string_literal(message),
    )
}

/// Lays out the answer to a refused Spark host capability request.
pub fn authorization_error(code: &str, capability: &str, message: &str) -> (r: String)
    ensures
        r@ == host_authorization_text(code@, capability@, message@),
{
    let c = crate::json::json_string(capability);
    let k = crate::json::json_string(code);
    let m = crate::json::json_string(message);
    crate::json::object3_text("capability", c.as_str(), "code", k.as_str(), "message", m.as_str())
}

/// The answer to a refused Spark host capability request, coded by why it was refused.
pub fn host_authorization_error(error: AuthorizationError, capability: HostCapability) -> (r: String)
    ensures
        r@ == host_authorization_text(
            authorization_code(error.kind),
            capability_name_of(toolbox_capability_of(capability)),
            error.message@,
        ),
{
    let (_, name) = toolbox_capability(capability);
    authorization_error(authorization_code_str(error.kind), name, error.message.as_str())
}

/// The answer when the Spark host's consent store cannot be opened.
pub fn host_authorizer_error(message: &str, capability: HostCapability) -> (r: String)
    ensures
        r@ == host_authorization_text(
            "authorization_failed"@,
            capability_name_of(toolbox_capability_of(capability)),
            message@,
        ),
{
    let (_, name) = toolbox_capability(capability);
    authorization_error("authorization_failed", name, message)
}

/// The host side of the Spark Analyzer plugin: it authorizes the plugin's capability requests
/// against the consents persisted under a data root.
#[derive(Debug, Clone, PartialEq, Eq)]
pub struct SparkHostAuthorizer {
    pub data_root: String,
}

impl SparkHostAuthorizer {
    /// An authorizer for the consents kept under `data_root`.
    pub fn new(data_root: &str) -> (r: SparkHostAuthorizer)
        ensures
            r.data_root@ == data_root@,
    {
        SparkHostAuthorizer { data_root: data_root.to_owned() }
    }
}

} // verus!

verus! {

/// Capability names are distinct: the command line reads back every capability from its name.
pub proof fn law_capability_names_round_trip(c: CapabilityId)
    ensures
        forall|d: CapabilityId| #[trigger] capability_name_of(d) == capability_name_of(c) ==> d == c,
{
    reveal_strlit("credentials:ai");
    reveal_strlit("filesystem:read");
    reveal_strlit("filesystem:write");
    reveal_strlit("network:spark");
    assert forall|d: CapabilityId| capability_name_of(d) == capability_name_of(c) implies d == c by {
        match (c, d) {
            (CapabilityId::CredentialsAi, CapabilityId::FilesystemRead) => {
                assert(capability_name_of(c)[0] != capability_name_of(d)[0]);
            },
            (CapabilityId::CredentialsAi, CapabilityId::FilesystemWrite) => {
                assert(capability_name_of(c)[0] != capability_name_of(d)[0]);
            },
            (CapabilityId::CredentialsAi, CapabilityId::NetworkSpark) => {
                assert(capability_name_of(c)[0] != capability_name_of(d)[0]);
            },
            (CapabilityId::FilesystemRead, CapabilityId::CredentialsAi) => {
                assert(capability_name_of(c)[0] != capability_name_of(d)[0]);
            },
            (CapabilityId::FilesystemRead, CapabilityId::FilesystemWrite) => {
                assert(capability_name_of(c)[11] != capability_name_of(d)[11]);
            },
            (CapabilityId::FilesystemRead, CapabilityId::NetworkSpark) => {
                assert(capability_name_of(c)[0] != capability_name_of(d)[0]);
            },
            (CapabilityId::FilesystemWrite, CapabilityId::CredentialsAi) => {
                assert(capability_name_of(c)[0] != capability_name_of(d)[0]);
            },
            (CapabilityId::FilesystemWrite, CapabilityId::FilesystemRead) => {
                assert(capability_name_of(c)[11] != capability_name_of(d)[11]);
            },
            (CapabilityId::FilesystemWrite, CapabilityId::NetworkSpark) => {
                assert(capability_name_of(c)[0] != capability_name_of(d)[0]);
            },
            (CapabilityId::NetworkSpark, CapabilityId::CredentialsAi) => {
                assert(capability_name_of(c)[0] != capability_name_of(d)[0]);
            },
            (CapabilityId::NetworkSpark, CapabilityId::FilesystemRead) => {
                assert(capability_name_of(c)[0] != capability_name_of(d)[0]);
            },
            (CapabilityId::NetworkSpark, CapabilityId::FilesystemWrite) => {
                assert(capability_name_of(c)[0] != capability_name_of(d)[0]);
            },
            _ => {},
        }
    }
}

/// Every capability that the Spark plugin asks its host for can be granted from the desktop
/// under the same name: the consent recorded is the one the plugin gate checks.
pub proof fn law_host_capabilities_are_grantable(h: HostCapability)
    ensures
        toolbox_capability_of(h) != CapabilityId::FilesystemRead,
        forall|d: CapabilityId|
            #[trigger] capability_name_of(d) == capability_name_of(toolbox_capability_of(h)) ==> d
                == toolbox_capability_of(h),
{
    law_capability_names_round_trip(toolbox_capability_of(h));
}

/// Each capability that the Spark plugin asks its host for is checked as the toolbox
/// capability of the same meaning: network access as `network:spark`, the AI credentials as
/// `credentials:ai`, and file writes as `filesystem:write`; no two host capabilities are checked
/// against the same consent.
pub proof fn law_host_capabilities_keep_their_meaning(h: HostCapability, g: HostCapability)
    ensures
        (h == HostCapability::Network) == (capability_name_of(toolbox_capability_of(h))
            == "network:spark"@),
        (h == HostCapability::Credentials) == (capability_name_of(toolbox_capability_of(h))
            == "credentials:ai"@),
        (h == HostCapability::FilesystemWrite) == (capability_name_of(toolbox_capability_of(h))
            == "filesystem:write"@),
        toolbox_capability_of(h) == toolbox_capability_of(g) ==> h == g,
{
    reveal_strlit("network:spark");
    reveal_strlit("credentials:ai");
    reveal_strlit("filesystem:write");
    reveal_strlit("filesystem:read");
    law_capability_names_round_trip(toolbox_capability_of(h));
    law_capability_names_round_trip(CapabilityId::NetworkSpark);
    law_capability_names_round_trip(CapabilityId::CredentialsAi);
    law_capability_names_round_trip(CapabilityId::FilesystemWrite);
    assert(capability_name_of(CapabilityId::NetworkSpark) == "network:spark"@);
    assert(capability_name_of(CapabilityId::CredentialsAi) == "credentials:ai"@);
    assert(capability_name_of(CapabilityId::FilesystemWrite) == "filesystem:write"@);
}

} // verus!
