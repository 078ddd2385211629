//! The error values that the adapters hand back: the desktop's `CommandError` and
//! the command line's `CliError`, with the constructors that fix their codes and exit codes.
use vstd::prelude::*;

use crate::text::concat;

verus! {

/// A structured error returned by a desktop command: a stable machine code and a message.
#[derive(Debug, Clone, PartialEq, Eq)]
pub struct CommandError {
    pub code: String,
    pub message: String,
}

/// Builds a `CommandError` from its code and message.
pub fn command_error(code: &str, message: &str) -> (r: CommandError)
    ensures
        r.code@ == code@,
        r.message@ == message@,
{
    CommandError { code: code.to_owned(), message: message.to_owned() }
}

/// The tool and capability that a consent error of the command line refers to.
#[derive(Debug, Clone, PartialEq, Eq)]
pub struct CapabilityDetails {
    pub tool_id: String,
    pub capability: String,
}

/// An error of the command line: a stable code, a message, optional capability details,
/// the process exit code, and whether it is rendered as JSON.
#[derive(Debug, Clone, PartialEq, Eq)]
pub struct CliError {
    pub code: String,
    pub message: String,
    pub details: Option<CapabilityDetails>,
    pub exit_code: i32,
    pub json: bool,
}

/// The view of `CliError` details as plain character sequences.
pub open spec fn details_view(d: Option<CapabilityDetails>) -> Option<(Seq<char>, Seq<char>)> {
    match d {
        Some(d) => Some((d.tool_id@, d.capability@)),
        None => None,
    }
}

impl CliError {
    /// An input error: exit code 2, no details.
    pub fn input(code: &str, message: &str, json: bool) -> (r: CliError)
        ensures
            r.code@ == code@,
            r.message@ == message@,
            r.details is None,
            r.exit_code == 2,
            r.json == json,
    {
        CliError { code: code.to_owned(), message: message.to_owned(), details: None, exit_code: 2, json }
    }

    /// An operational error with the given exit code and no details.
    pub fn operation(code: &str, message: &str, exit_code: i32, json: bool) -> (r: CliError)
        ensures
            r.code@ == code@,
            r.message@ == message@,
            r.details is None,
            r.exit_code == exit_code,
            r.json == json,
    {
        CliError { code: code.to_owned(), message: message.to_owned(), details: None, exit_code, json }
    }

    /// A capability error: exit code 4, with the tool and capability as details.
    pub fn capability(code: &str, message: &str, tool_id: &str, capability: &str, json: bool) -> (r: CliError)
        ensures
            r.code@ == code@,
            r.message@ == message@,
            details_view(r.details) == Some((tool_id@, capability@)),
            r.exit_code == 4,
            r.json == json,
    {
        CliError {
            code: code.to_owned(),
            message: message.to_owned(),
            details: Some(CapabilityDetails { tool_id: tool_id.to_owned(), capability: capability.to_owned() }),
            exit_code: 4,
            json,
        }
    }

    /// The error for a file generation that has no persisted filesystem write consent.
    pub fn consent_required(json: bool) -> (r: CliError)
        ensures
            r.code@ == "consent_required"@,
            r.message@ == "filesystem write consent is required"@,
            details_view(r.details) == Some(("file-generator"@, "filesystem:write"@)),
            r.exit_code == 4,
            r.json == json,
    {
        CliError::capability("consent_required", "filesystem write consent is required", "file-generator", "filesystem:write", json)
    }

    /// The error for a file generation whose filesystem write consent was denied.
    pub fn consent_denied(json: bool) -> (r: CliError)
        ensures
            r.code@ == "consent_denied"@,
            r.message@ == "filesystem write consent was denied"@,
            details_view(r.details) == Some(("file-generator"@, "filesystem:write"@)),
            r.exit_code == 4,
            r.json == json,
    {
        CliError::capability("consent_denied", "filesystem write consent was denied", "file-generator", "filesystem:write", json)
    }

    /// An internal error built from a bare message, as `From<String>` builds it: code `internal_error`, exit code 1, plain text.
    pub fn from_message(message: String) -> (r: CliError)
        ensures
            r.code@ == "internal_error"@,
            r.message@ == message@,
            r.details is None,
            r.exit_code == 1,
            !r.json,
    {
        CliError { code: "internal_error".to_owned(), message, details: None, exit_code: 1, json: false }
    }

    /// An input error whose message is `prefix` followed by `subject`.
    pub fn input_with(code: &str, prefix: &str, subject: &str, json: bool) -> (r: CliError)
        ensures
            r.code@ == code@,
            r.message@ == prefix@ + subject@,
            r.details is None,
            r.exit_code == 2,
            r.json == json,
    {
        let message = concat(prefix, subject);
        CliError { code: code.to_owned(), message, details: None, exit_code: 2, json }
    }
}

/// A `CommandError` whose message is `prefix` followed by `subject`.
pub fn command_error_with(code: &str, prefix: &str, subject: &str) -> (r: CommandError)
    ensures
        r.code@ == code@,
        r.message@ == prefix@ + subject@,
{
    CommandError { code: code.to_owned(), message: concat(prefix, subject) }
}

} // verus!

verus! {

/// The JSON text `null`.
pub open spec fn json_null() -> Seq<char> {
    seq!['n', 'u', 'l', 'l']
}

/// The `details` member of a rendered `CliError`.
pub open spec fn details_json(d: Option<(Seq<char>, Seq<char>)>) -> Seq<char> {
    match d {
        None => json_null(),
        Some((tool_id, capability)) => crate::json::object2(
            "capability"@,
            crate::json::json_string_literal(capability),
            "toolId"@,
            crate::json::json_string_literal(tool_id),
        ),
    }
}

/// What `render` prints for an error: a JSON object with `code`, `details` and `message`
/// when the error is in JSON mode, and the bare message otherwise.
pub open spec fn rendered(e: CliError) -> Seq<char> {
    if e.json {
        crate::json::object3(
            "code"@,
            crate::json::json_string_literal(e.code@),
            "details"@,
            details_json(details_view(e.details)),
            "message"@,
            crate::json::json_string_literal(e.message@),
        )
    } else {
        e.message@
    }
}

impl CliError {
    /// Renders the error for standard error output.
    pub fn render(&self) -> (r: String)
        ensures
            r@ == rendered(*self),
    {
        if self.json {
            let details = match &self.details {
                None => {
                    proof { reveal_strlit("null"); }
                    let n = "null".to_owned();
                    assert(n@ =~= json_null());
                    n
                },
                Some(d) => {
                    let c = crate::json::json_string(d.capability.as_str());
                    let t = crate::json::json_string(d.tool_id.as_str());
                    crate::json::object2_text("capability", c.as_str(), "toolId", t.as_str())
                },
            };
            let code = crate::json::json_string(self.code.as_str());
            let message = crate::json::json_string(self.message.as_str());
            crate::json::object3_text(
                "code",
                code.as_str(),
                "details",
                details.as_str(),
                "message",
                message.as_str(),
            )
        } else {
            self.message.clone()
        }
    }
}

} // verus!
