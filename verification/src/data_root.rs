//! The shared data root: the portable switch, how a failure to resolve the root is reported,
//! and the runtime diagnostics that expose it.
use vstd::prelude::*;

use crate::errors::{command_error, CliError, CommandError};
use crate::text::str_eq;

verus! {

/// Where the data root came from.
#[derive(Debug, Clone, Copy, PartialEq, Eq)]
pub enum DataRootSource {
    Explicit,
    Environment,
    Portable,
    System,
}

/// Why a data root could not be resolved.
#[derive(Debug, Clone, Copy, PartialEq, Eq)]
pub enum DataRootErrorKind {
    EmptyPath(DataRootSource),
    RelativePath(DataRootSource),
    Other,
}

/// A failed data root resolution: why, and its message.
#[derive(Debug, Clone, PartialEq, Eq)]
pub struct DataRootError {
    pub kind: DataRootErrorKind,
    pub message: String,
}

/// The values of `BKMT_PORTABLE` that ask for portable mode.
pub open spec fn is_portable_value(v: Seq<char>) -> bool {
    v == "1"@ || v == "true"@ || v == "yes"@
}

/// Whether portable mode is asked for, by the `--portable` flag or by `BKMT_PORTABLE`.
pub fn portable_requested(flag: bool, environment: Option<&str>) -> (r: bool)
    ensures
        r == (flag || (environment matches Some(v) && is_portable_value(v@))),
{
    if flag {
        return true;
    }
    match environment {
        Some(v) => str_eq(v, "1") || str_eq(v, "true") || str_eq(v, "yes"),
        None => false,
    }
}

/// A path given by the user that is empty or relative.
pub open spec fn is_user_path_error(k: DataRootErrorKind) -> bool {
    match k {
        DataRootErrorKind::EmptyPath(s) | DataRootErrorKind::RelativePath(s) => s
            == DataRootSource::Explicit || s == DataRootSource::Environment,
        DataRootErrorKind::Other => false,
    }
}

/// Reports a failed resolution on the command line: an empty or relative `--data-dir` or
/// `BKMT_DATA_DIR` is the input error `invalid_data_root`, anything else
/// `data_root_unavailable` with exit code 1. `user_given` says whether the root came from
/// `--data-dir` or `BKMT_DATA_DIR`.
pub fn cli_data_root_error(error: DataRootError, user_given: bool, json: bool) -> (r: CliError)
    ensures
        r.message@ == error.message@,
        r.json == json,
        r.details is None,
        user_given && is_user_path_error(error.kind) ==> r.code@ == "invalid_data_root"@
            && r.exit_code == 2,
        !(user_given && is_user_path_error(error.kind)) ==> r.code@ == "data_root_unavailable"@
            && r.exit_code == 1,
{
    let user_path = match error.kind {
        DataRootErrorKind::EmptyPath(s) | DataRootErrorKind::RelativePath(s) => match s {
            DataRootSource::Explicit | DataRootSource::Environment => true,
            _ => false,
        },
        DataRootErrorKind::Other => false,
    };
    if user_given && user_path {
        CliError::input("invalid_data_root", error.message.as_str(), json)
    } else {
        CliError::operation("data_root_unavailable", error.message.as_str(), 1, json)
    }
}

/// The effective data root as the desktop reports it.
#[derive(Debug, Clone, PartialEq, Eq)]
pub struct RuntimeDiagnostics {
    pub data_root: String,
    pub data_root_source: DataRootSource,
}

/// The runtime diagnostics of the desktop; `data_root` is the root's text when it is
/// UTF-8, and the root is never shown with replaced characters.
pub fn runtime_diagnostics(data_root: Option<String>, source: DataRootSource) -> (r: Result<
    RuntimeDiagnostics,
    CommandError,
>)
    ensures
        data_root matches Some(p) ==> (r matches Ok(d) && d.data_root@ == p@ && d.data_root_source
            == source),
        data_root is None ==> (r matches Err(e) && e.code@ == "data_root_not_unicode"@
            && e.message@ == "the data directory cannot be represented as UTF-8"@),
{
    match data_root {
        Some(p) => Ok(RuntimeDiagnostics { data_root: p, data_root_source: source }),
        None => Err(
            command_error(
                "data_root_not_unicode",
                "the data directory cannot be represented as UTF-8",
            ),
        ),
    }
}

/// The data root as `diagnostics data-dir --json` prints it, refusing roots that are not UTF-8.
pub fn cli_data_dir_text(data_root: Option<String>, json: bool) -> (r: Result<String, CliError>)
    ensures
        data_root matches Some(p) ==> (r matches Ok(t) && t@ == p@),
        data_root is None ==> (r matches Err(e) && e.code@ == "data_root_not_unicode"@
            && e.message@ == "the data directory cannot be represented as UTF-8"@ && e.exit_code
            == 1 && e.json == json),
{
    match data_root {
        Some(p) => Ok(p),
        None => Err(
            CliError::operation(
                "data_root_not_unicode",
                "the data directory cannot be represented as UTF-8",
                1,
                json,
            ),
        ),
    }
}

} // verus!
