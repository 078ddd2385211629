// Where a test is named after a command-level scenario, it checks the part of that scenario
// that the library decides: reading and writing files, the consent store and running the
// program belong to the application and are not exercised here, so such a test asserts fewer
// values than the whole scenario does.
use bkmt::args::{format_u32, parse_destination, parse_max_rounds, parse_usize, parse_variable};
use bkmt::data_root::{
    cli_data_root_error, cli_data_dir_text, portable_requested, DataRootError, DataRootErrorKind,
    DataRootSource,
};
use bkmt::errors::CliError;
use bkmt::generation::ExecutionStatus;

#[test]
fn unsigned_numbers_parse_like_std() {
    for text in ["0", "12", "+7", "007", "", "+", "-1", " 1", "1 ", "1e3", "18446744073709551615",
        "18446744073709551616", "99999999999999999999999", "٣"] {
        assert_eq!(parse_usize(text), text.parse::<usize>().ok(), "{text:?}");
    }
}

#[test]
fn max_rounds_must_be_between_one_and_sixty_four() {
    assert_eq!(parse_max_rounds("1"), Ok(1));
    assert_eq!(parse_max_rounds("64"), Ok(64));
    assert_eq!(parse_max_rounds("12"), Ok(12));
    assert_eq!(parse_max_rounds("0"), Err("max rounds must be between 1 and 64".to_string()));
    assert_eq!(parse_max_rounds("65"), Err("max rounds must be between 1 and 64".to_string()));
    assert_eq!(
        parse_max_rounds("many"),
        Err("max rounds must be an integer between 1 and 64".to_string())
    );
}

#[test]
fn parser_failures_follow_the_json_error_contract() {
    assert_eq!(parse_variable("invalid"), Err("variables must use NAME=VALUE syntax".to_string()));
    assert_eq!(parse_variable("=value"), Err("variable name cannot be empty".to_string()));
    assert_eq!(parse_variable("name=Demo"), Ok(("name".to_string(), "Demo".to_string())));
    assert_eq!(parse_variable("a=b=c"), Ok(("a".to_string(), "b=c".to_string())));
    assert_eq!(parse_variable("a="), Ok(("a".to_string(), String::new())));
}

#[test]
fn numbers_format_like_display_and_read_back() {
    for n in [0u32, 7, 10, 99, 1000, 4294967295] {
        assert_eq!(format_u32(n), n.to_string());
        assert_eq!(parse_usize(&format_u32(n)), Some(n as usize));
    }
}

#[test]
fn errors_render_as_json_or_plain_text() {
    let plain = CliError::input("invalid_template", "bad \"template\"", false);
    assert_eq!(plain.render(), "bad \"template\"");
    let json = CliError::input("invalid_template", "bad \"template\"", true);
    assert_eq!(json.render(), r#"{"code":"invalid_template","details":null,"message":"bad \"template\""}"#);
    let consent = CliError::consent_required(true);
    assert_eq!(
        consent.render(),
        r#"{"code":"consent_required","details":{"capability":"filesystem:write","toolId":"file-generator"},"message":"filesystem write consent is required"}"#
    );
    assert_eq!(consent.exit_code, 4);
    let denied = CliError::consent_denied(false);
    assert_eq!(denied.render(), "filesystem write consent was denied");
    let internal = CliError::from_message("boom".to_string());
    assert_eq!((internal.code.as_str(), internal.exit_code, internal.json), ("internal_error", 1, false));
    let op = CliError::operation("serialization_failed", "x", 1, true);
    assert_eq!(op.exit_code, 1);
    assert!(op.details.is_none());
}

#[test]
fn existing_files_are_reported_as_conflicts_without_force() {
    let conflict = CliError::execution_status(ExecutionStatus::Conflict, true).unwrap();
    assert_eq!(conflict.code, "conflict");
    assert_eq!(conflict.exit_code, 3);
    assert!(CliError::execution_status(ExecutionStatus::Complete, true).is_none());
    let partial = CliError::execution_status(ExecutionStatus::PartialFailure, false).unwrap();
    assert_eq!((partial.code.as_str(), partial.exit_code), ("partial_failure", 5));
    let failed = CliError::execution_status(ExecutionStatus::Failed, false).unwrap();
    assert_eq!((failed.code.as_str(), failed.exit_code), ("execution_failed", 5));
}

#[test]
fn relative_data_directory_is_a_structured_input_error() {
    let error = DataRootError {
        kind: DataRootErrorKind::RelativePath(DataRootSource::Explicit),
        message: "data root must be absolute".to_string(),
    };
    let e = cli_data_root_error(error, true, true);
    assert_eq!(e.code, "invalid_data_root");
    assert_eq!(e.exit_code, 2);
}

#[test]
fn empty_environment_root_is_a_structured_input_error() {
    let error = DataRootError {
        kind: DataRootErrorKind::EmptyPath(DataRootSource::Environment),
        message: "data root from BKMT_DATA_DIR is empty".to_string(),
    };
    let e = cli_data_root_error(error, true, true);
    assert_eq!(e.code, "invalid_data_root");
    assert!(e.message.contains("empty"));
    let other = DataRootError { kind: DataRootErrorKind::Other, message: "io".to_string() };
    let e = cli_data_root_error(other, true, true);
    assert_eq!((e.code.as_str(), e.exit_code), ("data_root_unavailable", 1));
    let portable = DataRootError {
        kind: DataRootErrorKind::RelativePath(DataRootSource::Portable),
        message: "x".to_string(),
    };
    assert_eq!(cli_data_root_error(portable, true, false).code, "data_root_unavailable");
    let implicit = DataRootError {
        kind: DataRootErrorKind::EmptyPath(DataRootSource::Explicit),
        message: "x".to_string(),
    };
    assert_eq!(cli_data_root_error(implicit, false, false).code, "data_root_unavailable");
}

#[test]
fn portable_mode_follows_the_flag_and_the_environment() {
    assert!(portable_requested(true, None));
    assert!(portable_requested(false, Some("1")));
    assert!(portable_requested(false, Some("true")));
    assert!(portable_requested(false, Some("yes")));
    assert!(!portable_requested(false, Some("TRUE")));
    assert!(!portable_requested(false, Some("0")));
    assert!(!portable_requested(false, None));
}

#[test]
fn json_diagnostics_rejects_non_utf8_roots_without_lossy_replacement() {
    let e = cli_data_dir_text(None, true).unwrap_err();
    assert_eq!(e.code, "data_root_not_unicode");
    assert_eq!(cli_data_dir_text(Some("/data".to_string()), true).unwrap(), "/data");
}

#[test]
fn empty_destination_is_rejected_before_loading_or_authorization() {
    assert_eq!(parse_destination("").unwrap_err(), "destination must not be empty");
    assert_eq!(parse_destination("out").unwrap(), "out");
}

#[test]
fn rendered_errors_escape_messages_as_json_strings() {
    let text = CliError::input("c", "tab\there \"q\" back\\slash \u{1}\u{1f}\u{7f}é", true).render();
    assert_eq!(
        text,
        "{\"code\":\"c\",\"details\":null,\"message\":\"tab\\there \\\"q\\\" back\\\\slash \\u0001\\u001f\u{7f}é\"}"
    );
    let value: serde_json::Value = serde_json::from_str(&text).unwrap();
    assert_eq!(value["message"], "tab\there \"q\" back\\slash \u{1}\u{1f}\u{7f}é");
}
