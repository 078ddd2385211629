// Where a test is named after a command-level scenario, it checks the part of that scenario
// that the library decides: reading and writing files, the consent store and running the
// program belong to the application and are not exercised here, so such a test asserts fewer
// values than the whole scenario does.
use bkmt::spark::{
    check_report_metadata, decode_report, normalize_tool_name, report_hint, run_report_tool,
    select_api_key, tool_arguments, tool_run_result,
};
use bkmt::update::{check_current_version, evaluate_release};

fn json_value(text: &str) -> serde_json::Value {
    serde_json::from_str(text).unwrap()
}

fn no_arguments() -> serde_json::Value {
    serde_json::Value::Object(serde_json::Map::new())
}

const CANONICAL: &str = "https://github.com/bro-know-my-org/BroKnowMyToolbox/releases/tag/";

#[test]
fn oversized_report_is_rejected_before_reading() {
    let e = check_report_metadata(true, 64 * 1024 * 1024 + 1, true).unwrap_err();
    assert_eq!(e.code, "report_too_large");
    assert!(check_report_metadata(true, 64 * 1024 * 1024, true).is_ok());
}

#[test]
fn directory_is_not_a_report() {
    assert_eq!(check_report_metadata(false, 0, true).unwrap_err().code, "invalid_report_source");
}

#[test]
fn spark_inspect_parses_a_local_text_report_through_bkmsa_core() {
    let decoded = decode_report(b"Can't keep up!\n".to_vec(), true, "latest.log".to_string(), "log", true).unwrap();
    assert_eq!(decoded.report.kind.as_str(), "text");
    assert_eq!(decoded.source, "latest.log");
    assert_eq!(decoded.report.source, "latest.log");
    assert_eq!(decoded.report, bkmsa_core::parse_text_report("Can't keep up!\n", "latest.log").unwrap());
    let e = decode_report(vec![0xff], true, "x".to_string(), "", true).unwrap_err();
    assert_eq!(e.code, "invalid_text_report");
    let e = decode_report(vec![b'a'; 16 * 1024 * 1024 + 1], true, "x".to_string(), "", true).unwrap_err();
    assert_eq!(e.code, "report_decode_failed");
    let e = decode_report(vec![1, 2, 3], false, "x".to_string(), "", true).unwrap_err();
    assert_eq!(e.code, "report_decode_failed");
    assert_eq!(report_hint("profile.sparkprofile"), "sparkprofile");
    assert_eq!(report_hint("latest"), "");
}

#[test]
fn spark_runs_a_deterministic_tool_against_a_local_report() {
    assert_eq!(normalize_tool_name("hot-paths"), "hot_paths");
    assert_eq!(normalize_tool_name("overview"), "overview");
    let pairs = vec!["limit=5".to_string(), " category = cpu".to_string(), "flag=true".to_string()];
    let args = tool_arguments(None, &pairs, true).unwrap();
    assert_eq!(args, json_value(r#"{"limit":5,"category":" cpu","flag":true}"#));
}

#[test]
fn tool_arguments_reject_malformed_and_duplicate_pairs() {
    let e = tool_arguments(None, &vec!["limit".to_string()], true).unwrap_err();
    assert_eq!(e.code, "invalid_tool_args");
    assert_eq!(e.message, "invalid --arg 'limit'; expected KEY=VALUE");
    let e = tool_arguments(None, &vec!["a=1".to_string(), " a =2".to_string()], true).unwrap_err();
    assert_eq!(e.message, "invalid or duplicate tool argument:  a ");
    let e = tool_arguments(None, &vec![" =1".to_string()], false).unwrap_err();
    assert_eq!(e.message, "invalid or duplicate tool argument:  ");
    assert_eq!(tool_arguments(Some(r#"{"limit":3}"#), &vec![], true).unwrap(), json_value(r#"{"limit":3}"#));
    assert_eq!(tool_arguments(Some("[1]"), &vec![], true).unwrap_err().message, "--args must be a JSON object");
    let e = tool_arguments(Some("{"), &vec![], true).unwrap_err();
    assert_eq!(e.message, serde_json::from_str::<serde_json::Value>("{").unwrap_err().to_string());
}

#[test]
fn spark_ai_analysis_reports_a_missing_api_key_before_network_access() {
    let e = select_api_key(None, None, true).unwrap_err();
    assert_eq!(e.code, "missing_ai_credential");
    assert_eq!(select_api_key(Some("  ".to_string()), Some("k2".to_string()), true).unwrap(), "k2");
    assert_eq!(select_api_key(Some("k1".to_string()), Some("k2".to_string()), true).unwrap(), "k1");
    assert!(select_api_key(Some("\t".to_string()), Some("\u{3000}".to_string()), true).is_err());
}

#[test]
fn update_check_reports_a_newer_release_and_its_download_page() {
    let url = format!("{CANONICAL}v0.2.0");
    let result = evaluate_release("0.1.0", "v0.2.0", &url).unwrap();
    assert!(result.available);
    assert_eq!(result.latest_version, "0.2.0");
    assert_eq!(result.current_version, "0.1.0");
    assert_eq!(result.release_url, url);
}

#[test]
fn update_check_rejects_untrusted_release_urls() {
    for url in [
        "http://github.com/example/release",
        "https://example.com/release",
        "https://github.com/other-owner/other-repo/releases/tag/v0.2.0",
        "https://github.com/bro-know-my-org/bro-know-my-toolbox/releases/tag/v0.2.0",
        "https://github.com/bro-know-my-org/BroKnowMyToolbox/releases/tag/v0.3.0",
        "https://github.com/bro-know-my-org/BroKnowMyToolbox/issues/1",
        "https://user@github.com/bro-know-my-org/BroKnowMyToolbox/releases/tag/v0.2.0",
        "https://github.com/bro-know-my-org/BroKnowMyToolbox/releases/tag/v0.2.0?redirect=elsewhere",
        "https://github.com/bro-know-my-org/BroKnowMyToolbox/releases/tag/v0.2.0#other",
    ] {
        let error = evaluate_release("0.1.0", "v0.2.0", url).unwrap_err();
        assert!(error.contains("HTTPS on github.com"), "{url}");
    }
}

#[test]
fn update_check_handles_equal_older_and_malformed_versions() {
    for (tag, available) in [("v0.1.0", Some(false)), ("v0.0.9", Some(false)), ("vbad", None)] {
        let result = evaluate_release("0.1.0", tag, &format!("{CANONICAL}{tag}"));
        match available {
            Some(expected) => assert_eq!(result.unwrap().available, expected),
            None => assert!(result.unwrap_err().contains("version")),
        }
    }
    assert!(check_current_version("0.1.0").is_ok());
    assert!(check_current_version("one").unwrap_err().starts_with("invalid current version: "));
    assert!(evaluate_release("0.1.0", "v0.2.0", "not a url").unwrap_err().starts_with("invalid release URL: "));
}

#[test]
fn report_tools_run_under_their_normalised_names() {
    let report = decode_report(b"Can't keep up!\n".to_vec(), true, "latest.log".to_string(), "log", true).unwrap().report;
    let (name, result) = run_report_tool(&report, "overview", no_arguments(), true).unwrap();
    assert_eq!(name, "overview");
    assert!(!result.is_null());
    let e = run_report_tool(&report, "no-such-tool", no_arguments(), true).unwrap_err();
    assert_eq!(e.code, "spark_tool_failed");
    assert_eq!(e.exit_code, 2);
    let args = tool_arguments(None, &vec!["limit=2".to_string()], true).unwrap();
    let e = run_report_tool(&report, "overview", args, false).unwrap_err();
    assert_eq!(e.code, "spark_tool_failed");
    assert!(e.message.contains("limit"));
}

#[test]
fn report_tool_values_that_are_not_json_are_passed_as_strings() {
    let report = decode_report(b"Can't keep up!\n".to_vec(), true, "latest.log".to_string(), "log", true).unwrap().report;
    let args = tool_arguments(None, &vec!["category=cpu".to_string()], true).unwrap();
    let (name, _) = run_report_tool(&report, "hot-paths", args, true).unwrap();
    assert_eq!(name, "hot_paths");
    let args = tool_arguments(None, &vec!["limit=0".to_string()], true).unwrap();
    let e = run_report_tool(&report, "hotspots", args, true).unwrap_err();
    assert!(e.message.contains("limit must be a positive integer"));
    let e = run_report_tool(&report, "raw-field", no_arguments(), true).unwrap_err();
    assert!(e.message.contains("raw_field.path is required"));
}

#[test]
fn tool_refusals_become_spark_tool_failed_input_errors() {
    let value = serde_json::Value::Bool(true);
    let (name, result) = tool_run_result("overview".to_string(), Ok(value.clone()), true).unwrap();
    assert_eq!((name.as_str(), result), ("overview", value));
    let e = tool_run_result("overview".to_string(), Err("no such tool".to_string()), false).unwrap_err();
    assert_eq!((e.code.as_str(), e.message.as_str(), e.exit_code, e.json), ("spark_tool_failed", "no such tool", 2, false));
}

#[test]
fn tool_argument_values_are_json_where_they_parse_and_strings_otherwise() {
    let pairs = vec!["limit=5".to_string(), " name =abc".to_string()];
    assert_eq!(tool_arguments(None, &pairs, true).unwrap(), json_value(r#"{"limit":5,"name":"abc"}"#));
    let pairs = vec!["path=\"a\"".to_string(), "deep=[1,{\"x\":null}]".to_string(), "empty=".to_string()];
    assert_eq!(
        tool_arguments(None, &pairs, false).unwrap(),
        json_value(r#"{"path":"a","deep":[1,{"x":null}],"empty":""}"#)
    );
    assert_eq!(tool_arguments(None, &vec![], true).unwrap(), no_arguments());
}
