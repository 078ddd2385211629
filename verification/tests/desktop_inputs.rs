// Where a test is named after a command-level scenario, it checks the part of that scenario
// that the library decides: reading and writing files, the consent store and running the
// program belong to the application and are not exercised here, so such a test asserts fewer
// values than the whole scenario does.
use bkmt::data_root::{runtime_diagnostics, DataRootSource};
use bkmt::locale::{
    check_locale, check_locale_pack_metadata, decode_locale_pack, locale_open_failure,
    locale_pack_file_name,
};
use bkmt::preferences::{
    check_preferences_metadata, check_preferences_read, check_preferences_schema, finish_load,
    lock_step, preferences_open_failure, validate_preferences, LockAttempt, LockStep,
    SparkPreferencesError,
};

#[test]
fn locale_names_cannot_escape_the_locale_directory() {
    assert_eq!(check_locale("../secrets").unwrap_err().code, "invalid_locale");
    assert!(check_locale("").is_err());
    assert!(check_locale("zh-CN").is_ok());
    assert!(check_locale("en_US").is_ok());
    assert!(check_locale("é").is_err());
    assert_eq!(locale_pack_file_name("zh-CN"), "zh-CN.json");
}

#[test]
fn missing_locale_pack_falls_back_without_creating_directories() {
    assert!(locale_open_failure(true, "not found").unwrap().is_empty());
    let e = locale_open_failure(false, "permission denied").unwrap_err();
    assert_eq!((e.code.as_str(), e.message.as_str()), ("locale_storage_failed", "permission denied"));
}

#[test]
fn locale_directory_and_oversized_pack_are_rejected() {
    assert_eq!(check_locale_pack_metadata(false, 0).unwrap_err().code, "locale_storage_failed");
    assert_eq!(check_locale_pack_metadata(true, 1024 * 1024 + 1).unwrap_err().code, "locale_pack_too_large");
    assert!(check_locale_pack_metadata(true, 1024 * 1024).is_ok());
    assert_eq!(decode_locale_pack(vec![b' '; 1024 * 1024 + 1]).unwrap_err().code, "locale_pack_too_large");
}

#[test]
fn desktop_loads_flat_minecraft_style_locale_overrides() {
    let source = r#"{
          "tool.file_generator.name": "我的文件工具",
          "custom.greeting": "你好"
        }"#;
    let map = decode_locale_pack(source.as_bytes().to_vec()).unwrap();
    assert_eq!(map["tool.file_generator.name"], "我的文件工具");
    assert_eq!(map["custom.greeting"], "你好");
    assert_eq!(decode_locale_pack(b"[1]".to_vec()).unwrap_err().code, "invalid_locale_pack");
    assert_eq!(decode_locale_pack(vec![0xff]).unwrap_err().code, "invalid_locale_pack");
}

#[test]
fn spark_preferences_reject_invalid_values_and_future_schemas() {
    let e = validate_preferences("openai", "gpt-4.1-mini", true, "file:///tmp/not-a-provider").unwrap_err();
    assert_eq!(e.code, "invalid_spark_preferences");
    assert_eq!(e.message, "provider URL must use HTTP or HTTPS");
    let e = check_preferences_schema(99).unwrap_err();
    assert_eq!(e.code, "unsupported_spark_preferences_schema");
    assert_eq!(e.message, "unsupported Spark preferences schema version: 99");
    assert!(check_preferences_schema(1).is_ok());
}

#[test]
fn spark_preferences_accept_a_provider_url_or_none() {
    assert!(validate_preferences("openai", "gpt-4.1-mini", true, "https://api.openai.com/v1").is_ok());
    assert!(validate_preferences("custom", "", true, "").is_ok());
}

#[test]
fn spark_preferences_check_each_field_in_order() {
    let m = |p: &str, model: &str, t: bool, u: &str| validate_preferences(p, model, t, u).unwrap_err().message;
    assert_eq!(m("", "m", true, ""), "invalid provider id or model length");
    assert_eq!(m("OpenAI", "m", true, ""), "invalid provider id or model length");
    assert_eq!(m(&"a".repeat(65), "m", true, ""), "invalid provider id or model length");
    assert_eq!(m("openai", &"m".repeat(257), true, ""), "invalid provider id or model length");
    assert_eq!(m("openai", "m", false, ""), "temperature must be between 0 and 2");
    assert_eq!(m("openai", "m", true, &format!("https://x/{}", "a".repeat(2048))), "provider URL is too long");
    assert_eq!(m("openai", "m", true, "https://user@example.com"), "provider URL must not contain credentials");
    assert_eq!(m("openai", "m", true, "https://:pw@example.com"), "provider URL must not contain credentials");
    assert_eq!(m("openai", "m", true, "not a url"), url::Url::parse("not a url").unwrap_err().to_string());
    assert!(validate_preferences(&"a".repeat(64), &"m".repeat(256), true, "http://localhost:11434").is_ok());
}

#[test]
fn preferences_files_are_bounded_regular_files() {
    assert_eq!(check_preferences_metadata(false, 0).unwrap_err().message, "Spark preferences must be a regular file");
    assert_eq!(check_preferences_metadata(true, 65537).unwrap_err().message, "Spark preferences exceed 64 KiB");
    assert!(check_preferences_metadata(true, 65536).is_ok());
    assert!(check_preferences_read(65537).is_err());
    assert!(matches!(preferences_open_failure::<u8>(true, "x"), Ok(None)));
    assert_eq!(preferences_open_failure::<u8>(false, "x").unwrap_err().code, "spark_preferences_storage_failed");
}

#[test]
fn preferences_lock_retries_only_while_blocked_before_the_deadline() {
    assert_eq!(lock_step(LockAttempt::Acquired, true), LockStep::Locked);
    assert_eq!(lock_step(LockAttempt::WouldBlock, true), LockStep::Retry);
    match lock_step(LockAttempt::WouldBlock, false) {
        LockStep::GiveUp(e) => assert_eq!(e.code, "spark_preferences_lock_timeout"),
        other => panic!("{other:?}"),
    }
    match lock_step(LockAttempt::Failed("io".to_string()), true) {
        LockStep::GiveUp(e) => assert_eq!((e.code.as_str(), e.message.as_str()), ("spark_preferences_storage_failed", "io")),
        other => panic!("{other:?}"),
    }
    let load_error = SparkPreferencesError::new("invalid_spark_preferences", "bad");
    assert_eq!(finish_load::<u8>(Err(load_error.clone()), Err("unlock".to_string())), Err(load_error));
    assert_eq!(finish_load(Ok(5u8), Ok(())), Ok(5));
    assert_eq!(finish_load(Ok(5u8), Err("unlock".to_string())).unwrap_err().message, "unlock");
}

#[test]
fn desktop_diagnostics_exposes_the_actual_data_root() {
    let d = runtime_diagnostics(Some("/data".to_string()), DataRootSource::Explicit).unwrap();
    assert_eq!(d.data_root, "/data");
    assert_eq!(d.data_root_source, DataRootSource::Explicit);
}

#[test]
fn diagnostics_never_silently_replaces_non_utf8_path_bytes() {
    assert_eq!(runtime_diagnostics(None, DataRootSource::System).unwrap_err().code, "data_root_not_unicode");
}
