// Where a test is named after a command-level scenario, it checks the part of that scenario
// that the library decides: reading and writing files, the consent store and running the
// program belong to the application and are not exercised here, so such a test asserts fewer
// values than the whole scenario does.
use bkmt::errors::{command_error, CliError};
use bkmt::templates::{
    admit_user_template, build_template_catalog, check_not_built_in, prepare_user_template,
    check_template_text_size, check_user_template_size, cli_check_loaded_template_id,
    cli_check_template_metadata, cli_decode_template,
    decode_user_template, find_template, is_template_file,
    resolve_template_reference, sort_by_id, split_file_name, template_entry,
    user_template_file_name, valid_template_id, FileTemplateEntry, TemplateFile, TemplateIdentity,
    MAX_USER_TEMPLATE_BYTES,
};

fn entry(id: &str, source: &str) -> FileTemplateEntry {
    FileTemplateEntry {
        id: id.to_string(),
        title: id.to_uppercase(),
        source: source.to_string(),
        template_json: format!("{{\"id\":\"{id}\"}}"),
    }
}

fn file(name: &str, loaded: Result<FileTemplateEntry, (&str, &str)>) -> TemplateFile {
    TemplateFile {
        file_name: name.to_string(),
        loaded: loaded.map_err(|(code, message)| command_error(code, message)),
    }
}

fn identity(id: &str, title: &str) -> Result<TemplateIdentity, String> {
    Ok(TemplateIdentity { id: id.to_string(), title: title.to_string() })
}

#[test]
fn template_ids_use_lowercase_ascii_digits_dash_and_underscore() {
    assert!(valid_template_id("basic-readme"));
    assert!(valid_template_id("a_1"));
    assert!(valid_template_id(&"x".repeat(64)));
    assert!(!valid_template_id(&"x".repeat(65)));
    assert!(!valid_template_id(""));
    assert!(!valid_template_id("Readme"));
    assert!(!valid_template_id("../escape"));
    assert!(!valid_template_id("a.b"));
    assert!(!valid_template_id("é"));
}

#[test]
fn file_names_split_like_std_paths() {
    assert_eq!(split_file_name("readme.json"), ("readme".to_string(), Some("json".to_string())));
    assert_eq!(split_file_name("a.b.json"), ("a.b".to_string(), Some("json".to_string())));
    assert_eq!(split_file_name(".json"), (".json".to_string(), None));
    assert_eq!(split_file_name("noext"), ("noext".to_string(), None));
    assert_eq!(split_file_name("trailing."), ("trailing".to_string(), Some(String::new())));
    assert_eq!(split_file_name(".."), ("..".to_string(), None));
    for name in ["readme.json", "a.b.json", ".json", "noext", "x.txt", "y.JSON"] {
        let path = std::path::Path::new(name);
        let (stem, ext) = split_file_name(name);
        assert_eq!(Some(stem.as_str()), path.file_stem().and_then(|s| s.to_str()));
        assert_eq!(ext.as_deref(), path.extension().and_then(|s| s.to_str()));
    }
}

#[test]
fn only_json_entries_that_are_not_directories_or_links_are_template_candidates() {
    assert!(is_template_file(false, false, "valid.json"));
    assert!(!is_template_file(true, false, "valid.json"));
    assert!(!is_template_file(false, true, "valid.json"));
    assert!(!is_template_file(false, false, "valid.txt"));
    assert!(!is_template_file(false, false, ".json"));
    assert!(!is_template_file(false, false, "valid.JSON"));
}

#[test]
fn template_entry_maps_parse_errors_to_invalid_template() {
    let ok = template_entry("{}".to_string(), identity("readme", "README"), "user").unwrap();
    assert_eq!(ok.id, "readme");
    assert_eq!(ok.title, "README");
    assert_eq!(ok.source, "user");
    assert_eq!(ok.template_json, "{}");
    let err = template_entry("broken".to_string(), Err("expected value".to_string()), "user")
        .unwrap_err();
    assert_eq!(err.code, "invalid_template");
    assert_eq!(err.message, "expected value");
}

#[test]
fn desktop_template_catalog_includes_built_in_and_persisted_user_templates() {
    let files = vec![file("readme.json", Ok(entry("readme", "user")))];
    let catalog = build_template_catalog(vec![entry("basic-readme", "built_in")], files).templates;
    assert!(catalog.iter().any(|t| t.source == "built_in"));
    assert!(catalog.iter().any(|t| t.id == "readme" && t.title == "README" && t.source == "user"));
}

#[test]
fn desktop_catalog_rejects_mismatched_and_reserved_ids() {
    let mut templates = vec![entry("basic-readme", "built_in")];
    let err = admit_user_template(&mut templates, "mismatch.json", entry("other", "user")).unwrap_err();
    assert_eq!(err.code, "invalid_template_id");
    assert_eq!(err.message, "user template filename must match id: other");
    let err = admit_user_template(&mut templates, "basic-readme.json", entry("basic-readme", "user"))
        .unwrap_err();
    assert_eq!(err.code, "invalid_template_id");
    assert_eq!(err.message, "user template id is reserved by a built-in template: basic-readme");
    assert_eq!(templates.len(), 1);
}

#[test]
fn desktop_catalog_keeps_built_in_first_and_sorts_user_templates() {
    let files = ["delta", "alpha", "charlie", "bravo"]
        .iter()
        .map(|id| file(&format!("{id}.json"), Ok(entry(id, "user"))))
        .collect();
    let catalog = build_template_catalog(vec![entry("zz-built-in", "built_in")], files).templates;
    let ids: Vec<&str> = catalog.iter().map(|t| t.id.as_str()).collect();
    assert_eq!(ids, ["zz-built-in", "alpha", "bravo", "charlie", "delta"]);
}

#[test]
fn sorting_by_id_matches_string_order() {
    let ids = ["b", "a", "ab", "", "B", "a-b", "a_b", "aa"];
    let sorted = sort_by_id(ids.iter().map(|id| entry(id, "user")).collect());
    let mut expected: Vec<&str> = ids.to_vec();
    expected.sort();
    assert_eq!(sorted.iter().map(|t| t.id.as_str()).collect::<Vec<_>>(), expected);
}

#[test]
fn stored_template_size_is_limited_to_one_mib() {
    assert!(check_user_template_size(MAX_USER_TEMPLATE_BYTES, "t.json").is_ok());
    let err = check_user_template_size(MAX_USER_TEMPLATE_BYTES + 1, "t.json").unwrap_err();
    assert_eq!(err.code, "user_template_too_large");
    assert_eq!(err.message, "user template exceeds 1 MiB: t.json");
}

#[test]
fn one_mib_template_round_trips_exactly_and_remains_plannable() {
    for size in [1024 * 1024 - 1, 1024 * 1024] {
        assert!(check_template_text_size(&" ".repeat(size), "user template exceeds 1 MiB").is_ok());
    }
    let err = check_template_text_size(&" ".repeat(1024 * 1024 + 1), "user template exceeds 1 MiB")
        .unwrap_err();
    assert_eq!(err.code, "user_template_too_large");
    // Two-byte characters count by bytes, not characters.
    assert!(check_template_text_size(&"é".repeat(512 * 1024 + 1), "x").is_err());
}

#[test]
fn saved_templates_cannot_take_built_in_ids() {
    let built_ins = vec![entry("basic-readme", "built_in")];
    assert!(check_not_built_in(&built_ins, &entry("readme", "user")).is_ok());
    let err = check_not_built_in(&built_ins, &entry("basic-readme", "user")).unwrap_err();
    assert_eq!(err.code, "invalid_template_id");
    assert_eq!(user_template_file_name("readme"), "readme.json");
}

#[test]
fn cli_reads_a_one_mib_user_template_and_rejects_one_byte_more() {
    let exact = vec![b' '; 1024 * 1024];
    assert_eq!(cli_decode_template(exact, true).unwrap().len(), 1024 * 1024);
    let err = cli_decode_template(vec![b' '; 1024 * 1024 + 1], true).unwrap_err();
    assert_eq!(err.code, "user_template_too_large");
    assert_eq!(err.exit_code, 2);
    assert!(cli_check_template_metadata(true, 1024 * 1024, true).is_ok());
    let err = cli_check_template_metadata(true, 1024 * 1024 + 1, true).unwrap_err();
    assert_eq!(err.code, "user_template_too_large");
    assert!(cli_decode_template(vec![b' '; 1024 * 1024], true).is_ok());
    assert_eq!(cli_decode_template(vec![b' '; 1024 * 1024 + 1], true).unwrap_err().code, "user_template_too_large");
}

#[test]
fn cli_template_sources_must_be_regular_utf8_files() {
    let err = cli_check_template_metadata(false, 10, false).unwrap_err();
    assert_eq!(err.code, "template_unreadable");
    assert_eq!(err.message, "template must be a regular file");
    let err = cli_decode_template(vec![0xff, 0xfe], true).unwrap_err();
    assert_eq!(err.code, "invalid_template");
    assert_eq!(err.message, String::from_utf8(vec![0xff, 0xfe]).unwrap_err().to_string());
    let err = decode_user_template(vec![0xc3], "x.json").unwrap_err();
    assert_eq!(err.code, "invalid_template");
    assert_eq!(decode_user_template(b"{}".to_vec(), "x.json").unwrap(), "{}");
    let err = decode_user_template(vec![b' '; 1024 * 1024 + 1], "/data/x.json").unwrap_err();
    assert_eq!(err.message, "user template exceeds 1 MiB: /data/x.json");
}

#[test]
fn listing_preserves_the_json_array_and_reports_damaged_templates_on_stderr() {
    let files = vec![
        file("valid.json", Ok(entry("valid", "user"))),
        file("broken.json", Err(("invalid_template", "expected value"))),
        file("mismatch.json", Ok(entry("other", "user"))),
        file("basic-readme.json", Ok(entry("basic-readme", "user"))),
        file("large.json", Err(("user_template_too_large", "user template exceeds 1 MiB"))),
    ];
    let catalog = build_template_catalog(vec![entry("basic-readme", "built_in")], files);
    assert_eq!(catalog.templates.len(), 2);
    assert_eq!(catalog.templates[0].source, "built_in");
    assert_eq!(catalog.templates[1].id, "valid");
    let warnings: Vec<(&str, &str)> = catalog
        .warnings
        .iter()
        .map(|w| (w.file_name.as_str(), w.code.as_str()))
        .collect();
    assert_eq!(
        warnings,
        [
            ("basic-readme.json", "invalid_template_id"),
            ("broken.json", "invalid_template"),
            ("large.json", "user_template_too_large"),
            ("mismatch.json", "invalid_template_id"),
        ]
    );
    assert_eq!(catalog.warnings[0].message, "user template id is reserved by a built-in template: basic-readme");
    assert_eq!(catalog.warnings[3].message, "user template filename must match id: other");
}

#[test]
fn desktop_returns_valid_templates_and_structured_warnings_together() {
    let files = vec![
        file("broken.json", Err(("invalid_template", "expected value at line 1 column 1"))),
        file("valid.json", Ok(entry("valid", "user"))),
    ];
    let catalog = build_template_catalog(vec![entry("basic-readme", "built_in")], files);
    assert_eq!(catalog.templates.len(), 2);
    assert_eq!(catalog.templates[1].id, "valid");
    assert_eq!(catalog.warnings.len(), 1);
    assert_eq!(catalog.warnings[0].file_name, "broken.json");
    assert_eq!(catalog.warnings[0].code, "invalid_template");
    let clean = build_template_catalog(
        vec![entry("basic-readme", "built_in")],
        vec![file("valid.json", Ok(entry("valid", "user")))],
    );
    assert!(clean.warnings.is_empty());
}

#[test]
fn unreadable_template_files_are_warnings() {
    let files = vec![file("fifo.json", Err(("template_unreadable", "template must be a regular file")))];
    let catalog = build_template_catalog(vec![entry("basic-readme", "built_in")], files);
    assert_eq!(catalog.templates.len(), 1);
    assert_eq!(catalog.warnings[0].file_name, "fifo.json");
    assert_eq!(catalog.warnings[0].code, "template_unreadable");
}

#[test]
fn template_references_select_ids_or_paths() {
    assert_eq!(resolve_template_reference("@basic-readme", true).unwrap(), Some("basic-readme".to_string()));
    assert_eq!(resolve_template_reference("template.json", true).unwrap(), None);
    assert_eq!(resolve_template_reference("", true).unwrap(), None);
    let err: CliError = resolve_template_reference("@../secret", true).unwrap_err();
    assert_eq!(err.code, "invalid_template_id");
    assert_eq!(err.message, "template id must use 1-64 lowercase ASCII letters, digits, '-' or '_'");
    assert_eq!(err.exit_code, 2);
    assert!(resolve_template_reference("@", false).is_err());
    assert!(cli_check_loaded_template_id("boundary", "boundary", true).is_ok());
    let err = cli_check_loaded_template_id("broken", "other", true).unwrap_err();
    assert_eq!(err.message, "user template filename must match id: other");
    let list = vec![entry("a", "built_in"), entry("b", "built_in")];
    assert_eq!(find_template(&list, "b"), Some(1));
    assert_eq!(find_template(&list, "c"), None);
}

#[test]
fn catalog_order_does_not_depend_on_the_directory_order() {
    let readings = [
        vec!["zeta", "alpha", "mid"],
        vec!["mid", "zeta", "alpha"],
        vec!["alpha", "mid", "zeta"],
    ];
    let catalogs: Vec<Vec<FileTemplateEntry>> = readings
        .iter()
        .map(|ids| {
            let files = ids.iter().map(|id| file(&format!("{id}.json"), Ok(entry(id, "user")))).collect();
            build_template_catalog(vec![entry("basic-readme", "built_in")], files).templates
        })
        .collect();
    assert_eq!(catalogs[0], catalogs[1]);
    assert_eq!(catalogs[1], catalogs[2]);
    let ids: Vec<&str> = catalogs[0].iter().map(|e| e.id.as_str()).collect();
    assert_eq!(ids, vec!["basic-readme", "alpha", "mid", "zeta"]);
}

#[test]
fn saving_a_template_needs_consent_first() {
    let built_ins = vec![entry("basic-readme", "built_in")];
    let denied = bkmt::capability::AuthorizationError {
        kind: bkmt::capability::AuthorizationErrorKind::ConsentRequired,
        message: "consent required".to_string(),
    };
    let e = prepare_user_template(Err(denied), "{}".to_string(), identity("mine", "Mine"), &built_ins).unwrap_err();
    assert_eq!((e.code.as_str(), e.message.as_str()), ("consent_required", "consent required"));
    let big = " ".repeat(1024 * 1024 + 1);
    let e = prepare_user_template(Ok(()), big, identity("mine", "Mine"), &built_ins).unwrap_err();
    assert_eq!(e.code, "user_template_too_large");
    let e = prepare_user_template(Ok(()), "x".to_string(), Err("bad".to_string()), &built_ins).unwrap_err();
    assert_eq!((e.code.as_str(), e.message.as_str()), ("invalid_template", "bad"));
    let e = prepare_user_template(Ok(()), "{}".to_string(), identity("basic-readme", "B"), &built_ins).unwrap_err();
    assert_eq!(e.code, "invalid_template_id");
    let exact = " ".repeat(1024 * 1024);
    let saved = prepare_user_template(Ok(()), exact.clone(), identity("boundary", "Boundary"), &built_ins).unwrap();
    assert_eq!((saved.id.as_str(), saved.source.as_str()), ("boundary", "user"));
    assert_eq!(saved.template_json, exact);
    let listed = build_template_catalog(
        built_ins,
        vec![file(&user_template_file_name(&saved.id), Ok(saved.clone()))],
    );
    assert_eq!(listed.templates.iter().filter(|t| t.id == "boundary").count(), 1);
    assert_eq!(listed.templates[1], saved);
}
