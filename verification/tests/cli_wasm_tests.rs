use sanctifier::analyze::{
    highest_finding_severity, normalize_path_separators, should_exit_with_failure, SeverityLevel,
};
use sanctifier::wasm_api::{
    build_progress_events, check_analysis_input, schema_version, summarize, validate_config_json,
    validate_source, MAX_SOURCE_SIZE,
};

#[test]
fn severity_names_round_trip() {
    for l in [SeverityLevel::Critical, SeverityLevel::High, SeverityLevel::Medium, SeverityLevel::Low] {
        assert_eq!(l.as_str().parse::<SeverityLevel>(), Ok(l));
    }
    assert_eq!("HIGH".parse::<SeverityLevel>(), Ok(SeverityLevel::High));
    assert_eq!(
        "severe".parse::<SeverityLevel>(),
        Err("Invalid severity level: severe".to_string())
    );
    assert_eq!(SeverityLevel::parse_level("Low"), Ok(SeverityLevel::Low));
}

#[test]
fn highest_severity_and_exit_status() {
    let none: Vec<String> = vec![];
    assert_eq!(highest_finding_severity(false, false, false, false, &none, false), None);
    assert_eq!(
        highest_finding_severity(false, true, true, true, &none, true),
        Some(SeverityLevel::High)
    );
    assert_eq!(
        highest_finding_severity(true, true, false, false, &none, false),
        Some(SeverityLevel::Critical)
    );
    let vulns = vec!["medium".to_string(), "bogus".to_string(), "CRITICAL".to_string()];
    assert_eq!(
        highest_finding_severity(false, false, false, true, &vulns, false),
        Some(SeverityLevel::Critical)
    );
    assert!(should_exit_with_failure(true, Some(SeverityLevel::Critical), SeverityLevel::High));
    assert!(should_exit_with_failure(true, Some(SeverityLevel::High), SeverityLevel::High));
    assert!(!should_exit_with_failure(true, Some(SeverityLevel::Medium), SeverityLevel::High));
    assert!(!should_exit_with_failure(false, Some(SeverityLevel::Critical), SeverityLevel::Low));
    assert!(!should_exit_with_failure(true, None, SeverityLevel::Low));
}

#[test]
fn source_validation() {
    assert_eq!(validate_source(""), Err("Source code cannot be empty".to_string()));
    assert_eq!(validate_source("x"), Ok(()));
    let big = "a".repeat(MAX_SOURCE_SIZE + 1);
    assert_eq!(
        validate_source(&big),
        Err("Source code exceeds maximum size of 10485760 bytes (got 10485761 bytes)".to_string())
    );
    assert_eq!(validate_source(&big[..MAX_SOURCE_SIZE]), Ok(()));
}

#[test]
fn config_validation() {
    assert_eq!(validate_config_json(""), Ok(()));
    assert_eq!(validate_config_json(" \n\t\u{3000}"), Ok(()));
    assert_eq!(validate_config_json("{}"), Ok(()));
    let big = format!("{{\"a\":\"{}\"}}", "x".repeat(1024 * 1024));
    assert_eq!(
        validate_config_json(&big),
        Err("Configuration JSON exceeds maximum size of 1 MB".to_string())
    );
    let blank_big = " ".repeat(2 * 1024 * 1024);
    assert_eq!(validate_config_json(&blank_big), Ok(()));
}

#[test]
fn analysis_input_errors() {
    let e = check_analysis_input(None, "").unwrap_err();
    assert_eq!(e.error_code, "INVALID_INPUT");
    assert_eq!(e.message, "Source code cannot be empty");
    assert_eq!(e.schema_version, "1.0.0");
    let big = format!("{{\"a\":\"{}\"}}", "x".repeat(1024 * 1024));
    let e = check_analysis_input(Some(&big), "").unwrap_err();
    assert_eq!(e.error_code, "INVALID_CONFIG");
    assert!(check_analysis_input(Some(""), "fn f() {}").is_ok());
    assert_eq!(schema_version(), "1.0.0");
}

#[test]
fn progress_events_are_deterministic() {
    let events = build_progress_events(10);
    let got: Vec<(&str, u8, usize)> = events.iter().map(|e| (e.phase, e.percent, e.findings_so_far)).collect();
    assert_eq!(
        got,
        vec![
            ("Validating source input", 10, 2),
            ("Parsing and indexing contract", 30, 4),
            ("Running security passes", 60, 6),
            ("Aggregating findings", 85, 8),
            ("Finalizing schema output", 100, 10),
        ]
    );
    let counts: Vec<usize> = build_progress_events(3).iter().map(|e| e.findings_so_far).collect();
    assert_eq!(counts, vec![0, 1, 1, 2, 3]);
}

#[test]
fn summary_counts() {
    let s = summarize(1, 2, 3, 4, 5, 6, 7, 8, 0, 9);
    assert_eq!(s.total, 45);
    assert!(s.has_high);
    assert!(!s.has_critical);
    let s = summarize(0, 2, 0, 0, 0, 0, 0, 0, 0, 0);
    assert!(!s.has_high);
    let s = summarize(0, 0, 0, 0, 0, 0, 0, 0, 1, 0);
    assert!(s.has_high);
    assert_eq!(s.upgrade_risks, 1);
}

#[test]
fn path_separators_are_normalized() {
    assert_eq!(normalize_path_separators("contracts\\token\\src"), "contracts/token/src");
    assert_eq!(normalize_path_separators("C:\\work\\lib.rs"), "C:/work/lib.rs");
    assert_eq!(normalize_path_separators("contracts/token"), "contracts/token");
    assert_eq!(normalize_path_separators(""), "");
}
