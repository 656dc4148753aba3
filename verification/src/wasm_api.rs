//! The browser-facing analysis API: input validation, the result shapes and
//! the deterministic progress events.
use vstd::prelude::*;
use crate::text::{decimal, is_white_space, push_decimal, white_space};

verus! {

/// Analysis output schema version (independent of tool version).
pub const SCHEMA_VERSION: &'static str = "1.0.0";

/// Maximum allowed source code size (10 MB).
pub const MAX_SOURCE_SIZE: usize = 10485760;

/// Minimum required source code size (1 byte).
pub const MIN_SOURCE_SIZE: usize = 1;

/// Maximum allowed configuration size (1 MB).
pub const MAX_CONFIG_SIZE: usize = 1048576;

/// Error response for validation or processing failures.
pub struct ErrorResponse {
    /// Error code (e.g., "INVALID_INPUT", "PARSE_ERROR").
    pub error_code: String,
    /// Human-readable error message.
    pub message: String,
    /// Schema version for consistency.
    pub schema_version: &'static str,
}

/// A single finding emitted by any analysis pass, normalised for JS consumers.
pub struct Finding {
    /// Canonical code (`S000`–`S012`).
    pub code: &'static str,
    /// Broad category string (matches the finding-code catalogue).
    pub category: &'static str,
    /// Human-readable description of the issue.
    pub message: String,
    /// Source location string when available (e.g. `"function_name:line"`).
    pub location: Option<String>,
}

/// Aggregate counts included in every [`AnalysisResult`].
pub struct Summary {
    pub total: usize,
    pub auth_gaps: usize,
    pub panic_issues: usize,
    pub arithmetic_issues: usize,
    pub size_warnings: usize,
    pub unsafe_patterns: usize,
    pub storage_collisions: usize,
    pub event_issues: usize,
    pub unhandled_results: usize,
    pub upgrade_risks: usize,
    pub sep41_issues: usize,
    pub has_critical: bool,
    pub has_high: bool,
}

/// Top-level result of an analysis.
pub struct AnalysisResult {
    /// Flat list of all findings across every analysis pass.
    pub findings: Vec<Finding>,
    /// Pre-computed counts so JS consumers don't have to iterate.
    pub summary: Summary,
    /// Schema version for versioning alignment.
    pub schema_version: &'static str,
}

/// Progress event of a progressive analysis.
pub struct ProgressEvent {
    pub phase: &'static str,
    pub percent: u8,
    pub findings_so_far: usize,
}

/// Progressive response shape for browsers rendering partial progress.
pub struct ProgressiveAnalysisResult {
    pub events: Vec<ProgressEvent>,
    pub result: AnalysisResult,
}

/// The byte length of a string, as `str::len` reports it.
pub open spec fn byte_len(s: &str) -> usize {
    s.len()
}

/// Every char of `s` is white space (so `s.trim()` is empty).
pub open spec fn all_white_space(s: Seq<char>) -> bool {
    forall|i: int| 0 <= i < s.len() ==> white_space(#[trigger] s[i])
}

/// Validate source code input: it must hold between 1 byte and
/// `MAX_SOURCE_SIZE` bytes.
pub fn validate_source(source: &str) -> (r: Result<(), String>)
    ensures
        byte_len(source) < MIN_SOURCE_SIZE ==> (r matches Err(m) && m@ == "Source code cannot be empty"@),
        byte_len(source) > MAX_SOURCE_SIZE ==> (r matches Err(m) && m@
            == "Source code exceeds maximum size of 10485760 bytes (got "@ + decimal(byte_len(source) as nat)
            + " bytes)"@),
        MIN_SOURCE_SIZE <= byte_len(source) <= MAX_SOURCE_SIZE ==> r is Ok,
{
    let len = source.len();
    if len < MIN_SOURCE_SIZE {
        return Err(String::from_str("Source code cannot be empty"));
    }
    if len > MAX_SOURCE_SIZE {
        let mut m = String::from_str("Source code exceeds maximum size of 10485760 bytes (got ");
        push_decimal(&mut m, len);
        m.append(" bytes)");
        return Err(m);
    }
    Ok(())
}

/// Validate configuration JSON: blank input is accepted (the default
/// configuration applies); otherwise it may hold at most `MAX_CONFIG_SIZE`
/// bytes.
pub fn validate_config_json(config_json: &str) -> (r: Result<(), String>)
    ensures
        all_white_space(config_json@) ==> r is Ok,
        !all_white_space(config_json@) && byte_len(config_json) > MAX_CONFIG_SIZE ==> (r matches Err(m)
            && m@ == "Configuration JSON exceeds maximum size of 1 MB"@),
        !all_white_space(config_json@) && byte_len(config_json) <= MAX_CONFIG_SIZE ==> r is Ok,
{
    let mut blank = true;
    for c in it: config_json.chars()
        invariant
            blank == forall|i: int| 0 <= i < it.index() ==> white_space(#[trigger] it.seq()[i]),
            it.seq() == config_json@,
    {
        if !is_white_space(c) {
            blank = false;
        }
    }
    if blank {
        return Ok(());
    }
    if config_json.len() > MAX_CONFIG_SIZE {
        return Err(String::from_str("Configuration JSON exceeds maximum size of 1 MB"));
    }
    Ok(())
}

/// The error response for input that fails validation: the configuration
/// (when given) is checked first, with code `INVALID_CONFIG`, then the
/// source, with code `INVALID_INPUT`.
pub fn check_analysis_input(config_json: Option<&str>, source: &str) -> (r: Result<(), ErrorResponse>)
    ensures
        match config_json {
            Some(c) if validate_config_json_fails(c) => r matches Err(e) && e.error_code@ == "INVALID_CONFIG"@
                && e.message@ == "Configuration JSON exceeds maximum size of 1 MB"@ && e.schema_version@
                == "1.0.0"@,
            _ => if validate_source_fails(source) {
                r matches Err(e) && e.error_code@ == "INVALID_INPUT"@ && e.message@ == source_error_message(
                    source,
                ) && e.schema_version@ == "1.0.0"@
            } else {
                r is Ok
            },
        },
{
    if let Some(c) = config_json {
        if let Err(message) = validate_config_json(c) {
            return Err(
                ErrorResponse {
                    error_code: String::from_str("INVALID_CONFIG"),
                    message,
                    schema_version: SCHEMA_VERSION,
                },
            );
        }
    }
    if let Err(message) = validate_source(source) {
        return Err(
            ErrorResponse {
                error_code: String::from_str("INVALID_INPUT"),
                message,
                schema_version: SCHEMA_VERSION,
            },
        );
    }
    Ok(())
}

/// `validate_config_json` refuses the input.
pub open spec fn validate_config_json_fails(c: &str) -> bool {
    !all_white_space(c@) && byte_len(c) > MAX_CONFIG_SIZE
}

/// `validate_source` refuses the input.
pub open spec fn validate_source_fails(s: &str) -> bool {
    byte_len(s) < MIN_SOURCE_SIZE || byte_len(s) > MAX_SOURCE_SIZE
}

/// The message with which `validate_source` refuses a source of the wrong
/// size.
pub open spec fn source_error_message(s: &str) -> Seq<char> {
    if byte_len(s) < MIN_SOURCE_SIZE {
        "Source code cannot be empty"@
    } else {
        "Source code exceeds maximum size of 10485760 bytes (got "@ + decimal(byte_len(s) as nat)
            + " bytes)"@
    }
}

/// Return the analysis output schema version (independent of tool version).
pub fn schema_version() -> (r: String)
    ensures
        r@ == "1.0.0"@,
{
    String::from_str(SCHEMA_VERSION)
}

/// The phase name and percentage of progress step `i` (0 to 4).
pub open spec fn progress_phase(i: int) -> (Seq<char>, u8) {
    if i == 0 {
        ("Validating source input"@, 10u8)
    } else if i == 1 {
        ("Parsing and indexing contract"@, 30u8)
    } else if i == 2 {
        ("Running security passes"@, 60u8)
    } else if i == 3 {
        ("Aggregating findings"@, 85u8)
    } else {
        ("Finalizing schema output"@, 100u8)
    }
}

/// Number of progress phases.
pub const PROGRESS_PHASE_COUNT: usize = 5;

fn phase_at(i: usize) -> (r: (&'static str, u8))
    requires
        i < PROGRESS_PHASE_COUNT,
    ensures
        r.0@ == progress_phase(i as int).0,
        r.1 == progress_phase(i as int).1,
{
    if i == 0 {
        ("Validating source input", 10)
    } else if i == 1 {
        ("Parsing and indexing contract", 30)
    } else if i == 2 {
        ("Running security passes", 60)
    } else if i == 3 {
        ("Aggregating findings", 85)
    } else {
        ("Finalizing schema output", 100)
    }
}

/// The five progress events of an analysis with `total_findings`
/// findings: step `i` reports its phase and percentage and
/// `(i + 1) * total_findings / 5` findings so far.
pub fn build_progress_events(total_findings: usize) -> (r: Vec<ProgressEvent>)
    requires
        total_findings * 5 <= usize::MAX,
    ensures
        r@.len() == 5,
        forall|i: int|
            0 <= i < 5 ==> {
                &&& (#[trigger] r@[i]).phase@ == progress_phase(i).0
                &&& r@[i].percent == progress_phase(i).1
                &&& r@[i].findings_so_far == findings_at_step(i, total_findings as int)
            },
{
    let mut events: Vec<ProgressEvent> = Vec::new();
    let mut idx: usize = 0;
    while idx < PROGRESS_PHASE_COUNT
        invariant
            idx <= 5,
            total_findings * 5 <= usize::MAX,
            events@.len() == idx,
            forall|i: int|
                0 <= i < idx ==> {
                    &&& (#[trigger] events@[i]).phase@ == progress_phase(i).0
                    &&& events@[i].percent == progress_phase(i).1
                    &&& events@[i].findings_so_far == findings_at_step(i, total_findings as int)
                },
        decreases 5 - idx,
    {
        let (phase, percent) = phase_at(idx);
        assert((idx + 1) * total_findings <= total_findings * 5) by (nonlinear_arith)
            requires
                idx < 5,
        ;
        let findings_so_far = ((idx + 1) * total_findings) / PROGRESS_PHASE_COUNT;
        events.push(ProgressEvent { phase, percent, findings_so_far });
        idx = idx + 1;
    }
    events
}

/// The counts of an analysis: `total` is the number of findings of all
/// kinds; none is critical, and the result is high when an authentication
/// gap or an upgrade risk was found.
pub fn summarize(
    auth_gaps: usize,
    panic_issues: usize,
    arithmetic_issues: usize,
    size_warnings: usize,
    unsafe_patterns: usize,
    storage_collisions: usize,
    event_issues: usize,
    unhandled_results: usize,
    upgrade_risks: usize,
    sep41_issues: usize,
) -> (r: Summary)
    requires
        auth_gaps + panic_issues + arithmetic_issues + size_warnings + unsafe_patterns
            + storage_collisions + event_issues + unhandled_results + upgrade_risks + sep41_issues
            <= usize::MAX,
    ensures
        r.total == auth_gaps + panic_issues + arithmetic_issues + size_warnings + unsafe_patterns
            + storage_collisions + event_issues + unhandled_results + upgrade_risks + sep41_issues,
        r.auth_gaps == auth_gaps && r.panic_issues == panic_issues && r.arithmetic_issues
            == arithmetic_issues && r.size_warnings == size_warnings && r.unsafe_patterns
            == unsafe_patterns && r.storage_collisions == storage_collisions && r.event_issues
            == event_issues && r.unhandled_results == unhandled_results && r.upgrade_risks
            == upgrade_risks && r.sep41_issues == sep41_issues,
        !r.has_critical,
        r.has_high == (auth_gaps > 0 || upgrade_risks > 0),
{
    Summary {
        total: auth_gaps + panic_issues + arithmetic_issues + size_warnings + unsafe_patterns
            + storage_collisions + event_issues + unhandled_results + upgrade_risks + sep41_issues,
        auth_gaps,
        panic_issues,
        arithmetic_issues,
        size_warnings,
        unsafe_patterns,
        storage_collisions,
        event_issues,
        unhandled_results,
        upgrade_risks,
        sep41_issues,
        has_critical: false,
        has_high: auth_gaps > 0 || upgrade_risks > 0,
    }
}

/// The findings reported so far at progress step `i`.
pub open spec fn findings_at_step(i: int, total_findings: int) -> int {
    (i + 1) * total_findings / 5
}

/// The progress events count up to the total: the last reports every
/// finding, and each reports at least as many as the one before.
pub proof fn law_progress_reaches_the_total(total_findings: nat)
    ensures
        findings_at_step(4, total_findings as int) == total_findings,
        forall|i: int|
            0 <= i < 4 ==> #[trigger] findings_at_step(i, total_findings as int) <= findings_at_step(
                i + 1,
                total_findings as int,
            ),
{
    assert((4 + 1) * total_findings == 5 * total_findings);
    vstd::arithmetic::div_mod::lemma_div_multiples_vanish(total_findings as int, 5);
    assert forall|i: int| 0 <= i < 4 implies #[trigger] findings_at_step(i, total_findings as int)
        <= findings_at_step(i + 1, total_findings as int) by {
        assert((i + 1) * total_findings <= (i + 2) * total_findings) by (nonlinear_arith)
            requires
                0 <= i,
                total_findings >= 0,
        ;
        vstd::arithmetic::div_mod::lemma_div_is_ordered(
            (i + 1) * total_findings,
            (i + 2) * total_findings,
            5,
        );
    }
}

} // verus!
