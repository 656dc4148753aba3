//! The decisions of the `analyze` command: parsing a severity threshold,
//! finding the most severe level among a scan's findings, and deciding the
//! exit status.
use vstd::prelude::*;
use crate::soroban_v21::str_eq;
use crate::text::{all_ascii, ascii_char, ascii_lower, chars_of, lowercase_of, string_of, to_lowercase};

verus! {

/// A finding severity, from most to least severe.
#[derive(Clone, Copy, Debug, PartialEq, Eq, Structural)]
pub enum SeverityLevel {
    Critical,
    High,
    Medium,
    Low,
}

/// How severe a level is: 4 for critical down to 1 for low.
pub open spec fn rank(l: SeverityLevel) -> int {
    match l {
        SeverityLevel::Critical => 4,
        SeverityLevel::High => 3,
        SeverityLevel::Medium => 2,
        SeverityLevel::Low => 1,
    }
}

/// The name of a level.
pub open spec fn level_name(l: SeverityLevel) -> Seq<char> {
    match l {
        SeverityLevel::Critical => "critical"@,
        SeverityLevel::High => "high"@,
        SeverityLevel::Medium => "medium"@,
        SeverityLevel::Low => "low"@,
    }
}

/// The level a string names, ignoring case.
pub open spec fn level_named(s: Seq<char>) -> Option<SeverityLevel> {
    let l = lowercase_of(s);
    if l == "critical"@ {
        Some(SeverityLevel::Critical)
    } else if l == "high"@ {
        Some(SeverityLevel::High)
    } else if l == "medium"@ {
        Some(SeverityLevel::Medium)
    } else if l == "low"@ {
        Some(SeverityLevel::Low)
    } else {
        None
    }
}

impl SeverityLevel {
    /// The level's name: `critical`, `high`, `medium` or `low`.
    pub fn as_str(&self) -> (r: &'static str)
        ensures
            r@ == level_name(*self),
    {
        match self {
            SeverityLevel::Critical => "critical",
            SeverityLevel::High => "high",
            SeverityLevel::Medium => "medium",
            SeverityLevel::Low => "low",
        }
    }

    /// Parses a level name, ignoring case.
    pub fn parse_level(s: &str) -> (r: Result<SeverityLevel, String>)
        ensures
            match level_named(s@) {
                Some(l) => r == Ok::<SeverityLevel, String>(l),
                None => r matches Err(m) && m@ == "Invalid severity level: "@ + s@,
            },
    {
        let lower = to_lowercase(s);
        let l = lower.as_str();
        if str_eq(l, "critical") {
            Ok(SeverityLevel::Critical)
        } else if str_eq(l, "high") {
            Ok(SeverityLevel::High)
        } else if str_eq(l, "medium") {
            Ok(SeverityLevel::Medium)
        } else if str_eq(l, "low") {
            Ok(SeverityLevel::Low)
        } else {
            let mut m = String::from_str("Invalid severity level: ");
            m.append(s);
            Err(m)
        }
    }
}

impl std::str::FromStr for SeverityLevel {
    type Err = String;

    fn from_str(s: &str) -> (r: Result<Self, Self::Err>)
        ensures
            match level_named(s@) {
                Some(l) => r == Ok::<SeverityLevel, String>(l),
                None => r matches Err(m) && m@ == "Invalid severity level: "@ + s@,
            },
    {
        SeverityLevel::parse_level(s)
    }
}

/// The more severe of two levels.
pub open spec fn more_severe(a: SeverityLevel, b: SeverityLevel) -> SeverityLevel {
    if rank(a) >= rank(b) {
        a
    } else {
        b
    }
}

/// `current` raised to `candidate` where that is more severe.
pub open spec fn consider(current: Option<SeverityLevel>, candidate: SeverityLevel) -> Option<SeverityLevel> {
    match current {
        Some(c) => Some(more_severe(c, candidate)),
        None => Some(candidate),
    }
}

/// The most severe level among the vulnerability-database severities that
/// name a level, starting from `current`.
pub open spec fn consider_all(current: Option<SeverityLevel>, names: Seq<String>) -> Option<SeverityLevel>
    decreases names.len(),
{
    if names.len() == 0 {
        current
    } else {
        let before = consider_all(current, names.drop_last());
        match level_named(names.last()@) {
            Some(l) => consider(before, l),
            None => before,
        }
    }
}

/// The most severe level among a scan's findings: critical findings,
/// high-severity findings, medium ones (size warnings, unsafe patterns,
/// token-interface deviations), low ones (event issues), the levels of the
/// matched vulnerability-database entries, and low for timed-out files.
pub open spec fn highest_level(
    has_critical: bool,
    has_high: bool,
    has_medium: bool,
    has_event_issues: bool,
    vuln_severities: Seq<String>,
    has_timeouts: bool,
) -> Option<SeverityLevel> {
    let a = if has_critical {
        consider(None, SeverityLevel::Critical)
    } else {
        None
    };
    let b = if has_high {
        consider(a, SeverityLevel::High)
    } else {
        a
    };
    let c = if has_medium {
        consider(b, SeverityLevel::Medium)
    } else {
        b
    };
    let d = if has_event_issues {
        consider(c, SeverityLevel::Low)
    } else {
        c
    };
    let e = consider_all(d, vuln_severities);
    if has_timeouts {
        consider(e, SeverityLevel::Low)
    } else {
        e
    }
}

/// `current` raised to `candidate` where that is more severe.
fn consider_level(current: Option<SeverityLevel>, candidate: SeverityLevel) -> (r: Option<SeverityLevel>)
    ensures
        r == consider(current, candidate),
{
    match current {
        Some(c) => {
            if level_rank(c) >= level_rank(candidate) {
                Some(c)
            } else {
                Some(candidate)
            }
        },
        None => Some(candidate),
    }
}

/// How severe a level is: 4 for critical down to 1 for low.
pub fn level_rank(l: SeverityLevel) -> (r: u8)
    ensures
        r == rank(l),
{
    match l {
        SeverityLevel::Critical => 4,
        SeverityLevel::High => 3,
        SeverityLevel::Medium => 2,
        SeverityLevel::Low => 1,
    }
}

/// The most severe level among a scan's findings (see `highest_level`), or
/// `None` when there are none.
pub fn highest_finding_severity(
    has_critical: bool,
    has_high: bool,
    has_medium: bool,
    has_event_issues: bool,
    vuln_severities: &Vec<String>,
    has_timeouts: bool,
) -> (r: Option<SeverityLevel>)
    ensures
        r == highest_level(
            has_critical,
            has_high,
            has_medium,
            has_event_issues,
            vuln_severities@,
            has_timeouts,
        ),
{
    let mut highest: Option<SeverityLevel> = None;
    if has_critical {
        highest = consider_level(highest, SeverityLevel::Critical);
    }
    if has_high {
        highest = consider_level(highest, SeverityLevel::High);
    }
    if has_medium {
        highest = consider_level(highest, SeverityLevel::Medium);
    }
    if has_event_issues {
        highest = consider_level(highest, SeverityLevel::Low);
    }
    let ghost start = highest;
    let mut i: usize = 0;
    while i < vuln_severities.len()
        invariant
            i <= vuln_severities.len(),
            highest == consider_all(start, vuln_severities@.take(i as int)),
        decreases vuln_severities.len() - i,
    {
        assert(vuln_severities@.take(i + 1).drop_last() =~= vuln_severities@.take(i as int));
        assert(vuln_severities@.take(i + 1).last() == vuln_severities@[i as int]);
        match SeverityLevel::parse_level(vuln_severities[i].as_str()) {
            Ok(sev) => {
                highest = consider_level(highest, sev);
            },
            Err(_) => {},
        }
        i = i + 1;
    }
    assert(vuln_severities@.take(vuln_severities.len() as int) =~= vuln_severities@);
    if has_timeouts {
        highest = consider_level(highest, SeverityLevel::Low);
    }
    highest
}

/// Whether the scan exits with status 1: exit codes are enabled and the
/// most severe finding meets or exceeds the threshold.
pub fn should_exit_with_failure(exit_code: bool, highest: Option<SeverityLevel>, min_severity: SeverityLevel) -> (r:
    bool)
    ensures
        r == (exit_code && match highest {
            Some(h) => rank(h) >= rank(min_severity),
            None => false,
        }),
{
    exit_code && match highest {
        Some(h) => level_rank(h) >= level_rank(min_severity),
        None => false,
    }
}

/// `p` with every backslash turned into a forward slash.
pub open spec fn forward_slashes(p: Seq<char>) -> Seq<char> {
    p.map_values(|c: char| if c == '\\' { '/' } else { c })
}

/// The path to analyse, with Windows separators (`\`) written as `/`; a
/// path without a backslash comes back unchanged.
pub fn normalize_path_separators(path: &str) -> (r: String)
    ensures
        r@ == forward_slashes(path@),
        !path@.contains('\\') ==> r@ == path@,
{
    let cs = chars_of(path);
    let mut out: Vec<char> = Vec::new();
    let mut i: usize = 0;
    while i < cs.len()
        invariant
            i <= cs.len(),
            cs@ == path@,
            out@ == forward_slashes(cs@.take(i as int)),
        decreases cs.len() - i,
    {
        let c = cs[i];
        let d = if c == '\\' {
            '/'
        } else {
            c
        };
        out.push(d);
        assert(forward_slashes(cs@.take(i + 1)) =~= forward_slashes(cs@.take(i as int)).push(d));
        i = i + 1;
    }
    assert(cs@.take(cs.len() as int) =~= cs@);
    proof {
        if !path@.contains('\\') {
            assert forall|k: int| 0 <= k < path@.len() implies #[trigger] forward_slashes(path@)[k] == path@[k] by {
                if path@[k] == '\\' {
                    assert(path@.contains('\\'));
                }
            }
            assert(forward_slashes(path@) =~= path@);
        }
    }
    string_of(&out)
}

/// A level's name is lowercase ASCII, so lowercasing leaves it unchanged.
proof fn lemma_level_name_is_lowercase(l: SeverityLevel)
    ensures
        all_ascii(level_name(l)),
        ascii_lower(level_name(l)) == level_name(l),
        lowercase_of(level_name(l)) == level_name(l),
{
    reveal_strlit("critical");
    reveal_strlit("high");
    reveal_strlit("medium");
    reveal_strlit("low");
    let s = level_name(l);
    assert forall|i: int| 0 <= i < s.len() implies ascii_char(#[trigger] s[i]) && 97 <= (s[i] as u32)
        <= 122 by {}
    assert(ascii_lower(s) =~= s);
}

/// The four names are distinct.
proof fn lemma_level_names_distinct()
    ensures
        "high"@ != "critical"@,
        "medium"@ != "critical"@,
        "medium"@ != "high"@,
        "low"@ != "critical"@,
        "low"@ != "high"@,
        "low"@ != "medium"@,
{
    reveal_strlit("critical");
    reveal_strlit("high");
    reveal_strlit("medium");
    reveal_strlit("low");
    assert("critical"@.len() == 8 && "high"@.len() == 4 && "medium"@.len() == 6 && "low"@.len() == 3);
}

/// Every level's name parses back to that level.
pub proof fn law_level_names_round_trip(l: SeverityLevel)
    ensures
        level_named(level_name(l)) == Some(l),
{
    lemma_level_name_is_lowercase(l);
    lemma_level_names_distinct();
}

/// Parsing ignores ASCII case: any ASCII text whose lowercase is a level's
/// name (such as `HIGH` or `High`) parses to that level, and any text whose
/// lowercase is no level's name is refused.
pub proof fn law_level_parsing_ignores_case(s: Seq<char>, l: SeverityLevel)
    ensures
        all_ascii(s) && ascii_lower(s) == level_name(l) ==> level_named(s) == Some(l),
        (forall|k: SeverityLevel| lowercase_of(s) != #[trigger] level_name(k)) ==> level_named(s) is None,
{
    lemma_level_names_distinct();
    assert(level_name(SeverityLevel::Critical) == "critical"@);
    assert(level_name(SeverityLevel::High) == "high"@);
    assert(level_name(SeverityLevel::Medium) == "medium"@);
    assert(level_name(SeverityLevel::Low) == "low"@);
}

/// The reported level is the most severe one present: at least as severe as
/// each kind of finding that occurred, and one of them.
pub proof fn law_highest_level_dominates(
    has_critical: bool,
    has_high: bool,
    has_medium: bool,
    has_event_issues: bool,
    has_timeouts: bool,
)
    ensures
        ({
            let h = highest_level(has_critical, has_high, has_medium, has_event_issues, Seq::empty(), has_timeouts);
            &&& (h is None <==> !(has_critical || has_high || has_medium || has_event_issues || has_timeouts))
            &&& has_critical ==> h == Some(SeverityLevel::Critical)
            &&& !has_critical && has_high ==> h == Some(SeverityLevel::High)
            &&& !has_critical && !has_high && has_medium ==> h == Some(SeverityLevel::Medium)
            &&& !has_critical && !has_high && !has_medium && (has_event_issues || has_timeouts) ==> h
                == Some(SeverityLevel::Low)
        }),
{
}

} // verus!
