//! What every analysis rule reports: violations with a severity, a
//! message, a location and an optional suggestion.
use vstd::prelude::*;

verus! {

/// How serious a rule violation is.
#[derive(Clone, Copy, Debug, PartialEq, Eq, Structural)]
pub enum Severity {
    Error,
    Warning,
    Info,
}

/// One finding of a rule.
#[derive(Clone, Debug)]
pub struct RuleViolation {
    /// Name of the rule that reported it.
    pub rule_name: String,
    pub severity: Severity,
    pub message: String,
    /// Where it was found, such as `line 12`.
    pub location: String,
    /// How to resolve it, where the rule knows.
    pub suggestion: Option<String>,
}

/// A violation as plain values.
pub struct ViolationView {
    pub rule_name: Seq<char>,
    pub severity: Severity,
    pub message: Seq<char>,
    pub location: Seq<char>,
    pub suggestion: Option<Seq<char>>,
}

impl View for RuleViolation {
    type V = ViolationView;

    open spec fn view(&self) -> ViolationView {
        ViolationView {
            rule_name: self.rule_name@,
            severity: self.severity,
            message: self.message@,
            location: self.location@,
            suggestion: match self.suggestion {
                Some(s) => Some(s@),
                None => None,
            },
        }
    }
}

/// The plain values of a list of violations.
pub open spec fn violation_views(v: Seq<RuleViolation>) -> Seq<ViolationView> {
    v.map_values(|x: RuleViolation| x@)
}

impl RuleViolation {
    /// A violation without a suggestion.
    pub fn new(rule_name: &str, severity: Severity, message: String, location: String) -> (r: Self)
        ensures
            r@ == (ViolationView {
                rule_name: rule_name@,
                severity,
                message: message@,
                location: location@,
                suggestion: None,
            }),
    {
        RuleViolation {
            rule_name: String::from_str(rule_name),
            severity,
            message,
            location,
            suggestion: None,
        }
    }

    /// The same violation with `suggestion` attached.
    pub fn with_suggestion(self, suggestion: String) -> (r: Self)
        ensures
            r@ == (ViolationView { suggestion: Some(suggestion@), ..self@ }),
    {
        RuleViolation { suggestion: Some(suggestion), ..self }
    }
}

/// A proposed source edit.
#[derive(Clone, Debug)]
pub struct Patch {
    /// Where the edit applies, such as `line 12`.
    pub location: String,
    /// The text to put there.
    pub replacement: String,
    /// What the edit does.
    pub description: String,
}

/// An analysis pass over Rust source text.
pub trait Rule {
    /// Stable identifier of the rule.
    fn name(&self) -> &str;

    /// What the rule looks for.
    fn description(&self) -> &str;

    /// The violations found in the source text `source`.
    fn check(&self, source: &str) -> Vec<RuleViolation>;

    /// Source edits that resolve the violations found in `source`.
    fn fix(&self, source: &str) -> Vec<Patch>;
}

} // verus!
