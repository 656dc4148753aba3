//! Custom rules defined in YAML: each names a matcher for function calls,
//! method calls, storage operations or a regular expression over lines.
use vstd::prelude::*;
use crate::pattern::{matches_pattern, pattern_matches};
use crate::rules::{Patch, Rule, RuleViolation, Severity, ViolationView, violation_views};
use crate::syntax::{Expression, ImplFn, Statement, parse_source, parsed_impl_fns};
use crate::text::{
    lemma_concat_contains, chars_of, contains_str, decimal, seq_contains, split_lines, string_of, text_lines,
    text_with_number, concat3,
};
use crate::soroban_v21::str_eq;
use vstd::std_specs::convert::FromSpecImpl;

verus! {

/// YAML-based custom rule definition.
pub struct YamlCustomRule {
    /// Rule identifier
    pub id: String,
    /// Human-readable name
    pub name: String,
    /// Description
    pub description: String,
    /// Severity level
    pub severity: YamlSeverity,
    /// AST matcher configuration
    pub matcher: AstMatcher,
}

/// Severity as written in YAML (`error`, `warning`, `info`).
#[derive(Clone, Copy, Debug, PartialEq, Eq, Structural)]
pub enum YamlSeverity {
    Error,
    Warning,
    Info,
}

/// The rule severity that a YAML severity stands for.
pub open spec fn severity_of(s: YamlSeverity) -> Severity {
    match s {
        YamlSeverity::Error => Severity::Error,
        YamlSeverity::Warning => Severity::Warning,
        YamlSeverity::Info => Severity::Info,
    }
}

impl From<YamlSeverity> for Severity {
    fn from(s: YamlSeverity) -> (r: Self) {
        match s {
            YamlSeverity::Error => Severity::Error,
            YamlSeverity::Warning => Severity::Warning,
            YamlSeverity::Info => Severity::Info,
        }
    }
}

impl FromSpecImpl<YamlSeverity> for Severity {
    open spec fn obeys_from_spec() -> bool {
        true
    }

    open spec fn from_spec(v: YamlSeverity) -> Severity {
        severity_of(v)
    }
}

/// AST matcher configuration
pub enum AstMatcher {
    /// Match function calls by name
    FunctionCall {
        /// Function name pattern (supports wildcards)
        name: String,
        /// Optional: arguments a call must carry; each is a pattern (with
        /// the same wildcards) that some argument's token text must match
        args: Vec<String>,
    },
    /// Match method calls
    MethodCall {
        /// Method name pattern
        method: String,
        /// Optional: receiver type pattern
        receiver: Option<String>,
    },
    /// Match storage operations
    StorageOperation {
        /// Operation type: set, get, remove, etc.
        operation: String,
        /// Optional: key pattern
        key_pattern: Option<String>,
    },
    /// Match by regex pattern (fallback)
    Regex {
        /// Regex pattern
        pattern: String,
    },
}

/// What a tree matcher looks for, as plain values.
pub enum Probe {
    /// Calls of a function whose name matches the pattern and whose
    /// arguments match each required pattern.
    Function { name_pattern: Seq<char>, required: Seq<String> },
    /// Method calls whose name, and receiver text where a pattern is given,
    /// match.
    Method { method_pattern: Seq<char>, receiver_pattern: Option<Seq<char>> },
    /// Calls of the storage operation whose call text mentions `storage`,
    /// with an argument matching the key pattern where one is given.
    Storage { operation: Seq<char>, key_pattern: Option<Seq<char>> },
}

/// The view of an optional string.
pub open spec fn opt_view(o: Option<String>) -> Option<Seq<char>> {
    match o {
        Some(s) => Some(s@),
        None => None,
    }
}

/// Some text of `texts` matches `pattern`.
pub open spec fn text_present(texts: Seq<String>, pattern: Seq<char>) -> bool {
    exists|i: int| 0 <= i < texts.len() && pattern_matches(#[trigger] texts[i]@, pattern)
}

/// Every pattern of `required` matches some text of `texts`.
pub open spec fn all_present(texts: Seq<String>, required: Seq<String>) -> bool {
    forall|j: int| 0 <= j < required.len() ==> text_present(texts, #[trigger] required[j]@)
}

/// What `e` itself yields for the probe: the text after `description: ` in
/// the message, and the line.
pub open spec fn own_hits(e: Expression, q: Probe) -> Seq<(Seq<char>, usize)> {
    match q {
        Probe::Function { name_pattern, required } => match e {
            Expression::Call { func, arg_texts, line, .. } => match *func {
                Expression::Path { segments } => if segments.len() > 0 && pattern_matches(
                    segments@.last()@,
                    name_pattern,
                ) && all_present(arg_texts@, required) {
                    seq![(segments@.last()@, line)]
                } else {
                    Seq::empty()
                },
                _ => Seq::empty(),
            },
            _ => Seq::empty(),
        },
        Probe::Method { method_pattern, receiver_pattern } => match e {
            Expression::MethodCall { method, receiver_text, line, .. } => {
                let receiver_ok = match receiver_pattern {
                    Some(p) => pattern_matches(receiver_text@, p),
                    None => true,
                };
                if pattern_matches(method@, method_pattern) && receiver_ok {
                    seq![(method@, line)]
                } else {
                    Seq::empty()
                }
            },
            _ => Seq::empty(),
        },
        Probe::Storage { operation, key_pattern } => match e {
            Expression::MethodCall { method, call_text, arg_texts, line, .. } => {
                let key_ok = match key_pattern {
                    Some(p) => exists|i: int|
                        0 <= i < arg_texts.len() && pattern_matches(#[trigger] arg_texts@[i]@, p),
                    None => true,
                };
                if seq_contains(call_text@, "storage"@) && method@ == operation && key_ok {
                    seq![("storage."@ + method@, line)]
                } else {
                    Seq::empty()
                }
            },
            _ => Seq::empty(),
        },
    }
}

/// The hits of the probe in `e` and the expressions it visits, in order.
/// Function probes descend into call arguments; method and storage probes
/// into method-call receivers and arguments.
pub open spec fn expr_hits(e: Expression, q: Probe) -> Seq<(Seq<char>, usize)>
    decreases e,
{
    match e {
        Expression::Call { args, .. } => own_hits(e, q) + if q is Function {
            exprs_hits(args@, q)
        } else {
            Seq::empty()
        },
        Expression::MethodCall { receiver, args, .. } => own_hits(e, q) + if q is Function {
            Seq::empty()
        } else {
            expr_hits(*receiver, q) + exprs_hits(args@, q)
        },
        Expression::Block { stmts } => stmts_hits(stmts@, q),
        Expression::If { cond, then_branch, else_branch } => {
            let tail = match else_branch {
                Some(x) => expr_hits(*x, q),
                None => Seq::empty(),
            };
            expr_hits(*cond, q) + stmts_hits(then_branch@, q) + tail
        },
        Expression::Match { scrutinee, arms } => expr_hits(*scrutinee, q) + exprs_hits(arms@, q),
        _ => Seq::empty(),
    }
}

/// The hits in a list of expressions.
pub open spec fn exprs_hits(s: Seq<Expression>, q: Probe) -> Seq<(Seq<char>, usize)>
    decreases s,
{
    if s.len() == 0 {
        Seq::empty()
    } else {
        exprs_hits(s.drop_last(), q) + expr_hits(s.last(), q)
    }
}

/// The hits in a statement (an expression statement or a `let` initialiser).
pub open spec fn stmt_hits(st: Statement, q: Probe) -> Seq<(Seq<char>, usize)>
    decreases st,
{
    match st {
        Statement::Expression { expr, .. } => expr_hits(expr, q),
        Statement::Local { init: Some(x) } => expr_hits(x, q),
        _ => Seq::empty(),
    }
}

/// The hits in a list of statements.
pub open spec fn stmts_hits(s: Seq<Statement>, q: Probe) -> Seq<(Seq<char>, usize)>
    decreases s,
{
    if s.len() == 0 {
        Seq::empty()
    } else {
        stmts_hits(s.drop_last(), q) + stmt_hits(s.last(), q)
    }
}

/// The hits in the bodies of a list of functions.
pub open spec fn functions_hits(fs: Seq<ImplFn>, q: Probe) -> Seq<(Seq<char>, usize)>
    decreases fs.len(),
{
    if fs.len() == 0 {
        Seq::empty()
    } else {
        functions_hits(fs.drop_last(), q) + stmts_hits(fs.last().body@, q)
    }
}

/// The violation a hit of the rule yields.
pub open spec fn hit_violation(rule: YamlCustomRule, hit: (Seq<char>, usize)) -> ViolationView {
    ViolationView {
        rule_name: rule.id@,
        severity: severity_of(rule.severity),
        message: rule.description@ + ": "@ + hit.0,
        location: "line "@ + decimal(hit.1 as nat),
        suggestion: None,
    }
}

/// The violations a list of hits yields.
pub open spec fn hit_violations(rule: YamlCustomRule, hits: Seq<(Seq<char>, usize)>) -> Seq<
    ViolationView,
> {
    hits.map_values(|h: (Seq<char>, usize)| hit_violation(rule, h))
}

proof fn lemma_hit_violations_concat(
    rule: YamlCustomRule,
    a: Seq<(Seq<char>, usize)>,
    b: Seq<(Seq<char>, usize)>,
)
    ensures
        hit_violations(rule, a + b) == hit_violations(rule, a) + hit_violations(rule, b),
{
    assert(hit_violations(rule, a + b) =~= hit_violations(rule, a) + hit_violations(rule, b));
}

proof fn lemma_take_full<A>(s: Seq<A>)
    ensures
        s.take(s.len() as int) == s,
{
    assert(s.take(s.len() as int) =~= s);
}

/// The severity of a rule's violations.
fn rule_severity(rule: &YamlCustomRule) -> (r: Severity)
    ensures
        r == severity_of(rule.severity),
{
    Severity::from(rule.severity)
}

/// Appends the violation for a hit.
fn push_hit(violations: &mut Vec<RuleViolation>, rule: &YamlCustomRule, text: &str, line: usize)
    ensures
        violation_views(final(violations)@) == violation_views(old(violations)@).push(
            hit_violation(*rule, (text@, line)),
        ),
{
    let message = concat3(rule.description.as_str(), ": ", text);
    let v = RuleViolation::new(
        rule.id.as_str(),
        rule_severity(rule),
        message,
        text_with_number("line ", line),
    );
    let ghost before = violations@;
    violations.push(v);
    assert(violation_views(violations@) =~= violation_views(before).push(v@));
}

/// The probe of a function-call matcher.
pub open spec fn function_probe(name_pattern: Seq<char>, required: Seq<String>) -> Probe {
    Probe::Function { name_pattern, required }
}

/// Visitor that reports calls of functions whose name matches a pattern.
struct FunctionCallVisitor<'a> {
    name_pattern: &'a str,
    required_args: &'a Vec<String>,
}

impl<'a> FunctionCallVisitor<'a> {
    fn new(name_pattern: &'a str, required_args: &'a Vec<String>) -> (r: Self)
        ensures
            r.name_pattern@ == name_pattern@,
            r.required_args@ == required_args@,
    {
        Self { name_pattern, required_args }
    }

    fn check_block(&self, block: &Vec<Statement>, violations: &mut Vec<RuleViolation>, rule: &YamlCustomRule)
        ensures
            violation_views(final(violations)@) == violation_views(old(violations)@) + hit_violations(
                *rule,
                stmts_hits(block@, function_probe(self.name_pattern@, self.required_args@)),
            ),
        decreases block,
    {
        let ghost q = function_probe(self.name_pattern@, self.required_args@);
        let ghost start = violation_views(violations@);
        let mut i: usize = 0;
        while i < block.len()
            invariant
                i <= block.len(),
                q == function_probe(self.name_pattern@, self.required_args@),
                violation_views(violations@) == start + hit_violations(
                    *rule,
                    stmts_hits(block@.take(i as int), q),
                ),
            decreases block.len() - i,
        {
            assert(block@.take(i + 1).drop_last() =~= block@.take(i as int));
            assert(block@.take(i + 1).last() == block@[i as int]);
            proof {
                lemma_hit_violations_concat(
                    *rule,
                    stmts_hits(block@.take(i as int), q),
                    stmt_hits(block@[i as int], q),
                );
            }
            let ghost before = violation_views(violations@);
            match &block[i] {
                Statement::Expression { expr, .. } => self.check_expr(expr, violations, rule),
                Statement::Local { init: Some(x) } => self.check_expr(x, violations, rule),
                _ => {
                    assert(hit_violations(*rule, Seq::empty()) =~= Seq::empty());
                },
            }
            assert(violation_views(violations@) =~= before + hit_violations(*rule, stmt_hits(block@[i as int], q)));
            assert(violation_views(violations@) =~= start + hit_violations(
                *rule,
                stmts_hits(block@.take(i + 1), q),
            ));
            i = i + 1;
        }
        proof {
            lemma_take_full(block@);
        }
    }

    fn check_exprs(&self, exprs: &Vec<Expression>, violations: &mut Vec<RuleViolation>, rule: &YamlCustomRule)
        ensures
            violation_views(final(violations)@) == violation_views(old(violations)@) + hit_violations(
                *rule,
                exprs_hits(exprs@, function_probe(self.name_pattern@, self.required_args@)),
            ),
        decreases exprs,
    {
        let ghost q = function_probe(self.name_pattern@, self.required_args@);
        let ghost start = violation_views(violations@);
        let mut i: usize = 0;
        while i < exprs.len()
            invariant
                i <= exprs.len(),
                q == function_probe(self.name_pattern@, self.required_args@),
                violation_views(violations@) == start + hit_violations(
                    *rule,
                    exprs_hits(exprs@.take(i as int), q),
                ),
            decreases exprs.len() - i,
        {
            assert(exprs@.take(i + 1).drop_last() =~= exprs@.take(i as int));
            assert(exprs@.take(i + 1).last() == exprs@[i as int]);
            proof {
                lemma_hit_violations_concat(
                    *rule,
                    exprs_hits(exprs@.take(i as int), q),
                    expr_hits(exprs@[i as int], q),
                );
            }
            self.check_expr(&exprs[i], violations, rule);
            assert(violation_views(violations@) =~= start + hit_violations(
                *rule,
                exprs_hits(exprs@.take(i + 1), q),
            ));
            i = i + 1;
        }
        proof {
            lemma_take_full(exprs@);
        }
    }

    fn check_expr(&self, expr: &Expression, violations: &mut Vec<RuleViolation>, rule: &YamlCustomRule)
        ensures
            violation_views(final(violations)@) == violation_views(old(violations)@) + hit_violations(
                *rule,
                expr_hits(*expr, function_probe(self.name_pattern@, self.required_args@)),
            ),
        decreases expr,
    {
        let ghost q = function_probe(self.name_pattern@, self.required_args@);
        let ghost start = violation_views(violations@);
        assert(hit_violations(*rule, Seq::empty()) =~= Seq::empty());
        match expr {
            Expression::Call { func, args, arg_texts, line } => {
                match &**func {
                    Expression::Path { segments } => {
                        if segments.len() > 0 {
                            let fn_name = segments[segments.len() - 1].as_str();
                            if matches_pattern(fn_name, self.name_pattern) && all_args_present(
                                arg_texts,
                                self.required_args,
                            ) {
                                push_hit(violations, rule, fn_name, *line);
                            }
                        }
                    },
                    _ => {},
                }
                assert(violation_views(violations@) =~= start + hit_violations(*rule, own_hits(*expr, q)));
                proof {
                    lemma_hit_violations_concat(*rule, own_hits(*expr, q), exprs_hits(args@, q));
                }
                self.check_exprs(args, violations, rule);
            },
            Expression::Block { stmts } => self.check_block(stmts, violations, rule),
            Expression::If { cond, then_branch, else_branch } => {
                self.check_expr(cond, violations, rule);
                self.check_block(then_branch, violations, rule);
                match else_branch {
                    Some(x) => self.check_expr(x, violations, rule),
                    None => {},
                }
                proof {
                    let tail = match else_branch {
                        Some(x) => expr_hits(**x, q),
                        None => Seq::empty(),
                    };
                    lemma_hit_violations_concat(*rule, expr_hits(**cond, q), stmts_hits(then_branch@, q));
                    lemma_hit_violations_concat(
                        *rule,
                        expr_hits(**cond, q) + stmts_hits(then_branch@, q),
                        tail,
                    );
                    assert(violation_views(violations@) =~= start + hit_violations(
                        *rule,
                        expr_hits(*expr, q),
                    ));
                }
            },
            Expression::Match { scrutinee, arms } => {
                proof {
                    lemma_hit_violations_concat(*rule, expr_hits(**scrutinee, q), exprs_hits(arms@, q));
                }
                self.check_expr(scrutinee, violations, rule);
                self.check_exprs(arms, violations, rule);
            },
            Expression::MethodCall { .. } => {
                assert(own_hits(*expr, q) =~= Seq::empty());
                assert(expr_hits(*expr, q) =~= Seq::empty());
                assert(violation_views(violations@) =~= start + Seq::empty());
            },
            _ => {
                assert(violation_views(violations@) =~= start + Seq::empty());
            },
        }
    }
}

/// The view of an optional string slice.
pub open spec fn opt_str_view(o: Option<&str>) -> Option<Seq<char>> {
    match o {
        Some(s) => Some(s@),
        None => None,
    }
}

/// The probe of a method-call matcher.
pub open spec fn method_probe(method_pattern: Seq<char>, receiver_pattern: Option<Seq<char>>) -> Probe {
    Probe::Method { method_pattern, receiver_pattern }
}

/// The probe of a storage-operation matcher.
pub open spec fn storage_probe(operation: Seq<char>, key_pattern: Option<Seq<char>>) -> Probe {
    Probe::Storage { operation, key_pattern }
}

/// Whether some text of `texts` matches `pattern`.
fn any_text_matches(texts: &Vec<String>, pattern: &str) -> (r: bool)
    ensures
        r == text_present(texts@, pattern@),
{
    let mut i: usize = 0;
    while i < texts.len()
        invariant
            i <= texts.len(),
            forall|j: int| 0 <= j < i ==> !pattern_matches(#[trigger] texts@[j]@, pattern@),
        decreases texts.len() - i,
    {
        if matches_pattern(texts[i].as_str(), pattern) {
            return true;
        }
        i = i + 1;
    }
    false
}

/// Whether every pattern of `required` matches some text of `texts`.
fn all_args_present(texts: &Vec<String>, required: &Vec<String>) -> (r: bool)
    ensures
        r == all_present(texts@, required@),
{
    let mut j: usize = 0;
    while j < required.len()
        invariant
            j <= required.len(),
            forall|k: int| 0 <= k < j ==> text_present(texts@, #[trigger] required@[k]@),
        decreases required.len() - j,
    {
        if !any_text_matches(texts, required[j].as_str()) {
            assert(!text_present(texts@, required@[j as int]@));
            return false;
        }
        j = j + 1;
    }
    true
}

/// Appends the violations of a method-call matcher found in a block.
fn check_block_for_method_calls(
    block: &Vec<Statement>,
    method_pattern: &str,
    receiver_pattern: Option<&str>,
    violations: &mut Vec<RuleViolation>,
    rule: &YamlCustomRule,
)
    ensures
        violation_views(final(violations)@) == violation_views(old(violations)@) + hit_violations(
            *rule,
            stmts_hits(block@, method_probe(method_pattern@, opt_str_view(receiver_pattern))),
        ),
    decreases block,
{
    let ghost q = method_probe(method_pattern@, opt_str_view(receiver_pattern));
    let ghost start = violation_views(violations@);
    let mut i: usize = 0;
    while i < block.len()
        invariant
            i <= block.len(),
            q == method_probe(method_pattern@, opt_str_view(receiver_pattern)),
            violation_views(violations@) == start + hit_violations(
                *rule,
                stmts_hits(block@.take(i as int), q),
            ),
        decreases block.len() - i,
    {
        assert(block@.take(i + 1).drop_last() =~= block@.take(i as int));
        assert(block@.take(i + 1).last() == block@[i as int]);
        proof {
            lemma_hit_violations_concat(
                *rule,
                stmts_hits(block@.take(i as int), q),
                stmt_hits(block@[i as int], q),
            );
        }
        let ghost before = violation_views(violations@);
        match &block[i] {
            Statement::Expression { expr, .. } => check_expr_for_method_calls(expr, method_pattern, receiver_pattern, violations, rule),
            Statement::Local { init: Some(x) } => check_expr_for_method_calls(x, method_pattern, receiver_pattern, violations, rule),
            _ => {
                assert(hit_violations(*rule, Seq::empty()) =~= Seq::empty());
            },
        }
        assert(violation_views(violations@) =~= before + hit_violations(*rule, stmt_hits(block@[i as int], q)));
        assert(violation_views(violations@) =~= start + hit_violations(
            *rule,
            stmts_hits(block@.take(i + 1), q),
        ));
        i = i + 1;
    }
    proof {
        lemma_take_full(block@);
    }
}

/// Appends the violations found in a list of expressions.
fn check_exprs_for_method_calls(
    exprs: &Vec<Expression>,
    method_pattern: &str,
    receiver_pattern: Option<&str>,
    violations: &mut Vec<RuleViolation>,
    rule: &YamlCustomRule,
)
    ensures
        violation_views(final(violations)@) == violation_views(old(violations)@) + hit_violations(
            *rule,
            exprs_hits(exprs@, method_probe(method_pattern@, opt_str_view(receiver_pattern))),
        ),
    decreases exprs,
{
    let ghost q = method_probe(method_pattern@, opt_str_view(receiver_pattern));
    let ghost start = violation_views(violations@);
    let mut i: usize = 0;
    while i < exprs.len()
        invariant
            i <= exprs.len(),
            q == method_probe(method_pattern@, opt_str_view(receiver_pattern)),
            violation_views(violations@) == start + hit_violations(
                *rule,
                exprs_hits(exprs@.take(i as int), q),
            ),
        decreases exprs.len() - i,
    {
        assert(exprs@.take(i + 1).drop_last() =~= exprs@.take(i as int));
        assert(exprs@.take(i + 1).last() == exprs@[i as int]);
        proof {
            lemma_hit_violations_concat(
                *rule,
                exprs_hits(exprs@.take(i as int), q),
                expr_hits(exprs@[i as int], q),
            );
        }
        check_expr_for_method_calls(&exprs[i], method_pattern, receiver_pattern, violations, rule);
        assert(violation_views(violations@) =~= start + hit_violations(
            *rule,
            exprs_hits(exprs@.take(i + 1), q),
        ));
        i = i + 1;
    }
    proof {
        lemma_take_full(exprs@);
    }
}

/// Appends the violations of a method-call matcher found inside an expression.
fn check_expr_for_method_calls(
    expr: &Expression,
    method_pattern: &str,
    receiver_pattern: Option<&str>,
    violations: &mut Vec<RuleViolation>,
    rule: &YamlCustomRule,
)
    ensures
        violation_views(final(violations)@) == violation_views(old(violations)@) + hit_violations(
            *rule,
            expr_hits(*expr, method_probe(method_pattern@, opt_str_view(receiver_pattern))),
        ),
    decreases expr,
{
    let ghost q = method_probe(method_pattern@, opt_str_view(receiver_pattern));
    let ghost start = violation_views(violations@);
    assert(hit_violations(*rule, Seq::empty()) =~= Seq::empty());
    match expr {
        Expression::MethodCall { receiver, method, args, receiver_text, arg_texts, line, .. } => {
            let method_name = method.as_str();
            if matches_pattern(method_name, method_pattern) {
                let receiver_matches = match receiver_pattern {
                    Some(p) => matches_pattern(receiver_text.as_str(), p),
                    None => true,
                };
                if receiver_matches {
                    push_hit(violations, rule, method_name, *line);
                }
            }
            assert(violation_views(violations@) =~= start + hit_violations(*rule, own_hits(*expr, q)));
            proof {
                lemma_hit_violations_concat(*rule, expr_hits(**receiver, q), exprs_hits(args@, q));
                lemma_hit_violations_concat(
                    *rule,
                    own_hits(*expr, q),
                    expr_hits(**receiver, q) + exprs_hits(args@, q),
                );
            }
            check_expr_for_method_calls(receiver, method_pattern, receiver_pattern, violations, rule);
            check_exprs_for_method_calls(args, method_pattern, receiver_pattern, violations, rule);
            assert(violation_views(violations@) =~= start + hit_violations(*rule, expr_hits(*expr, q)));
        },
        Expression::Block { stmts } => check_block_for_method_calls(stmts, method_pattern, receiver_pattern, violations, rule),
        Expression::If { cond, then_branch, else_branch } => {
            check_expr_for_method_calls(cond, method_pattern, receiver_pattern, violations, rule);
            check_block_for_method_calls(then_branch, method_pattern, receiver_pattern, violations, rule);
            match else_branch {
                Some(x) => check_expr_for_method_calls(x, method_pattern, receiver_pattern, violations, rule),
                None => {},
            }
            proof {
                let tail = match else_branch {
                    Some(x) => expr_hits(**x, q),
                    None => Seq::empty(),
                };
                lemma_hit_violations_concat(*rule, expr_hits(**cond, q), stmts_hits(then_branch@, q));
                lemma_hit_violations_concat(
                    *rule,
                    expr_hits(**cond, q) + stmts_hits(then_branch@, q),
                    tail,
                );
                assert(violation_views(violations@) =~= start + hit_violations(
                    *rule,
                    expr_hits(*expr, q),
                ));
            }
        },
        Expression::Match { scrutinee, arms } => {
            proof {
                lemma_hit_violations_concat(*rule, expr_hits(**scrutinee, q), exprs_hits(arms@, q));
            }
            check_expr_for_method_calls(scrutinee, method_pattern, receiver_pattern, violations, rule);
            check_exprs_for_method_calls(arms, method_pattern, receiver_pattern, violations, rule);
        },
        Expression::Call { .. } => {
            assert(expr_hits(*expr, q) =~= Seq::empty());
            assert(violation_views(violations@) =~= start + Seq::empty());
        },
        _ => {
            assert(violation_views(violations@) =~= start + Seq::empty());
        },
    }
}

/// Appends the violations of a storage-operation matcher found in a block.
fn check_block_for_storage_ops(
    block: &Vec<Statement>,
    operation: &str,
    key_pattern: Option<&str>,
    violations: &mut Vec<RuleViolation>,
    rule: &YamlCustomRule,
)
    ensures
        violation_views(final(violations)@) == violation_views(old(violations)@) + hit_violations(
            *rule,
            stmts_hits(block@, storage_probe(operation@, opt_str_view(key_pattern))),
        ),
    decreases block,
{
    let ghost q = storage_probe(operation@, opt_str_view(key_pattern));
    let ghost start = violation_views(violations@);
    let mut i: usize = 0;
    while i < block.len()
        invariant
            i <= block.len(),
            q == storage_probe(operation@, opt_str_view(key_pattern)),
            violation_views(violations@) == start + hit_violations(
                *rule,
                stmts_hits(block@.take(i as int), q),
            ),
        decreases block.len() - i,
    {
        assert(block@.take(i + 1).drop_last() =~= block@.take(i as int));
        assert(block@.take(i + 1).last() == block@[i as int]);
        proof {
            lemma_hit_violations_concat(
                *rule,
                stmts_hits(block@.take(i as int), q),
                stmt_hits(block@[i as int], q),
            );
        }
        let ghost before = violation_views(violations@);
        match &block[i] {
            Statement::Expression { expr, .. } => check_expr_for_storage_ops(expr, operation, key_pattern, violations, rule),
            Statement::Local { init: Some(x) } => check_expr_for_storage_ops(x, operation, key_pattern, violations, rule),
            _ => {
                assert(hit_violations(*rule, Seq::empty()) =~= Seq::empty());
            },
        }
        assert(violation_views(violations@) =~= before + hit_violations(*rule, stmt_hits(block@[i as int], q)));
        assert(violation_views(violations@) =~= start + hit_violations(
            *rule,
            stmts_hits(block@.take(i + 1), q),
        ));
        i = i + 1;
    }
    proof {
        lemma_take_full(block@);
    }
}

/// Appends the violations found in a list of expressions.
fn check_exprs_for_storage_ops(
    exprs: &Vec<Expression>,
    operation: &str,
    key_pattern: Option<&str>,
    violations: &mut Vec<RuleViolation>,
    rule: &YamlCustomRule,
)
    ensures
        violation_views(final(violations)@) == violation_views(old(violations)@) + hit_violations(
            *rule,
            exprs_hits(exprs@, storage_probe(operation@, opt_str_view(key_pattern))),
        ),
    decreases exprs,
{
    let ghost q = storage_probe(operation@, opt_str_view(key_pattern));
    let ghost start = violation_views(violations@);
    let mut i: usize = 0;
    while i < exprs.len()
        invariant
            i <= exprs.len(),
            q == storage_probe(operation@, opt_str_view(key_pattern)),
            violation_views(violations@) == start + hit_violations(
                *rule,
                exprs_hits(exprs@.take(i as int), q),
            ),
        decreases exprs.len() - i,
    {
        assert(exprs@.take(i + 1).drop_last() =~= exprs@.take(i as int));
        assert(exprs@.take(i + 1).last() == exprs@[i as int]);
        proof {
            lemma_hit_violations_concat(
                *rule,
                exprs_hits(exprs@.take(i as int), q),
                expr_hits(exprs@[i as int], q),
            );
        }
        check_expr_for_storage_ops(&exprs[i], operation, key_pattern, violations, rule);
        assert(violation_views(violations@) =~= start + hit_violations(
            *rule,
            exprs_hits(exprs@.take(i + 1), q),
        ));
        i = i + 1;
    }
    proof {
        lemma_take_full(exprs@);
    }
}

/// Appends the violations of a storage-operation matcher found inside an expression.
fn check_expr_for_storage_ops(
    expr: &Expression,
    operation: &str,
    key_pattern: Option<&str>,
    violations: &mut Vec<RuleViolation>,
    rule: &YamlCustomRule,
)
    ensures
        violation_views(final(violations)@) == violation_views(old(violations)@) + hit_violations(
            *rule,
            expr_hits(*expr, storage_probe(operation@, opt_str_view(key_pattern))),
        ),
    decreases expr,
{
    let ghost q = storage_probe(operation@, opt_str_view(key_pattern));
    let ghost start = violation_views(violations@);
    assert(hit_violations(*rule, Seq::empty()) =~= Seq::empty());
    match expr {
        Expression::MethodCall { receiver, method, args, call_text, arg_texts, line, .. } => {
            let method_name = method.as_str();
            let rc = chars_of(call_text.as_str());
            if contains_str(&rc, "storage") && str_eq(method_name, operation) {
                let key_matches = match key_pattern {
                    Some(p) => any_text_matches(arg_texts, p),
                    None => true,
                };
                if key_matches {
                    let label = concat3("storage", ".", method_name);
                    assert(label@ == "storage."@ + method@) by {
                        reveal_strlit("storage");
                        reveal_strlit(".");
                        reveal_strlit("storage.");
                        assert("storage"@ + "."@ =~= "storage."@);
                    }
                    push_hit(violations, rule, label.as_str(), *line);
                }
            }
            assert(violation_views(violations@) =~= start + hit_violations(*rule, own_hits(*expr, q)));
            proof {
                lemma_hit_violations_concat(*rule, expr_hits(**receiver, q), exprs_hits(args@, q));
                lemma_hit_violations_concat(
                    *rule,
                    own_hits(*expr, q),
                    expr_hits(**receiver, q) + exprs_hits(args@, q),
                );
            }
            check_expr_for_storage_ops(receiver, operation, key_pattern, violations, rule);
            check_exprs_for_storage_ops(args, operation, key_pattern, violations, rule);
            assert(violation_views(violations@) =~= start + hit_violations(*rule, expr_hits(*expr, q)));
        },
        Expression::Block { stmts } => check_block_for_storage_ops(stmts, operation, key_pattern, violations, rule),
        Expression::If { cond, then_branch, else_branch } => {
            check_expr_for_storage_ops(cond, operation, key_pattern, violations, rule);
            check_block_for_storage_ops(then_branch, operation, key_pattern, violations, rule);
            match else_branch {
                Some(x) => check_expr_for_storage_ops(x, operation, key_pattern, violations, rule),
                None => {},
            }
            proof {
                let tail = match else_branch {
                    Some(x) => expr_hits(**x, q),
                    None => Seq::empty(),
                };
                lemma_hit_violations_concat(*rule, expr_hits(**cond, q), stmts_hits(then_branch@, q));
                lemma_hit_violations_concat(
                    *rule,
                    expr_hits(**cond, q) + stmts_hits(then_branch@, q),
                    tail,
                );
                assert(violation_views(violations@) =~= start + hit_violations(
                    *rule,
                    expr_hits(*expr, q),
                ));
            }
        },
        Expression::Match { scrutinee, arms } => {
            proof {
                lemma_hit_violations_concat(*rule, expr_hits(**scrutinee, q), exprs_hits(arms@, q));
            }
            check_expr_for_storage_ops(scrutinee, operation, key_pattern, violations, rule);
            check_exprs_for_storage_ops(arms, operation, key_pattern, violations, rule);
        },
        Expression::Call { .. } => {
            assert(expr_hits(*expr, q) =~= Seq::empty());
            assert(violation_views(violations@) =~= start + Seq::empty());
        },
        _ => {
            assert(violation_views(violations@) =~= start + Seq::empty());
        },
    }
}

/// Whether `regex::Regex::new` accepts the pattern: it is valid syntax and
/// the compiled regex stays within the default size limit.
pub uninterp spec fn regex_compiles(pattern: Seq<char>) -> bool;

/// Whether the regex compiled from `pattern` matches somewhere in
/// `haystack` (`regex::Regex::is_match`).
pub uninterp spec fn regex_is_match(pattern: Seq<char>, haystack: Seq<char>) -> bool;

#[verifier::external_type_specification]
#[verifier::external_body]
pub struct ExRegex(regex::Regex);

/// A regex together with the pattern it was compiled from.
pub struct CompiledRegex {
    regex: regex::Regex,
    source: Ghost<Seq<char>>,
}

impl CompiledRegex {
    /// The pattern this regex was compiled from.
    pub closed spec fn source(&self) -> Seq<char> {
        self.source@
    }
}

/// `regex::Regex::new`: `Some` exactly when the pattern compiles. The value
/// is only ever built here, so `source` is the pattern the regex came from.
#[verifier::external_body]
fn compile_regex(pattern: &str) -> (r: Option<CompiledRegex>)
    ensures
        r.is_some() == regex_compiles(pattern@),
        r matches Some(c) ==> c.source() == pattern@,
{
    match regex::Regex::new(pattern) {
        Ok(regex) => Some(CompiledRegex { regex, source: Ghost(pattern@) }),
        Err(_) => None,
    }
}

/// `regex::Regex::is_match`: whether the regex matches anywhere in
/// `haystack`; the result is named by `regex_is_match`.
#[verifier::external_body]
fn regex_matches(re: &CompiledRegex, haystack: &str) -> (r: bool)
    ensures
        r == regex_is_match(re.source(), haystack@),
{
    re.regex.is_match(haystack)
}

/// The 1-based numbers of the lines that the regex of `pattern` matches.
pub open spec fn regex_line_numbers(pattern: Seq<char>, lines: Seq<Seq<char>>) -> Seq<usize>
    decreases lines.len(),
{
    if lines.len() == 0 {
        Seq::empty()
    } else {
        let rest = regex_line_numbers(pattern, lines.drop_last());
        if regex_is_match(pattern, lines.last()) {
            rest.push(lines.len() as usize)
        } else {
            rest
        }
    }
}

/// The violation a regex rule reports for a matching line.
pub open spec fn regex_violation(rule: YamlCustomRule, line: usize) -> ViolationView {
    ViolationView {
        rule_name: rule.id@,
        severity: severity_of(rule.severity),
        message: rule.description@,
        location: "line "@ + decimal(line as nat),
        suggestion: None,
    }
}

/// The violations of a regex rule over a source text.
pub open spec fn regex_violations(rule: YamlCustomRule, pattern: Seq<char>, text: Seq<char>) -> Seq<
    ViolationView,
> {
    if regex_compiles(pattern) {
        regex_line_numbers(pattern, text_lines(text)).map_values(|n: usize| regex_violation(rule, n))
    } else {
        Seq::empty()
    }
}

fn check_regex_pattern(source: &str, pattern: &str, rule: &YamlCustomRule) -> (r: Vec<RuleViolation>)
    ensures
        violation_views(r@) == regex_violations(*rule, pattern@, source@),
{
    let re = match compile_regex(pattern) {
        Some(r) => r,
        None => {
            let v: Vec<RuleViolation> = Vec::new();
            assert(violation_views(v@) =~= Seq::empty());
            return v;
        },
    };
    let text = chars_of(source);
    let lines = split_lines(&text);
    let ghost all = text_lines(source@);
    let mut violations: Vec<RuleViolation> = Vec::new();
    let mut i: usize = 0;
    while i < lines.len()
        invariant
            i <= lines.len() == all.len(),
            all == text_lines(source@),
            re.source() == pattern@,
            forall|k: int| 0 <= k < lines@.len() ==> #[trigger] lines@[k]@ == all[k],
            violation_views(violations@) == regex_line_numbers(pattern@, all.take(i as int)).map_values(
                |n: usize| regex_violation(*rule, n),
            ),
        decreases lines.len() - i,
    {
        let line = string_of(&lines[i]);
        assert(all.take(i + 1).drop_last() =~= all.take(i as int));
        assert(all.take(i + 1).last() == all[i as int]);
        let ghost before = violations@;
        if regex_matches(&re, line.as_str()) {
            let v = RuleViolation::new(
                rule.id.as_str(),
                rule_severity(rule),
                rule.description.clone(),
                text_with_number("line ", i + 1),
            );
            violations.push(v);
            assert(violation_views(violations@) =~= violation_views(before).push(v@));
        }
        assert(violation_views(violations@) =~= regex_line_numbers(pattern@, all.take(i + 1)).map_values(
            |n: usize| regex_violation(*rule, n),
        ));
        i = i + 1;
    }
    proof {
        lemma_take_full(all);
    }
    violations
}

/// The violations of a function-call matcher over the functions of a
/// file's `impl` blocks.
pub fn function_call_violations(
    fs: &Vec<ImplFn>,
    name_pattern: &str,
    required_args: &Vec<String>,
    rule: &YamlCustomRule,
) -> (r: Vec<RuleViolation>)
    ensures
        violation_views(r@) == hit_violations(
            *rule,
            functions_hits(fs@, function_probe(name_pattern@, required_args@)),
        ),
{
    let ghost q = function_probe(name_pattern@, required_args@);
    let mut violations: Vec<RuleViolation> = Vec::new();
    assert(hit_violations(*rule, Seq::empty()) =~= Seq::empty());
    assert(violation_views(violations@) =~= Seq::empty());
    let mut i: usize = 0;
    while i < fs.len()
        invariant
            i <= fs.len(),
            q == function_probe(name_pattern@, required_args@),
            violation_views(violations@) == hit_violations(*rule, functions_hits(fs@.take(i as int), q)),
        decreases fs.len() - i,
    {
        assert(fs@.take(i + 1).drop_last() =~= fs@.take(i as int));
        assert(fs@.take(i + 1).last() == fs@[i as int]);
        proof {
            lemma_hit_violations_concat(
                *rule,
                functions_hits(fs@.take(i as int), q),
                stmts_hits(fs@[i as int].body@, q),
            );
        }
        let visitor = FunctionCallVisitor::new(name_pattern, required_args);
        visitor.check_block(&fs[i].body, &mut violations, rule);
        i = i + 1;
    }
    proof {
        lemma_take_full(fs@);
    }
    violations
}

/// The violations of a function-call matcher in a source text.
fn check_function_calls(
    source: &str,
    name_pattern: &str,
    required_args: &Vec<String>,
    rule: &YamlCustomRule,
) -> (r: Vec<RuleViolation>)
    ensures
        violation_views(r@) == hit_violations(*rule, functions_hits(parsed_impl_fns(source@), function_probe(name_pattern@, required_args@))),
{
    let file = parse_source(source);
    function_call_violations(&file.functions, name_pattern, required_args, rule)
}

/// The violations of a method-call matcher over the functions of a file's
/// `impl` blocks.
pub fn method_call_violations(
    fs: &Vec<ImplFn>,
    method_pattern: &str,
    receiver_pattern: Option<&str>,
    rule: &YamlCustomRule,
) -> (r: Vec<RuleViolation>)
    ensures
        violation_views(r@) == hit_violations(
            *rule,
            functions_hits(fs@, method_probe(method_pattern@, opt_str_view(receiver_pattern))),
        ),
{
    let ghost q = method_probe(method_pattern@, opt_str_view(receiver_pattern));
    let mut violations: Vec<RuleViolation> = Vec::new();
    assert(hit_violations(*rule, Seq::empty()) =~= Seq::empty());
    assert(violation_views(violations@) =~= Seq::empty());
    let mut i: usize = 0;
    while i < fs.len()
        invariant
            i <= fs.len(),
            q == method_probe(method_pattern@, opt_str_view(receiver_pattern)),
            violation_views(violations@) == hit_violations(*rule, functions_hits(fs@.take(i as int), q)),
        decreases fs.len() - i,
    {
        assert(fs@.take(i + 1).drop_last() =~= fs@.take(i as int));
        assert(fs@.take(i + 1).last() == fs@[i as int]);
        proof {
            lemma_hit_violations_concat(
                *rule,
                functions_hits(fs@.take(i as int), q),
                stmts_hits(fs@[i as int].body@, q),
            );
        }
        check_block_for_method_calls(&fs[i].body, method_pattern, receiver_pattern, &mut violations, rule);
        i = i + 1;
    }
    proof {
        lemma_take_full(fs@);
    }
    violations
}

/// The violations of a method-call matcher in a source text.
fn check_method_calls(
    source: &str,
    method_pattern: &str,
    receiver_pattern: Option<&str>,
    rule: &YamlCustomRule,
) -> (r: Vec<RuleViolation>)
    ensures
        violation_views(r@) == hit_violations(*rule, functions_hits(parsed_impl_fns(source@), method_probe(method_pattern@, opt_str_view(receiver_pattern)))),
{
    let file = parse_source(source);
    method_call_violations(&file.functions, method_pattern, receiver_pattern, rule)
}

/// The violations of a storage-operation matcher over the functions of a
/// file's `impl` blocks.
pub fn storage_operation_violations(
    fs: &Vec<ImplFn>,
    operation: &str,
    key_pattern: Option<&str>,
    rule: &YamlCustomRule,
) -> (r: Vec<RuleViolation>)
    ensures
        violation_views(r@) == hit_violations(
            *rule,
            functions_hits(fs@, storage_probe(operation@, opt_str_view(key_pattern))),
        ),
{
    let ghost q = storage_probe(operation@, opt_str_view(key_pattern));
    let mut violations: Vec<RuleViolation> = Vec::new();
    assert(hit_violations(*rule, Seq::empty()) =~= Seq::empty());
    assert(violation_views(violations@) =~= Seq::empty());
    let mut i: usize = 0;
    while i < fs.len()
        invariant
            i <= fs.len(),
            q == storage_probe(operation@, opt_str_view(key_pattern)),
            violation_views(violations@) == hit_violations(*rule, functions_hits(fs@.take(i as int), q)),
        decreases fs.len() - i,
    {
        assert(fs@.take(i + 1).drop_last() =~= fs@.take(i as int));
        assert(fs@.take(i + 1).last() == fs@[i as int]);
        proof {
            lemma_hit_violations_concat(
                *rule,
                functions_hits(fs@.take(i as int), q),
                stmts_hits(fs@[i as int].body@, q),
            );
        }
        check_block_for_storage_ops(&fs[i].body, operation, key_pattern, &mut violations, rule);
        i = i + 1;
    }
    proof {
        lemma_take_full(fs@);
    }
    violations
}

/// The violations of a storage-operation matcher in a source text.
fn check_storage_operations(
    source: &str,
    operation: &str,
    key_pattern: Option<&str>,
    rule: &YamlCustomRule,
) -> (r: Vec<RuleViolation>)
    ensures
        violation_views(r@) == hit_violations(*rule, functions_hits(parsed_impl_fns(source@), storage_probe(operation@, opt_str_view(key_pattern)))),
{
    let file = parse_source(source);
    storage_operation_violations(&file.functions, operation, key_pattern, rule)
}

/// The violations a YAML rule finds in a source file.
pub open spec fn yaml_rule_violations(rule: YamlCustomRule, source: Seq<char>) -> Seq<ViolationView> {
    match rule.matcher {
        AstMatcher::FunctionCall { name, args } => hit_violations(
            rule,
            functions_hits(parsed_impl_fns(source), function_probe(name@, args@)),
        ),
        AstMatcher::MethodCall { method, receiver } => hit_violations(
            rule,
            functions_hits(parsed_impl_fns(source), method_probe(method@, opt_view(receiver))),
        ),
        AstMatcher::StorageOperation { operation, key_pattern } => hit_violations(
            rule,
            functions_hits(parsed_impl_fns(source), storage_probe(operation@, opt_view(key_pattern))),
        ),
        AstMatcher::Regex { pattern } => regex_violations(rule, pattern@, source),
    }
}

/// The borrowed form of an optional string.
fn opt_as_str(o: &Option<String>) -> (r: Option<&str>)
    ensures
        opt_str_view(r) == opt_view(*o),
{
    match o {
        Some(s) => Some(s.as_str()),
        None => None,
    }
}

/// Wrapper that implements Rule trait for YAML-defined rules
pub struct YamlRuleWrapper {
    rule: YamlCustomRule,
}

impl YamlRuleWrapper {
    /// The rule this wrapper applies.
    pub closed spec fn rule(&self) -> YamlCustomRule {
        self.rule
    }

    pub fn new(rule: YamlCustomRule) -> (r: Self)
        ensures
            r.rule() == rule,
    {
        Self { rule }
    }
}

impl Rule for YamlRuleWrapper {
    fn name(&self) -> (r: &str)
        ensures
            r@ == self.rule().id@,
    {
        self.rule.id.as_str()
    }

    fn description(&self) -> (r: &str)
        ensures
            r@ == self.rule().description@,
    {
        self.rule.description.as_str()
    }

    fn check(&self, source: &str) -> (r: Vec<RuleViolation>)
        ensures
            violation_views(r@) == yaml_rule_violations(self.rule(), source@),
    {
        match &self.rule.matcher {
            AstMatcher::FunctionCall { name, args } => check_function_calls(source, name.as_str(), args, &self.rule),
            AstMatcher::MethodCall { method, receiver } => {
                check_method_calls(source, method.as_str(), opt_as_str(receiver), &self.rule)
            },
            AstMatcher::StorageOperation { operation, key_pattern } => {
                check_storage_operations(source, operation.as_str(), opt_as_str(key_pattern), &self.rule)
            },
            AstMatcher::Regex { pattern } => check_regex_pattern(
                source,
                pattern.as_str(),
                &self.rule,
            ),
        }
    }

    fn fix(&self, _source: &str) -> (r: Vec<Patch>)
        ensures
            r@.len() == 0,
    {
        Vec::new()
    }
}

/// A hit in one expression of a list is a hit of the list.
proof fn lemma_exprs_hits_contain(s: Seq<Expression>, q: Probe, k: int, h: (Seq<char>, usize))
    requires
        0 <= k < s.len(),
        expr_hits(s[k], q).contains(h),
    ensures
        exprs_hits(s, q).contains(h),
    decreases s.len(),
{
    if k < s.len() - 1 {
        lemma_exprs_hits_contain(s.drop_last(), q, k, h);
    }
    lemma_concat_contains(exprs_hits(s.drop_last(), q), expr_hits(s.last(), q), h);
}

/// A hit in one statement of a list is a hit of the list.
proof fn lemma_stmts_hits_contain(s: Seq<Statement>, q: Probe, k: int, h: (Seq<char>, usize))
    requires
        0 <= k < s.len(),
        stmt_hits(s[k], q).contains(h),
    ensures
        stmts_hits(s, q).contains(h),
    decreases s.len(),
{
    if k < s.len() - 1 {
        lemma_stmts_hits_contain(s.drop_last(), q, k, h);
    }
    lemma_concat_contains(stmts_hits(s.drop_last(), q), stmt_hits(s.last(), q), h);
}

/// A hit in one function's body is a hit of the list of functions.
proof fn lemma_functions_hits_contain(fs: Seq<ImplFn>, q: Probe, j: int, h: (Seq<char>, usize))
    requires
        0 <= j < fs.len(),
        stmts_hits(fs[j].body@, q).contains(h),
    ensures
        functions_hits(fs, q).contains(h),
    decreases fs.len(),
{
    if j < fs.len() - 1 {
        lemma_functions_hits_contain(fs.drop_last(), q, j, h);
    }
    lemma_concat_contains(functions_hits(fs.drop_last(), q), stmts_hits(fs.last().body@, q), h);
}

/// Every matcher looks inside blocks, `if` (condition, then-branch and
/// else-branch) and `match` (scrutinee and arms); the function-call matcher
/// also looks inside call arguments, and the method-call and storage
/// matchers inside method-call receivers and arguments. A hit found in such
/// a part is a hit of the enclosing expression.
pub proof fn law_matchers_look_inside_nested_code(e: Expression, q: Probe, h: (Seq<char>, usize))
    ensures
        e matches Expression::Block { stmts } && stmts_hits(stmts@, q).contains(h) ==> expr_hits(e, q).contains(h),
        e matches Expression::If { cond, .. } && expr_hits(*cond, q).contains(h) ==> expr_hits(e, q).contains(h),
        e matches Expression::If { then_branch, .. } && stmts_hits(then_branch@, q).contains(h) ==> expr_hits(
            e,
            q,
        ).contains(h),
        e matches Expression::If { else_branch: Some(y), .. } && expr_hits(*y, q).contains(h) ==> expr_hits(
            e,
            q,
        ).contains(h),
        e matches Expression::Match { scrutinee, .. } && expr_hits(*scrutinee, q).contains(h) ==> expr_hits(
            e,
            q,
        ).contains(h),
        forall|k: int|
            e is Match && 0 <= k < e->arms.len() && #[trigger] expr_hits(e->arms@[k], q).contains(h) ==> expr_hits(
                e,
                q,
            ).contains(h),
        forall|k: int|
            e is Call && q is Function && 0 <= k < e->Call_args.len() && #[trigger] expr_hits(
                e->Call_args@[k],
                q,
            ).contains(h) ==> expr_hits(e, q).contains(h),
        e matches Expression::MethodCall { receiver, .. } && !(q is Function) && expr_hits(*receiver, q).contains(h)
            ==> expr_hits(e, q).contains(h),
        forall|k: int|
            e is MethodCall && !(q is Function) && 0 <= k < e->MethodCall_args.len() && #[trigger] expr_hits(
                e->MethodCall_args@[k],
                q,
            ).contains(h) ==> expr_hits(e, q).contains(h),
{
    match e {
        Expression::Block { stmts } => {},
        Expression::If { cond, then_branch, else_branch } => {
            let tail = match else_branch {
                Some(y) => expr_hits(*y, q),
                None => Seq::empty(),
            };
            lemma_concat_contains(expr_hits(*cond, q), stmts_hits(then_branch@, q), h);
            lemma_concat_contains(expr_hits(*cond, q) + stmts_hits(then_branch@, q), tail, h);
        },
        Expression::Match { scrutinee, arms } => {
            lemma_concat_contains(expr_hits(*scrutinee, q), exprs_hits(arms@, q), h);
            assert forall|k: int| 0 <= k < arms.len() && #[trigger] expr_hits(arms@[k], q).contains(h) implies expr_hits(
                e,
                q,
            ).contains(h) by {
                lemma_exprs_hits_contain(arms@, q, k, h);
                lemma_concat_contains(expr_hits(*scrutinee, q), exprs_hits(arms@, q), h);
            }
        },
        Expression::Call { args, .. } => {
            if q is Function {
                assert forall|k: int| 0 <= k < args.len() && #[trigger] expr_hits(args@[k], q).contains(h) implies expr_hits(
                    e,
                    q,
                ).contains(h) by {
                    lemma_exprs_hits_contain(args@, q, k, h);
                    lemma_concat_contains(own_hits(e, q), exprs_hits(args@, q), h);
                }
            }
        },
        Expression::MethodCall { receiver, args, .. } => {
            if !(q is Function) {
                let inner = expr_hits(*receiver, q) + exprs_hits(args@, q);
                lemma_concat_contains(expr_hits(*receiver, q), exprs_hits(args@, q), h);
                lemma_concat_contains(own_hits(e, q), inner, h);
                assert forall|k: int| 0 <= k < args.len() && #[trigger] expr_hits(args@[k], q).contains(h) implies expr_hits(
                    e,
                    q,
                ).contains(h) by {
                    lemma_exprs_hits_contain(args@, q, k, h);
                    lemma_concat_contains(expr_hits(*receiver, q), exprs_hits(args@, q), h);
                    lemma_concat_contains(own_hits(e, q), inner, h);
                }
            }
        },
        _ => {},
    }
}

/// What each matcher reports of a call itself: a call of a function whose
/// name (the path's last segment) matches the pattern and that carries
/// every required argument is a hit, reported with that name and its line;
/// one lacking a required argument is none. A method call whose name and
/// receiver match is a hit with the method's name; a storage operation
/// whose call text mentions `storage`, with the configured name and a
/// matching key, is a hit named `storage.` and the operation.
pub proof fn law_matchers_report_matching_calls(
    e: Expression,
    segments: Vec<String>,
    name_pattern: Seq<char>,
    required: Seq<String>,
    method_pattern: Seq<char>,
    receiver_pattern: Option<Seq<char>>,
    operation: Seq<char>,
    key_pattern: Option<Seq<char>>,
)
    ensures
        e matches Expression::Call { func, arg_texts, line, .. } ==> ((*func == (Expression::Path { segments })
            && segments.len() > 0 && pattern_matches(segments@.last()@, name_pattern) && all_present(
            arg_texts@,
            required,
        )) ==> expr_hits(e, function_probe(name_pattern, required)).contains((segments@.last()@, line))),
        e matches Expression::Call { arg_texts, .. } && !all_present(arg_texts@, required) ==> own_hits(
            e,
            function_probe(name_pattern, required),
        ) == Seq::<(Seq<char>, usize)>::empty(),
        e matches Expression::MethodCall { method, receiver_text, line, .. } ==> ((pattern_matches(
            method@,
            method_pattern,
        ) && (receiver_pattern matches Some(p) ==> pattern_matches(receiver_text@, p))) ==> expr_hits(
            e,
            method_probe(method_pattern, receiver_pattern),
        ).contains((method@, line))),
        e matches Expression::MethodCall { method, call_text, arg_texts, line, .. } ==> ((seq_contains(
            call_text@,
            "storage"@,
        ) && method@ == operation && (key_pattern matches Some(p) ==> text_present(arg_texts@, p)))
            ==> expr_hits(e, storage_probe(operation, key_pattern)).contains(("storage."@ + method@, line))),
{
    match e {
        Expression::Call { func, args, arg_texts, line } => {
            let q = function_probe(name_pattern, required);
            let own = own_hits(e, q);
            if *func == (Expression::Path { segments }) && segments.len() > 0 && pattern_matches(
                segments@.last()@,
                name_pattern,
            ) && all_present(arg_texts@, required) {
                assert(own[0] == (segments@.last()@, line));
                lemma_concat_contains(own, exprs_hits(args@, q), (segments@.last()@, line));
            }
        },
        Expression::MethodCall { receiver, method, args, receiver_text, call_text, arg_texts, line } => {
            let qm = method_probe(method_pattern, receiver_pattern);
            if pattern_matches(method@, method_pattern) && (receiver_pattern matches Some(p) ==> pattern_matches(
                receiver_text@,
                p,
            )) {
                assert(own_hits(e, qm)[0] == (method@, line));
                lemma_concat_contains(
                    own_hits(e, qm),
                    expr_hits(*receiver, qm) + exprs_hits(args@, qm),
                    (method@, line),
                );
            }
            let qs = storage_probe(operation, key_pattern);
            if seq_contains(call_text@, "storage"@) && method@ == operation && (key_pattern matches Some(p)
                ==> text_present(arg_texts@, p)) {
                assert(own_hits(e, qs)[0] == ("storage."@ + method@, line));
                lemma_concat_contains(
                    own_hits(e, qs),
                    expr_hits(*receiver, qs) + exprs_hits(args@, qs),
                    ("storage."@ + method@, line),
                );
            }
        },
        _ => {},
    }
}

/// Bodies are walked in full: a hit inside any statement of any function
/// (an expression statement or a `let` initialiser) is a hit of the
/// functions, and the rule reports it.
pub proof fn law_hits_in_statements_are_reported(
    rule: YamlCustomRule,
    fs: Seq<ImplFn>,
    q: Probe,
    j: int,
    k: int,
    h: (Seq<char>, usize),
)
    requires
        0 <= j < fs.len(),
        0 <= k < fs[j].body@.len(),
    ensures
        fs[j].body@[k] matches Statement::Expression { expr, .. } && expr_hits(expr, q).contains(h) ==> stmt_hits(
            fs[j].body@[k],
            q,
        ).contains(h),
        fs[j].body@[k] matches Statement::Local { init: Some(y) } && expr_hits(y, q).contains(h) ==> stmt_hits(
            fs[j].body@[k],
            q,
        ).contains(h),
        stmt_hits(fs[j].body@[k], q).contains(h) ==> functions_hits(fs, q).contains(h),
        stmt_hits(fs[j].body@[k], q).contains(h) ==> hit_violations(rule, functions_hits(fs, q)).contains(
            hit_violation(rule, h),
        ),
{
    if stmt_hits(fs[j].body@[k], q).contains(h) {
        lemma_stmts_hits_contain(fs[j].body@, q, k, h);
        lemma_functions_hits_contain(fs, q, j, h);
        let all = functions_hits(fs, q);
        let i = choose|i: int| 0 <= i < all.len() && all[i] == h;
        assert(hit_violations(rule, all)[i] == hit_violation(rule, h));
    }
}

/// A function-call rule looks at calls of named functions only: a method
/// call, and everything inside it, yields nothing for it; and a storage
/// rule reports only operations whose name is the configured one.
pub proof fn law_matchers_report_their_own_kind(e: Expression, name_pattern: Seq<char>, required: Seq<String>, operation: Seq<char>, key: Option<Seq<char>>)
    ensures
        e is MethodCall ==> expr_hits(e, function_probe(name_pattern, required)) == Seq::<(Seq<char>, usize)>::empty(),
        (e matches Expression::MethodCall { method, .. } && method@ != operation) ==> own_hits(
            e,
            storage_probe(operation, key),
        ) == Seq::<(Seq<char>, usize)>::empty(),
{
    if e is MethodCall {
        assert(expr_hits(e, function_probe(name_pattern, required)) =~= Seq::<(Seq<char>, usize)>::empty());
    }
}

} // verus!
