//! Rule: cross-contract calls whose result is dropped.
//!
//! An expression statement ending in `;` is flagged when it is a method call
//! named `invoke_contract`, `try_invoke_contract` or `invoke`, or a call of a
//! method that does not look read-only on a receiver that looks like a
//! contract client (`FooClient::new(..)`, `token_client`, `&client`, ..).
use vstd::prelude::*;
use crate::rules::{Patch, Rule, RuleViolation, Severity, ViolationView, violation_views};
use crate::syntax::{Expression, ImplFn, Statement, parse_source, parsed_impl_fns};
use crate::text::{
    lemma_concat_contains, chars_of, decimal, ends_with_exec, lowercase_of, seq_ends_with, seq_starts_with, starts_with_exec,
    text_with_number, to_lowercase,
};
use crate::soroban_v21::str_eq;

verus! {

/// The lowercase form of `ident` ends with `client`.
pub open spec fn client_ident(ident: Seq<char>) -> bool {
    let l = lowercase_of(ident);
    seq_ends_with(l, "client"@) || seq_ends_with(l, "_client"@)
}

/// Some segment names a client type and a later (or the same) segment is
/// `new`, as in `token::Client::new`.
pub open spec fn client_constructor_path(segments: Seq<String>) -> bool {
    exists|i: int, j: int|
        0 <= i <= j < segments.len() && client_ident(#[trigger] segments[i]@) && #[trigger] segments[j]@
            == "new"@
}

/// The receiver expression looks like a contract client.
pub open spec fn client_receiver(e: Expression) -> bool
    decreases e,
{
    match e {
        Expression::Call { func, .. } => match *func {
            Expression::Path { segments } => client_constructor_path(segments@),
            _ => false,
        },
        Expression::Path { segments } => segments.len() > 0 && client_ident(segments@.last()@),
        Expression::Reference { inner } => client_receiver(*inner),
        Expression::Paren { inner } => client_receiver(*inner),
        Expression::Group { inner } => client_receiver(*inner),
        _ => false,
    }
}

/// The method name looks like a read-only query.
pub open spec fn read_only_method(m: Seq<char>) -> bool {
    ||| m == "balance"@
    ||| m == "paused"@
    ||| m == "allowance"@
    ||| m == "decimals"@
    ||| m == "name"@
    ||| m == "symbol"@
    ||| seq_starts_with(m, "get_"@)
    ||| seq_starts_with(m, "is_"@)
    ||| seq_starts_with(m, "has_"@)
}

/// The expression is an external call whose result needs handling.
pub open spec fn unchecked_call(e: Expression) -> bool {
    match e {
        Expression::MethodCall { receiver, method, .. } => {
            ||| method@ == "invoke_contract"@
            ||| method@ == "try_invoke_contract"@
            ||| method@ == "invoke"@
            ||| client_receiver(*receiver) && !read_only_method(method@)
        },
        _ => false,
    }
}

/// The line on which a call starts (0 for other expressions).
pub open spec fn call_line(e: Expression) -> usize {
    match e {
        Expression::MethodCall { line, .. } => line,
        Expression::Call { line, .. } => line,
        _ => 0,
    }
}

/// Lines of the dropped external calls the rule finds inside `e`, in
/// visiting order.
pub open spec fn expr_unchecked_lines(e: Expression) -> Seq<usize>
    decreases e,
{
    match e {
        Expression::Block { stmts } => stmts_unchecked_lines(stmts@),
        Expression::If { cond, then_branch, else_branch } => {
            let tail = match else_branch {
                Some(x) => expr_unchecked_lines(*x),
                None => Seq::empty(),
            };
            expr_unchecked_lines(*cond) + stmts_unchecked_lines(then_branch@) + tail
        },
        Expression::Match { scrutinee, arms } => expr_unchecked_lines(*scrutinee) + exprs_unchecked_lines(
            arms@,
        ),
        Expression::MethodCall { receiver, args, .. } => expr_unchecked_lines(*receiver)
            + exprs_unchecked_lines(args@),
        Expression::Call { args, .. } => exprs_unchecked_lines(args@),
        _ => Seq::empty(),
    }
}

/// The lines found in a list of expressions.
pub open spec fn exprs_unchecked_lines(s: Seq<Expression>) -> Seq<usize>
    decreases s,
{
    if s.len() == 0 {
        Seq::empty()
    } else {
        exprs_unchecked_lines(s.drop_last()) + expr_unchecked_lines(s.last())
    }
}

/// The lines found in a statement: the statement's own call when it ends in
/// `;` and drops an external call's result, then those inside it.
pub open spec fn stmt_unchecked_lines(st: Statement) -> Seq<usize>
    decreases st,
{
    match st {
        Statement::Expression { expr, semi } => {
            let own = if semi && unchecked_call(expr) {
                seq![call_line(expr)]
            } else {
                Seq::empty()
            };
            own + expr_unchecked_lines(expr)
        },
        Statement::Local { init: Some(x) } => expr_unchecked_lines(x),
        _ => Seq::empty(),
    }
}

/// The lines found in a list of statements.
pub open spec fn stmts_unchecked_lines(s: Seq<Statement>) -> Seq<usize>
    decreases s,
{
    if s.len() == 0 {
        Seq::empty()
    } else {
        stmts_unchecked_lines(s.drop_last()) + stmt_unchecked_lines(s.last())
    }
}

/// The lines found in the bodies of a list of functions.
pub open spec fn functions_unchecked_lines(fs: Seq<ImplFn>) -> Seq<usize>
    decreases fs.len(),
{
    if fs.len() == 0 {
        Seq::empty()
    } else {
        functions_unchecked_lines(fs.drop_last()) + stmts_unchecked_lines(fs.last().body@)
    }
}

/// The violation reported for a dropped call on `line`.
pub open spec fn unchecked_call_violation(line: usize) -> ViolationView {
    ViolationView {
        rule_name: "unchecked_external_call"@,
        severity: Severity::Warning,
        message: "External contract call result is not checked or handled"@,
        location: "line "@ + decimal(line as nat),
        suggestion: Some(
            "Store the result in a variable and handle errors with match, ?, or .unwrap_or()"@,
        ),
    }
}

/// Whether an identifier looks like a contract client: its lowercase form
/// ends with `client`.
pub fn ident_looks_like_client(ident: &str) -> (r: bool)
    ensures
        r == client_ident(ident@),
{
    let lower = to_lowercase(ident);
    let l = chars_of(lower.as_str());
    let a = chars_of("client");
    let b = chars_of("_client");
    ends_with_exec(&l, &a) || ends_with_exec(&l, &b)
}

/// Whether a method name looks like a read-only query.
pub fn method_looks_read_only(method_name: &str) -> (r: bool)
    ensures
        r == read_only_method(method_name@),
{
    let m = chars_of(method_name);
    str_eq(method_name, "balance") || str_eq(method_name, "paused") || str_eq(
        method_name,
        "allowance",
    ) || str_eq(method_name, "decimals") || str_eq(method_name, "name") || str_eq(
        method_name,
        "symbol",
    ) || starts_with_exec(&m, &chars_of("get_")) || starts_with_exec(&m, &chars_of("is_"))
        || starts_with_exec(&m, &chars_of("has_"))
}

/// Whether a path is a client constructor such as `TokenClient::new`.
pub fn path_looks_like_client_constructor(segments: &Vec<String>) -> (r: bool)
    ensures
        r == client_constructor_path(segments@),
{
    let mut saw_client_type = false;
    let mut i: usize = 0;
    while i < segments.len()
        invariant
            i <= segments.len(),
            saw_client_type == exists|k: int| 0 <= k < i && client_ident(#[trigger] segments@[k]@),
            forall|a: int, b: int|
                0 <= a <= b < i ==> !(client_ident(#[trigger] segments@[a]@) && #[trigger] segments@[b]@
                    == "new"@),
        decreases segments.len() - i,
    {
        let ident = segments[i].as_str();
        if ident_looks_like_client(ident) {
            saw_client_type = true;
        }
        if str_eq(ident, "new") && saw_client_type {
            assert(client_constructor_path(segments@)) by {
                let k = choose|k: int| 0 <= k < i + 1 && client_ident(#[trigger] segments@[k]@);
                assert(client_ident(segments@[k]@) && segments@[i as int]@ == "new"@);
            }
            return true;
        }
        i = i + 1;
    }
    false
}

/// Whether a receiver expression looks like a contract client.
pub fn receiver_looks_like_external_client(expr: &Expression) -> (r: bool)
    ensures
        r == client_receiver(*expr),
    decreases expr,
{
    match expr {
        Expression::Call { func, .. } => match &**func {
            Expression::Path { segments } => path_looks_like_client_constructor(segments),
            _ => false,
        },
        Expression::Path { segments } => {
            if segments.len() == 0 {
                false
            } else {
                ident_looks_like_client(segments[segments.len() - 1].as_str())
            }
        },
        Expression::Reference { inner } => receiver_looks_like_external_client(inner),
        Expression::Paren { inner } => receiver_looks_like_external_client(inner),
        Expression::Group { inner } => receiver_looks_like_external_client(inner),
        _ => false,
    }
}

/// Whether an expression is an external call whose result needs handling.
pub fn is_unchecked_external_call(expr: &Expression) -> (r: bool)
    ensures
        r == unchecked_call(*expr),
{
    match expr {
        Expression::MethodCall { receiver, method, .. } => {
            let m = method.as_str();
            if str_eq(m, "invoke_contract") || str_eq(m, "try_invoke_contract") || str_eq(m, "invoke") {
                return true;
            }
            if receiver_looks_like_external_client(receiver) && !method_looks_read_only(m) {
                return true;
            }
            false
        },
        _ => false,
    }
}

/// The violations reported for the dropped calls on `lines`, in order.
pub open spec fn unchecked_call_violations(lines: Seq<usize>) -> Seq<ViolationView> {
    lines.map_values(|l: usize| unchecked_call_violation(l))
}

proof fn lemma_violations_concat(a: Seq<usize>, b: Seq<usize>)
    ensures
        unchecked_call_violations(a + b) == unchecked_call_violations(a) + unchecked_call_violations(b),
{
    assert(unchecked_call_violations(a + b) =~= unchecked_call_violations(a) + unchecked_call_violations(b));
}

proof fn lemma_take_full<A>(s: Seq<A>)
    ensures
        s.take(s.len() as int) == s,
{
    assert(s.take(s.len() as int) =~= s);
}

/// Appends the violation for a dropped call on `line`.
fn push_unchecked_violation(violations: &mut Vec<RuleViolation>, line: usize)
    ensures
        violation_views(final(violations)@) == violation_views(old(violations)@).push(
            unchecked_call_violation(line),
        ),
{
    let v = RuleViolation::new(
        "unchecked_external_call",
        Severity::Warning,
        String::from_str("External contract call result is not checked or handled"),
        text_with_number("line ", line),
    ).with_suggestion(
        String::from_str(
            "Store the result in a variable and handle errors with match, ?, or .unwrap_or()",
        ),
    );
    let ghost before = violations@;
    violations.push(v);
    assert(violation_views(violations@) =~= violation_views(before).push(v@));
}

/// Appends the violations found in the statements of a block.
fn check_function_for_unchecked_calls(block: &Vec<Statement>, violations: &mut Vec<RuleViolation>)
    ensures
        violation_views(final(violations)@) == violation_views(old(violations)@)
            + unchecked_call_violations(stmts_unchecked_lines(block@)),
    decreases block,
{
    let ghost start = violation_views(violations@);
    let mut i: usize = 0;
    while i < block.len()
        invariant
            i <= block.len(),
            violation_views(violations@) == start + unchecked_call_violations(
                stmts_unchecked_lines(block@.take(i as int)),
            ),
        decreases block.len() - i,
    {
        assert(block@.take(i + 1).drop_last() =~= block@.take(i as int));
        assert(block@.take(i + 1).last() == block@[i as int]);
        let ghost before = violation_views(violations@);
        match &block[i] {
            Statement::Expression { expr, semi } => {
                if *semi {
                    if is_unchecked_external_call(expr) {
                        let line = match expr {
                            Expression::MethodCall { line, .. } => *line,
                            Expression::Call { line, .. } => *line,
                            _ => 0,
                        };
                        push_unchecked_violation(violations, line);
                    }
                }
                check_expr_recursively(expr, violations);
            },
            Statement::Local { init: Some(x) } => check_expr_recursively(x, violations),
            _ => {},
        }
        proof {
            let st = block@[i as int];
            lemma_violations_concat(stmts_unchecked_lines(block@.take(i as int)), stmt_unchecked_lines(st));
            match st {
                Statement::Expression { expr, semi } => {
                    let own = if semi && unchecked_call(expr) {
                        seq![call_line(expr)]
                    } else {
                        Seq::empty()
                    };
                    lemma_violations_concat(own, expr_unchecked_lines(expr));
                    assert(unchecked_call_violations(own) =~= if semi && unchecked_call(expr) {
                        seq![unchecked_call_violation(call_line(expr))]
                    } else {
                        Seq::empty()
                    });
                },
                _ => {},
            }
            assert(violation_views(violations@) =~= before + unchecked_call_violations(
                stmt_unchecked_lines(st),
            ));
        }
        i = i + 1;
    }
    proof {
        lemma_take_full(block@);
    }
}

/// Appends the violations found in a list of expressions.
fn check_exprs_recursively(exprs: &Vec<Expression>, violations: &mut Vec<RuleViolation>)
    ensures
        violation_views(final(violations)@) == violation_views(old(violations)@)
            + unchecked_call_violations(exprs_unchecked_lines(exprs@)),
    decreases exprs,
{
    let ghost start = violation_views(violations@);
    let mut i: usize = 0;
    while i < exprs.len()
        invariant
            i <= exprs.len(),
            violation_views(violations@) == start + unchecked_call_violations(
                exprs_unchecked_lines(exprs@.take(i as int)),
            ),
        decreases exprs.len() - i,
    {
        assert(exprs@.take(i + 1).drop_last() =~= exprs@.take(i as int));
        assert(exprs@.take(i + 1).last() == exprs@[i as int]);
        proof {
            lemma_violations_concat(
                exprs_unchecked_lines(exprs@.take(i as int)),
                expr_unchecked_lines(exprs@[i as int]),
            );
        }
        check_expr_recursively(&exprs[i], violations);
        i = i + 1;
    }
    proof {
        lemma_take_full(exprs@);
    }
}

/// Appends the violations found inside an expression.
fn check_expr_recursively(expr: &Expression, violations: &mut Vec<RuleViolation>)
    ensures
        violation_views(final(violations)@) == violation_views(old(violations)@)
            + unchecked_call_violations(expr_unchecked_lines(*expr)),
    decreases expr,
{
    match expr {
        Expression::Block { stmts } => check_function_for_unchecked_calls(stmts, violations),
        Expression::If { cond, then_branch, else_branch } => {
            let ghost start = violation_views(violations@);
            check_expr_recursively(cond, violations);
            check_function_for_unchecked_calls(then_branch, violations);
            match else_branch {
                Some(x) => check_expr_recursively(x, violations),
                None => {},
            }
            proof {
                let tail = match else_branch {
                    Some(x) => expr_unchecked_lines(**x),
                    None => Seq::empty(),
                };
                lemma_violations_concat(expr_unchecked_lines(**cond), stmts_unchecked_lines(then_branch@));
                lemma_violations_concat(
                    expr_unchecked_lines(**cond) + stmts_unchecked_lines(then_branch@),
                    tail,
                );
                assert(unchecked_call_violations(Seq::<usize>::empty()) =~= Seq::empty());
                assert(violation_views(violations@) =~= start + unchecked_call_violations(
                    expr_unchecked_lines(*expr),
                ));
            }
        },
        Expression::Match { scrutinee, arms } => {
            proof {
                lemma_violations_concat(expr_unchecked_lines(**scrutinee), exprs_unchecked_lines(arms@));
            }
            check_expr_recursively(scrutinee, violations);
            check_exprs_recursively(arms, violations);
        },
        Expression::MethodCall { receiver, args, .. } => {
            proof {
                lemma_violations_concat(expr_unchecked_lines(**receiver), exprs_unchecked_lines(args@));
            }
            check_expr_recursively(receiver, violations);
            check_exprs_recursively(args, violations);
        },
        Expression::Call { args, .. } => check_exprs_recursively(args, violations),
        _ => {
            assert(unchecked_call_violations(Seq::<usize>::empty()) =~= Seq::empty());
            assert(violation_views(violations@) =~= violation_views(violations@) + Seq::empty());
        },
    }
}

/// Rule that detects unchecked return values from external Soroban calls.
pub struct UncheckedExternalCallRule;

impl UncheckedExternalCallRule {
    pub fn new() -> (r: Self) {
        UncheckedExternalCallRule
    }
}

impl Default for UncheckedExternalCallRule {
    fn default() -> (r: Self) {
        Self::new()
    }
}

/// The violations of the rule over the functions of a file's `impl`
/// blocks, in order.
pub fn check_impl_functions(fs: &Vec<ImplFn>) -> (r: Vec<RuleViolation>)
    ensures
        violation_views(r@) == unchecked_call_violations(functions_unchecked_lines(fs@)),
{
    let mut violations: Vec<RuleViolation> = Vec::new();
    assert(violation_views(violations@) =~= Seq::empty());
    let mut i: usize = 0;
    while i < fs.len()
        invariant
            i <= fs.len(),
            violation_views(violations@) == unchecked_call_violations(
                functions_unchecked_lines(fs@.take(i as int)),
            ),
        decreases fs.len() - i,
    {
        assert(fs@.take(i + 1).drop_last() =~= fs@.take(i as int));
        assert(fs@.take(i + 1).last() == fs@[i as int]);
        proof {
            lemma_violations_concat(
                functions_unchecked_lines(fs@.take(i as int)),
                stmts_unchecked_lines(fs@[i as int].body@),
            );
        }
        check_function_for_unchecked_calls(&fs[i].body, &mut violations);
        i = i + 1;
    }
    proof {
        lemma_take_full(fs@);
    }
    violations
}

impl Rule for UncheckedExternalCallRule {
    fn name(&self) -> (r: &str)
        ensures
            r@ == "unchecked_external_call"@,
    {
        "unchecked_external_call"
    }

    fn description(&self) -> (r: &str)
        ensures
            r@
                == "Detects external cross-contract calls whose Result return values are not checked or handled"@,
    {
        "Detects external cross-contract calls whose Result return values are not checked or handled"
    }

    fn check(&self, source: &str) -> (r: Vec<RuleViolation>)
        ensures
            violation_views(r@) == unchecked_call_violations(functions_unchecked_lines(parsed_impl_fns(source@))),
    {
        let file = parse_source(source);
        check_impl_functions(&file.functions)
    }

    fn fix(&self, _source: &str) -> (r: Vec<Patch>)
        ensures
            r@.len() == 0,
    {
        Vec::new()
    }
}

/// A line found in one expression of a list is found in the list.
proof fn lemma_exprs_lines_contain(s: Seq<Expression>, k: int, x: usize)
    requires
        0 <= k < s.len(),
        expr_unchecked_lines(s[k]).contains(x),
    ensures
        exprs_unchecked_lines(s).contains(x),
    decreases s.len(),
{
    if k < s.len() - 1 {
        lemma_exprs_lines_contain(s.drop_last(), k, x);
    }
    lemma_concat_contains(exprs_unchecked_lines(s.drop_last()), expr_unchecked_lines(s.last()), x);
}

/// A line found in one statement of a list is found in the list.
proof fn lemma_stmts_lines_contain(s: Seq<Statement>, k: int, x: usize)
    requires
        0 <= k < s.len(),
        stmt_unchecked_lines(s[k]).contains(x),
    ensures
        stmts_unchecked_lines(s).contains(x),
    decreases s.len(),
{
    if k < s.len() - 1 {
        lemma_stmts_lines_contain(s.drop_last(), k, x);
    }
    lemma_concat_contains(stmts_unchecked_lines(s.drop_last()), stmt_unchecked_lines(s.last()), x);
}

/// The rule looks inside every kind of expression it walks: a dropped call
/// found in a block's statements, in an `if`'s condition, then-branch or
/// else-branch, in a `match`'s scrutinee or arms, in a method call's
/// receiver or arguments, or in a call's arguments, is found in the
/// enclosing expression.
pub proof fn law_dropped_calls_are_found_at_any_depth(e: Expression, x: usize)
    ensures
        e matches Expression::Block { stmts } && stmts_unchecked_lines(stmts@).contains(x)
            ==> expr_unchecked_lines(e).contains(x),
        e matches Expression::If { cond, .. } && expr_unchecked_lines(*cond).contains(x)
            ==> expr_unchecked_lines(e).contains(x),
        e matches Expression::If { then_branch, .. } && stmts_unchecked_lines(then_branch@).contains(x)
            ==> expr_unchecked_lines(e).contains(x),
        e matches Expression::If { else_branch: Some(y), .. } && expr_unchecked_lines(*y).contains(x)
            ==> expr_unchecked_lines(e).contains(x),
        e matches Expression::Match { scrutinee, .. } && expr_unchecked_lines(*scrutinee).contains(x)
            ==> expr_unchecked_lines(e).contains(x),
        forall|k: int|
            e is Match && 0 <= k < e->arms.len() && #[trigger] expr_unchecked_lines(e->arms@[k]).contains(x)
                ==> expr_unchecked_lines(e).contains(x),
        e matches Expression::MethodCall { receiver, .. } && expr_unchecked_lines(*receiver).contains(x)
            ==> expr_unchecked_lines(e).contains(x),
        forall|k: int|
            e is MethodCall && 0 <= k < e->MethodCall_args.len() && #[trigger] expr_unchecked_lines(
                e->MethodCall_args@[k],
            ).contains(x) ==> expr_unchecked_lines(e).contains(x),
        forall|k: int|
            e is Call && 0 <= k < e->Call_args.len() && #[trigger] expr_unchecked_lines(e->Call_args@[k]).contains(
                x,
            ) ==> expr_unchecked_lines(e).contains(x),
{
    match e {
        Expression::Block { stmts } => {},
        Expression::If { cond, then_branch, else_branch } => {
            let tail = match else_branch {
                Some(y) => expr_unchecked_lines(*y),
                None => Seq::empty(),
            };
            let a = expr_unchecked_lines(*cond);
            let b = stmts_unchecked_lines(then_branch@);
            lemma_concat_contains(a, b, x);
            lemma_concat_contains(a + b, tail, x);
        },
        Expression::Match { scrutinee, arms } => {
            lemma_concat_contains(expr_unchecked_lines(*scrutinee), exprs_unchecked_lines(arms@), x);
            assert forall|k: int| 0 <= k < arms.len() && #[trigger] expr_unchecked_lines(arms@[k]).contains(x)
                implies expr_unchecked_lines(e).contains(x) by {
                lemma_exprs_lines_contain(arms@, k, x);
                lemma_concat_contains(expr_unchecked_lines(*scrutinee), exprs_unchecked_lines(arms@), x);
            }
        },
        Expression::MethodCall { receiver, args, .. } => {
            lemma_concat_contains(expr_unchecked_lines(*receiver), exprs_unchecked_lines(args@), x);
            assert forall|k: int| 0 <= k < args.len() && #[trigger] expr_unchecked_lines(args@[k]).contains(x)
                implies expr_unchecked_lines(e).contains(x) by {
                lemma_exprs_lines_contain(args@, k, x);
                lemma_concat_contains(expr_unchecked_lines(*receiver), exprs_unchecked_lines(args@), x);
            }
        },
        Expression::Call { args, .. } => {
            assert forall|k: int| 0 <= k < args.len() && #[trigger] expr_unchecked_lines(args@[k]).contains(x)
                implies expr_unchecked_lines(e).contains(x) by {
                lemma_exprs_lines_contain(args@, k, x);
            }
        },
        _ => {},
    }
}

/// Statements are walked in full: a `;`-terminated statement that drops an
/// external call's result is reported on the call's line, and a dropped
/// call found inside any statement of a body (an expression statement or a
/// `let` initialiser) is reported for the function, and so by the rule.
pub proof fn law_dropped_calls_in_statements_are_reported(fs: Seq<ImplFn>, j: int, k: int, e: Expression, x: usize)
    requires
        0 <= j < fs.len(),
        0 <= k < fs[j].body@.len(),
    ensures
        fs[j].body@[k] == (Statement::Expression { expr: e, semi: true }) && unchecked_call(e)
            ==> stmt_unchecked_lines(fs[j].body@[k]).contains(call_line(e)),
        fs[j].body@[k] matches Statement::Expression { expr, .. } && expr_unchecked_lines(expr).contains(x)
            ==> stmt_unchecked_lines(fs[j].body@[k]).contains(x),
        fs[j].body@[k] matches Statement::Local { init: Some(y) } && expr_unchecked_lines(y).contains(x)
            ==> stmt_unchecked_lines(fs[j].body@[k]).contains(x),
        stmt_unchecked_lines(fs[j].body@[k]).contains(x) ==> functions_unchecked_lines(fs).contains(x),
        stmt_unchecked_lines(fs[j].body@[k]).contains(x) ==> unchecked_call_violations(
            functions_unchecked_lines(fs),
        ).contains(unchecked_call_violation(x)),
    decreases fs.len(),
{
    let st = fs[j].body@[k];
    match st {
        Statement::Expression { expr, semi } => {
            let own = if semi && unchecked_call(expr) {
                seq![call_line(expr)]
            } else {
                Seq::empty()
            };
            if semi && unchecked_call(expr) {
                assert(own[0] == call_line(expr));
            }
            lemma_concat_contains(own, expr_unchecked_lines(expr), x);
            lemma_concat_contains(own, expr_unchecked_lines(expr), call_line(e));
        },
        _ => {},
    }
    if stmt_unchecked_lines(st).contains(x) {
        lemma_stmts_lines_contain(fs[j].body@, k, x);
        lemma_functions_lines_contain(fs, j, x);
        let lines = functions_unchecked_lines(fs);
        let i = choose|i: int| 0 <= i < lines.len() && lines[i] == x;
        assert(unchecked_call_violations(lines)[i] == unchecked_call_violation(x));
    }
}

/// A line found in one function's body is found in the list of functions.
proof fn lemma_functions_lines_contain(fs: Seq<ImplFn>, j: int, x: usize)
    requires
        0 <= j < fs.len(),
        stmts_unchecked_lines(fs[j].body@).contains(x),
    ensures
        functions_unchecked_lines(fs).contains(x),
    decreases fs.len(),
{
    if j < fs.len() - 1 {
        lemma_functions_lines_contain(fs.drop_last(), j, x);
    }
    lemma_concat_contains(functions_unchecked_lines(fs.drop_last()), stmts_unchecked_lines(fs.last().body@), x);
}

/// Binding a call's result with `let`, or leaving it as the block's value
/// (no `;`), is never reported for that call itself; a read-only query on a
/// client is never reported either.
pub proof fn law_handled_results_are_not_reported(e: Expression, m: Seq<char>)
    ensures
        stmt_unchecked_lines(Statement::Local { init: Some(e) }) == expr_unchecked_lines(e),
        stmt_unchecked_lines(Statement::Expression { expr: e, semi: false }) == expr_unchecked_lines(e),
        (e matches Expression::MethodCall { method, .. } && read_only_method(method@) && method@
            != "invoke"@ && method@ != "invoke_contract"@ && method@ != "try_invoke_contract"@)
            ==> !unchecked_call(e),
{
    assert(Seq::<usize>::empty() + expr_unchecked_lines(e) =~= expr_unchecked_lines(e));
}

/// A dropped `invoke_contract` result is always reported, on the call's
/// line.
pub proof fn law_dropped_invocations_are_reported(e: Expression)
    requires
        e matches Expression::MethodCall { method, .. } && method@ == "invoke_contract"@,
    ensures
        stmt_unchecked_lines(Statement::Expression { expr: e, semi: true }) == seq![call_line(e)] + expr_unchecked_lines(e),
{
}

} // verus!
