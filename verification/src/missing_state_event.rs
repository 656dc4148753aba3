//! Rule: privileged state changes (admin, owner, pause, upgrade, auth)
//! made without emitting an event.
//!
//! A function whose name looks privileged is flagged when its body writes a
//! storage entry under a privileged-looking key (a `set`, `update` or
//! `remove` call whose text, with ` . receiver` appended, mentions
//! `storage`) and nowhere calls `publish` in a call whose text mentions
//! `events`.
use vstd::prelude::*;
use crate::rules::{Patch, Rule, RuleViolation, Severity, ViolationView, violation_views};
use crate::syntax::{Expression, ImplFn, Statement, parse_source, parsed_impl_fns};
use crate::text::{
    chars_of, contains_str, decimal, lowercase_of, seq_contains, text_with_number, to_lowercase,
    concat3,
};
use crate::soroban_v21::str_eq;

verus! {

/// The lowercase form of `name` contains one of the privileged words.
pub open spec fn privileged_function_name(name: Seq<char>) -> bool {
    let l = lowercase_of(name);
    ||| seq_contains(l, "admin"@)
    ||| seq_contains(l, "owner"@)
    ||| seq_contains(l, "pause"@)
    ||| seq_contains(l, "unpause"@)
    ||| seq_contains(l, "upgrade"@)
    ||| seq_contains(l, "set_auth"@)
    ||| seq_contains(l, "transfer_ownership"@)
}

/// The lowercase form of a key's token text contains a privileged word.
pub open spec fn privileged_key_text(t: Seq<char>) -> bool {
    let l = lowercase_of(t);
    ||| seq_contains(l, "admin"@)
    ||| seq_contains(l, "owner"@)
    ||| seq_contains(l, "pause"@)
    ||| seq_contains(l, "upgrade"@)
    ||| seq_contains(l, "auth"@)
}

/// Pairwise or of two (mutation, emission) marks.
pub open spec fn or_marks(a: (bool, bool), b: (bool, bool)) -> (bool, bool) {
    (a.0 || b.0, a.1 || b.1)
}

/// This method call itself writes a privileged storage key: a `set`,
/// `update` or `remove` whose call text mentions `storage`, with an argument
/// that looks privileged.
pub open spec fn call_mutates(method: Seq<char>, call_text: Seq<char>, arg_texts: Seq<String>) -> bool {
    &&& (method == "set"@ || method == "update"@ || method == "remove"@)
    &&& seq_contains(call_text, "storage"@)
    &&& exists|i: int| 0 <= i < arg_texts.len() && privileged_key_text(#[trigger] arg_texts[i]@)
}

/// This method call itself publishes an event: a `publish` whose call text
/// mentions `events`.
pub open spec fn call_emits(method: Seq<char>, call_text: Seq<char>) -> bool {
    method == "publish"@ && seq_contains(call_text, "events"@)
}

/// Whether `e`, or an expression the rule visits inside it, writes a
/// privileged storage key (first) and publishes an event (second).
pub open spec fn expr_marks(e: Expression) -> (bool, bool)
    decreases e,
{
    match e {
        Expression::MethodCall { receiver, method, args, call_text, arg_texts, .. } => {
            let here = (
                call_mutates(method@, call_text@, arg_texts@),
                call_emits(method@, call_text@),
            );
            or_marks(or_marks(here, expr_marks(*receiver)), exprs_marks(args@))
        },
        Expression::Block { stmts } => stmts_marks(stmts@),
        Expression::If { cond, then_branch, else_branch } => {
            let tail = match else_branch {
                Some(x) => expr_marks(*x),
                None => (false, false),
            };
            or_marks(or_marks(expr_marks(*cond), stmts_marks(then_branch@)), tail)
        },
        Expression::Match { scrutinee, arms } => or_marks(expr_marks(*scrutinee), exprs_marks(arms@)),
        Expression::Call { args, .. } => exprs_marks(args@),
        _ => (false, false),
    }
}

/// The marks of a list of expressions.
pub open spec fn exprs_marks(s: Seq<Expression>) -> (bool, bool)
    decreases s,
{
    if s.len() == 0 {
        (false, false)
    } else {
        or_marks(exprs_marks(s.drop_last()), expr_marks(s.last()))
    }
}

/// The marks of a statement.
pub open spec fn stmt_marks(st: Statement) -> (bool, bool)
    decreases st,
{
    match st {
        Statement::Expression { expr, .. } => expr_marks(expr),
        Statement::Local { init: Some(x) } => expr_marks(x),
        _ => (false, false),
    }
}

/// The marks of a list of statements.
pub open spec fn stmts_marks(s: Seq<Statement>) -> (bool, bool)
    decreases s,
{
    if s.len() == 0 {
        (false, false)
    } else {
        or_marks(stmts_marks(s.drop_last()), stmt_marks(s.last()))
    }
}

/// Whether a function name looks privileged: its lowercase form contains
/// `admin`, `owner`, `pause`, `unpause`, `upgrade`, `set_auth` or
/// `transfer_ownership`.
pub fn is_privileged_function(fn_name: &str) -> (r: bool)
    ensures
        r == privileged_function_name(fn_name@),
{
    let lower = to_lowercase(fn_name);
    let l = chars_of(lower.as_str());
    contains_str(&l, "admin") || contains_str(&l, "owner") || contains_str(&l, "pause")
        || contains_str(&l, "unpause") || contains_str(&l, "upgrade") || contains_str(&l, "set_auth")
        || contains_str(&l, "transfer_ownership")
}

/// Whether the token text of a storage key looks privileged: its lowercase
/// form contains `admin`, `owner`, `pause`, `upgrade` or `auth`.
pub fn is_privileged_key(key_str: &str) -> (r: bool)
    ensures
        r == privileged_key_text(key_str@),
{
    let lower = to_lowercase(key_str);
    let l = chars_of(lower.as_str());
    contains_str(&l, "admin") || contains_str(&l, "owner") || contains_str(&l, "pause")
        || contains_str(&l, "upgrade") || contains_str(&l, "auth")
}

proof fn lemma_take_full<A>(s: Seq<A>)
    ensures
        s.take(s.len() as int) == s,
{
    assert(s.take(s.len() as int) =~= s);
}

/// Records in the two flags what `expr` holds: a privileged storage write
/// and an event emission.
fn check_expr(expr: &Expression, has_privileged_mutation: &mut bool, has_event_emission: &mut bool)
    ensures
        (*final(has_privileged_mutation), *final(has_event_emission)) == or_marks(
            (*old(has_privileged_mutation), *old(has_event_emission)),
            expr_marks(*expr),
        ),
    decreases expr,
{
    match expr {
        Expression::MethodCall { receiver, method, args, call_text, arg_texts, .. } => {
            let ghost start = (*has_privileged_mutation, *has_event_emission);
            let rc = chars_of(call_text.as_str());
            let m = method.as_str();
            if str_eq(m, "set") || str_eq(m, "update") || str_eq(m, "remove") {
                if contains_str(&rc, "storage") {
                    let mut i: usize = 0;
                    while i < arg_texts.len()
                        invariant
                            i <= arg_texts.len(),
                            *has_event_emission == start.1,
                            *has_privileged_mutation == (start.0 || exists|j: int|
                                0 <= j < i && privileged_key_text(#[trigger] arg_texts@[j]@)),
                        decreases arg_texts.len() - i,
                    {
                        if is_privileged_key(arg_texts[i].as_str()) {
                            *has_privileged_mutation = true;
                        }
                        i = i + 1;
                    }
                }
            }
            if str_eq(m, "publish") {
                if contains_str(&rc, "events") {
                    *has_event_emission = true;
                }
            }
            assert((*has_privileged_mutation, *has_event_emission) == or_marks(
                start,
                (call_mutates(method@, call_text@, arg_texts@), call_emits(method@, call_text@)),
            ));
            check_expr(receiver, has_privileged_mutation, has_event_emission);
            check_exprs(args, has_privileged_mutation, has_event_emission);
        },
        Expression::Block { stmts } => {
            check_function_body(stmts, has_privileged_mutation, has_event_emission);
        },
        Expression::If { cond, then_branch, else_branch } => {
            check_expr(cond, has_privileged_mutation, has_event_emission);
            check_function_body(then_branch, has_privileged_mutation, has_event_emission);
            match else_branch {
                Some(x) => check_expr(x, has_privileged_mutation, has_event_emission),
                None => {},
            }
        },
        Expression::Match { scrutinee, arms } => {
            check_expr(scrutinee, has_privileged_mutation, has_event_emission);
            check_exprs(arms, has_privileged_mutation, has_event_emission);
        },
        Expression::Call { args, .. } => {
            check_exprs(args, has_privileged_mutation, has_event_emission);
        },
        _ => {},
    }
}

/// Records the marks of each expression of `exprs` in turn.
fn check_exprs(exprs: &Vec<Expression>, has_privileged_mutation: &mut bool, has_event_emission: &mut bool)
    ensures
        (*final(has_privileged_mutation), *final(has_event_emission)) == or_marks(
            (*old(has_privileged_mutation), *old(has_event_emission)),
            exprs_marks(exprs@),
        ),
    decreases exprs,
{
    let ghost start = (*has_privileged_mutation, *has_event_emission);
    let mut i: usize = 0;
    while i < exprs.len()
        invariant
            i <= exprs.len(),
            (*has_privileged_mutation, *has_event_emission) == or_marks(
                start,
                exprs_marks(exprs@.take(i as int)),
            ),
        decreases exprs.len() - i,
    {
        assert(exprs@.take(i + 1).drop_last() =~= exprs@.take(i as int));
        assert(exprs@.take(i + 1).last() == exprs@[i as int]);
        check_expr(&exprs[i], has_privileged_mutation, has_event_emission);
        i = i + 1;
    }
    proof {
        lemma_take_full(exprs@);
    }
}

/// Records the marks of the statements of a block.
fn check_function_body(block: &Vec<Statement>, has_privileged_mutation: &mut bool, has_event_emission: &mut bool)
    ensures
        (*final(has_privileged_mutation), *final(has_event_emission)) == or_marks(
            (*old(has_privileged_mutation), *old(has_event_emission)),
            stmts_marks(block@),
        ),
    decreases block,
{
    let ghost start = (*has_privileged_mutation, *has_event_emission);
    let mut i: usize = 0;
    while i < block.len()
        invariant
            i <= block.len(),
            (*has_privileged_mutation, *has_event_emission) == or_marks(
                start,
                stmts_marks(block@.take(i as int)),
            ),
        decreases block.len() - i,
    {
        assert(block@.take(i + 1).drop_last() =~= block@.take(i as int));
        assert(block@.take(i + 1).last() == block@[i as int]);
        let ghost before = (*has_privileged_mutation, *has_event_emission);
        match &block[i] {
            Statement::Expression { expr, .. } => check_expr(expr, has_privileged_mutation, has_event_emission),
            Statement::Local { init: Some(x) } => check_expr(x, has_privileged_mutation, has_event_emission),
            _ => {},
        }
        assert((*has_privileged_mutation, *has_event_emission) == or_marks(before, stmt_marks(block@[i as int])));
        i = i + 1;
    }
    proof {
        lemma_take_full(block@);
    }
}

/// The violation reported for a flagged function.
pub open spec fn missing_event_violation(f: ImplFn) -> ViolationView {
    ViolationView {
        rule_name: "missing_state_event"@,
        severity: Severity::Warning,
        message: "Function '"@ + f.name@ + "' changes privileged state without emitting an event"@,
        location: "line "@ + decimal(f.line as nat),
        suggestion: Some(
            "Add env.events().publish() after state changes for off-chain observability"@,
        ),
    }
}

/// A function is flagged when its name looks privileged and its body writes
/// a privileged storage key without publishing any event.
pub open spec fn missing_event_flagged(f: ImplFn) -> bool {
    &&& privileged_function_name(f.name@)
    &&& stmts_marks(f.body@).0
    &&& !stmts_marks(f.body@).1
}

/// The violations of the rule over a list of functions, in order.
pub open spec fn missing_event_violations(fs: Seq<ImplFn>) -> Seq<ViolationView>
    decreases fs.len(),
{
    if fs.len() == 0 {
        Seq::empty()
    } else {
        let rest = missing_event_violations(fs.drop_last());
        if missing_event_flagged(fs.last()) {
            rest.push(missing_event_violation(fs.last()))
        } else {
            rest
        }
    }
}

/// Rule that detects privileged state changes without event emission.
pub struct MissingStateEventRule;

impl MissingStateEventRule {
    pub fn new() -> (r: Self) {
        MissingStateEventRule
    }
}

impl Default for MissingStateEventRule {
    fn default() -> (r: Self) {
        Self::new()
    }
}

/// The violations of the rule over the functions of a file's `impl`
/// blocks, in order.
pub fn check_impl_functions(fs: &Vec<ImplFn>) -> (r: Vec<RuleViolation>)
    ensures
        violation_views(r@) == missing_event_violations(fs@),
{
    let mut violations: Vec<RuleViolation> = Vec::new();
    let mut i: usize = 0;
    while i < fs.len()
        invariant
            i <= fs.len(),
            violation_views(violations@) == missing_event_violations(fs@.take(i as int)),
        decreases fs.len() - i,
    {
        let f = &fs[i];
        assert(fs@.take(i + 1).drop_last() =~= fs@.take(i as int));
        assert(fs@.take(i + 1).last() == fs@[i as int]);
        if is_privileged_function(f.name.as_str()) {
            let mut has_privileged_mutation = false;
            let mut has_event_emission = false;
            check_function_body(&f.body, &mut has_privileged_mutation, &mut has_event_emission);
            if has_privileged_mutation && !has_event_emission {
                let message = concat3(
                    "Function '",
                    f.name.as_str(),
                    "' changes privileged state without emitting an event",
                );
                let location = text_with_number("line ", f.line);
                let v = RuleViolation::new("missing_state_event", Severity::Warning, message, location)
                    .with_suggestion(
                    String::from_str(
                        "Add env.events().publish() after state changes for off-chain observability",
                    ),
                );
                let ghost old_v = violations@;
                violations.push(v);
                assert(violation_views(violations@) =~= violation_views(old_v).push(v@));
            }
        }
        i = i + 1;
    }
    proof {
        lemma_take_full(fs@);
    }
    violations
}

impl Rule for MissingStateEventRule {
    fn name(&self) -> (r: &str)
        ensures
            r@ == "missing_state_event"@,
    {
        "missing_state_event"
    }

    fn description(&self) -> (r: &str)
        ensures
            r@ == "Detects privileged state changes (admin, pause, upgrade) without event emission"@,
    {
        "Detects privileged state changes (admin, pause, upgrade) without event emission"
    }

    fn check(&self, source: &str) -> (r: Vec<RuleViolation>)
        ensures
            violation_views(r@) == missing_event_violations(parsed_impl_fns(source@)),
    {
        let file = parse_source(source);
        check_impl_functions(&file.functions)
    }

    fn fix(&self, _source: &str) -> (r: Vec<Patch>)
        ensures
            r@.len() == 0,
    {
        Vec::new()
    }
}

/// A name whose lowercase form contains any of the words `admin`, `owner`,
/// `pause`, `unpause`, `upgrade`, `set_auth` or `transfer_ownership` is
/// privileged; a key text whose lowercase form contains `admin`, `owner`,
/// `pause`, `upgrade` or `auth` is privileged.
pub proof fn law_privileged_words(name: Seq<char>, key: Seq<char>)
    ensures
        seq_contains(lowercase_of(name), "admin"@) ==> privileged_function_name(name),
        seq_contains(lowercase_of(name), "owner"@) ==> privileged_function_name(name),
        seq_contains(lowercase_of(name), "pause"@) ==> privileged_function_name(name),
        seq_contains(lowercase_of(name), "unpause"@) ==> privileged_function_name(name),
        seq_contains(lowercase_of(name), "upgrade"@) ==> privileged_function_name(name),
        seq_contains(lowercase_of(name), "set_auth"@) ==> privileged_function_name(name),
        seq_contains(lowercase_of(name), "transfer_ownership"@) ==> privileged_function_name(name),
        seq_contains(lowercase_of(key), "admin"@) ==> privileged_key_text(key),
        seq_contains(lowercase_of(key), "owner"@) ==> privileged_key_text(key),
        seq_contains(lowercase_of(key), "pause"@) ==> privileged_key_text(key),
        seq_contains(lowercase_of(key), "upgrade"@) ==> privileged_key_text(key),
        seq_contains(lowercase_of(key), "auth"@) ==> privileged_key_text(key),
{
}

/// A list of expressions writes a privileged key exactly when one of them
/// does, and publishes an event exactly when one of them does.
proof fn lemma_exprs_marks(s: Seq<Expression>)
    ensures
        exprs_marks(s).0 == exists|k: int| 0 <= k < s.len() && (#[trigger] expr_marks(s[k])).0,
        exprs_marks(s).1 == exists|k: int| 0 <= k < s.len() && (#[trigger] expr_marks(s[k])).1,
    decreases s.len(),
{
    if s.len() > 0 {
        let t = s.drop_last();
        lemma_exprs_marks(t);
        assert forall|k: int| 0 <= k < t.len() implies #[trigger] expr_marks(t[k]) == expr_marks(s[k]) by {}
        assert(expr_marks(s.last()) == expr_marks(s[s.len() - 1]));
        if exprs_marks(s).0 {
            if exprs_marks(t).0 {
                let k = choose|k: int| 0 <= k < t.len() && (#[trigger] expr_marks(t[k])).0;
                assert(expr_marks(s[k]).0);
            }
        }
        if exprs_marks(s).1 {
            if exprs_marks(t).1 {
                let k = choose|k: int| 0 <= k < t.len() && (#[trigger] expr_marks(t[k])).1;
                assert(expr_marks(s[k]).1);
            }
        }
        if exists|k: int| 0 <= k < s.len() && (#[trigger] expr_marks(s[k])).0 {
            let k = choose|k: int| 0 <= k < s.len() && (#[trigger] expr_marks(s[k])).0;
            if k < s.len() - 1 {
                assert(expr_marks(t[k]).0);
            }
        }
        if exists|k: int| 0 <= k < s.len() && (#[trigger] expr_marks(s[k])).1 {
            let k = choose|k: int| 0 <= k < s.len() && (#[trigger] expr_marks(s[k])).1;
            if k < s.len() - 1 {
                assert(expr_marks(t[k]).1);
            }
        }
    }
}

/// A list of statements writes a privileged key exactly when one of them
/// does, and publishes an event exactly when one of them does.
proof fn lemma_stmts_marks(s: Seq<Statement>)
    ensures
        stmts_marks(s).0 == exists|k: int| 0 <= k < s.len() && (#[trigger] stmt_marks(s[k])).0,
        stmts_marks(s).1 == exists|k: int| 0 <= k < s.len() && (#[trigger] stmt_marks(s[k])).1,
    decreases s.len(),
{
    if s.len() > 0 {
        let t = s.drop_last();
        lemma_stmts_marks(t);
        assert forall|k: int| 0 <= k < t.len() implies #[trigger] stmt_marks(t[k]) == stmt_marks(s[k]) by {}
        assert(stmt_marks(s.last()) == stmt_marks(s[s.len() - 1]));
        if stmts_marks(s).0 {
            if stmts_marks(t).0 {
                let k = choose|k: int| 0 <= k < t.len() && (#[trigger] stmt_marks(t[k])).0;
                assert(stmt_marks(s[k]).0);
            }
        }
        if stmts_marks(s).1 {
            if stmts_marks(t).1 {
                let k = choose|k: int| 0 <= k < t.len() && (#[trigger] stmt_marks(t[k])).1;
                assert(stmt_marks(s[k]).1);
            }
        }
        if exists|k: int| 0 <= k < s.len() && (#[trigger] stmt_marks(s[k])).0 {
            let k = choose|k: int| 0 <= k < s.len() && (#[trigger] stmt_marks(s[k])).0;
            if k < s.len() - 1 {
                assert(stmt_marks(t[k]).0);
            }
        }
        if exists|k: int| 0 <= k < s.len() && (#[trigger] stmt_marks(s[k])).1 {
            let k = choose|k: int| 0 <= k < s.len() && (#[trigger] stmt_marks(s[k])).1;
            if k < s.len() - 1 {
                assert(stmt_marks(t[k]).1);
            }
        }
    }
}

/// The rule sees writes and events wherever it walks: a method call that
/// itself writes a privileged key or publishes an event is marked so; and
/// a write or event found in a block's statements, an `if`'s condition,
/// then-branch or else-branch, a `match`'s scrutinee or arms, a method
/// call's receiver or arguments, a call's arguments, or any statement of a
/// list (an expression statement or a `let` initialiser) marks the
/// enclosing code.
pub proof fn law_writes_and_events_are_seen_at_any_depth(e: Expression, st: Statement, body: Seq<Statement>, k: int)
    ensures
        e matches Expression::MethodCall { method, call_text, arg_texts, .. } ==> (call_mutates(
            method@,
            call_text@,
            arg_texts@,
        ) ==> expr_marks(e).0),
        e matches Expression::MethodCall { method, call_text, .. } ==> (call_emits(method@, call_text@)
            ==> expr_marks(e).1),
        e matches Expression::MethodCall { receiver, .. } ==> (expr_marks(*receiver).0 ==> expr_marks(e).0),
        e matches Expression::MethodCall { receiver, .. } ==> (expr_marks(*receiver).1 ==> expr_marks(e).1),
        forall|i: int|
            e is MethodCall && 0 <= i < e->MethodCall_args.len() ==> ((#[trigger] expr_marks(
                e->MethodCall_args@[i],
            )).0 ==> expr_marks(e).0) && (expr_marks(e->MethodCall_args@[i]).1 ==> expr_marks(e).1),
        forall|i: int|
            e is Call && 0 <= i < e->Call_args.len() ==> ((#[trigger] expr_marks(e->Call_args@[i])).0
                ==> expr_marks(e).0) && (expr_marks(e->Call_args@[i]).1 ==> expr_marks(e).1),
        e matches Expression::Block { stmts } ==> (stmts_marks(stmts@).0 ==> expr_marks(e).0) && (stmts_marks(
            stmts@,
        ).1 ==> expr_marks(e).1),
        e matches Expression::If { cond, .. } ==> (expr_marks(*cond).0 ==> expr_marks(e).0) && (expr_marks(
            *cond,
        ).1 ==> expr_marks(e).1),
        e matches Expression::If { then_branch, .. } ==> (stmts_marks(then_branch@).0 ==> expr_marks(e).0)
            && (stmts_marks(then_branch@).1 ==> expr_marks(e).1),
        e matches Expression::If { else_branch: Some(y), .. } ==> (expr_marks(*y).0 ==> expr_marks(e).0) && (
        expr_marks(*y).1 ==> expr_marks(e).1),
        e matches Expression::Match { scrutinee, .. } ==> (expr_marks(*scrutinee).0 ==> expr_marks(e).0) && (
        expr_marks(*scrutinee).1 ==> expr_marks(e).1),
        forall|i: int|
            e is Match && 0 <= i < e->arms.len() ==> ((#[trigger] expr_marks(e->arms@[i])).0 ==> expr_marks(
                e,
            ).0) && (expr_marks(e->arms@[i]).1 ==> expr_marks(e).1),
        st matches Statement::Expression { expr, .. } ==> stmt_marks(st) == expr_marks(expr),
        st matches Statement::Local { init: Some(y) } ==> stmt_marks(st) == expr_marks(y),
        0 <= k < body.len() ==> (stmt_marks(body[k]).0 ==> stmts_marks(body).0) && (stmt_marks(body[k]).1
            ==> stmts_marks(body).1),
{
    lemma_stmts_marks(body);
    match e {
        Expression::MethodCall { args, .. } => {
            lemma_exprs_marks(args@);
        },
        Expression::Call { args, .. } => {
            lemma_exprs_marks(args@);
        },
        Expression::Match { arms, .. } => {
            lemma_exprs_marks(arms@);
        },
        _ => {},
    }
}

/// A function whose name looks privileged, whose body writes a privileged
/// key and which publishes no event is reported, with its name and line.
pub proof fn law_silent_privileged_writers_are_reported(fs: Seq<ImplFn>, j: int)
    requires
        0 <= j < fs.len(),
        privileged_function_name(fs[j].name@),
        stmts_marks(fs[j].body@).0,
        !stmts_marks(fs[j].body@).1,
    ensures
        missing_event_violations(fs).contains(missing_event_violation(fs[j])),
    decreases fs.len(),
{
    if j < fs.len() - 1 {
        law_silent_privileged_writers_are_reported(fs.drop_last(), j);
        let r = missing_event_violations(fs.drop_last());
        let i = choose|i: int| 0 <= i < r.len() && r[i] == missing_event_violation(fs[j]);
        if missing_event_flagged(fs.last()) {
            assert(r.push(missing_event_violation(fs.last()))[i] == r[i]);
        }
    } else {
        let r = missing_event_violations(fs.drop_last());
        assert(r.push(missing_event_violation(fs.last()))[r.len() as int] == missing_event_violation(fs[j]));
    }
}

/// A function is reported only when its name looks privileged and its body
/// publishes no event: publishing an event, or a name without a privileged
/// word, keeps it out of the report, whatever else it does.
pub proof fn law_only_silent_privileged_functions_are_reported(fs: Seq<ImplFn>)
    ensures
        missing_event_violations(fs).len() <= fs.len(),
        (forall|i: int|
            0 <= i < fs.len() ==> (stmts_marks(#[trigger] fs[i].body@).1 || !privileged_function_name(
                fs[i].name@,
            ))) ==> missing_event_violations(fs).len() == 0,
    decreases fs.len(),
{
    if fs.len() > 0 {
        law_only_silent_privileged_functions_are_reported(fs.drop_last());
        if forall|i: int|
            0 <= i < fs.len() ==> (stmts_marks(#[trigger] fs[i].body@).1 || !privileged_function_name(
                fs[i].name@,
            )) {
            assert forall|i: int| 0 <= i < fs.drop_last().len() implies (stmts_marks(
                #[trigger] fs.drop_last()[i].body@,
            ).1 || !privileged_function_name(fs.drop_last()[i].name@)) by {
                assert(fs.drop_last()[i] == fs[i]);
            }
            assert(stmts_marks(fs[fs.len() - 1].body@).1 || !privileged_function_name(fs[fs.len() - 1].name@));
        }
    }
}

} // verus!
