//! The part of a parsed Rust source file that the rules read.
//!
//! A file is parsed with `syn` into its items; the rules read the functions
//! of its `impl` blocks. Within their bodies they look at statements, calls,
//! method calls, paths, blocks, `if`, `match`, references, parentheses and
//! groups; every other expression is `Expression::Other`. Lines are 1-based
//! source lines, and token texts are `syn`'s token streams as strings.
use vstd::prelude::*;
use quote::ToTokens;
use syn::spanned::Spanned;

verus! {

/// An expression.
#[verifier::ext_equal]
pub enum Expression {
    /// `func(args..)`.
    Call {
        func: Box<Expression>,
        args: Vec<Expression>,
        /// The token text of each argument.
        arg_texts: Vec<String>,
        line: usize,
    },
    /// `receiver.method(args..)`.
    MethodCall {
        receiver: Box<Expression>,
        method: String,
        args: Vec<Expression>,
        /// The token text of the receiver expression.
        receiver_text: String,
        /// The token text of the whole call followed by ` . receiver`: the
        /// text in which the storage and event checks look for `storage` and
        /// `events`.
        call_text: String,
        /// The token text of each argument.
        arg_texts: Vec<String>,
        line: usize,
    },
    /// A path such as `token::Client`, by its segments' identifiers.
    Path { segments: Vec<String> },
    /// `{ stmts.. }`.
    Block { stmts: Vec<Statement> },
    /// `if cond { then_branch } else else_branch`.
    If { cond: Box<Expression>, then_branch: Vec<Statement>, else_branch: Option<Box<Expression>> },
    /// `match scrutinee { .. }`, by the bodies of its arms.
    Match { scrutinee: Box<Expression>, arms: Vec<Expression> },
    /// `&inner` or `&mut inner`.
    Reference { inner: Box<Expression> },
    /// `(inner)`.
    Paren { inner: Box<Expression> },
    /// An invisible group around `inner`.
    Group { inner: Box<Expression> },
    /// Any other expression.
    Other,
}

/// A statement.
#[verifier::ext_equal]
pub enum Statement {
    /// An expression statement, with or without a trailing semicolon.
    Expression { expr: Expression, semi: bool },
    /// `let pat = init;`, by its initialiser.
    Local { init: Option<Expression> },
    /// An item or macro statement.
    Other,
}

/// A function defined in an `impl` block.
pub struct ImplFn {
    pub name: String,
    /// Line of the function's signature.
    pub line: usize,
    pub body: Vec<Statement>,
}

/// An item of an `impl` block.
pub enum ImplMember {
    /// A function.
    Fn(ImplFn),
    /// A constant, type, macro or other item.
    Other,
}

/// A top-level item of a file.
pub enum FileItem {
    /// An `impl` block, by its items.
    Impl { items: Vec<ImplMember> },
    /// Any other item.
    Other,
}

/// A source file: its text, and the functions of its `impl` blocks in order
/// (none where the text does not parse as a Rust file).
pub struct SourceFile {
    pub text: String,
    pub functions: Vec<ImplFn>,
}

/// The items that `syn` parses from `text`, each in the model above;
/// `None` where `text` is not a Rust file.
pub uninterp spec fn parsed_items(text: Seq<char>) -> Option<Seq<FileItem>>;

#[verifier::external_type_specification]
#[verifier::external_body]
pub struct ExSynItem(syn::Item);

#[verifier::external_type_specification]
#[verifier::external_body]
pub struct ExSynImplItem(syn::ImplItem);

#[verifier::external_type_specification]
#[verifier::external_body]
pub struct ExSynBlock(syn::Block);

#[verifier::external_type_specification]
#[verifier::external_body]
pub struct ExSynStmt(syn::Stmt);

#[verifier::external_type_specification]
#[verifier::external_body]
pub struct ExSynExpr(syn::Expr);

/// `syn::parse_str::<syn::File>`: the file's items in the model, or `None`
/// when the text does not parse; the result is named by `parsed_items`.
#[verifier::external_body]
fn parse_items(text: &str) -> (r: Option<Vec<FileItem>>)
    ensures
        match r {
            Some(v) => parsed_items(text@) == Some(v@),
            None => parsed_items(text@) is None,
        },
{
    match syn::parse_str::<syn::File>(text) {
        Ok(file) => Some(file.items.iter().map(item_model).collect()),
        Err(_) => None,
    }
}

/// A `syn` item in the model: an `impl` block by its items.
#[verifier::external_body]
fn item_model(item: &syn::Item) -> FileItem {
    match item {
        syn::Item::Impl(imp) => FileItem::Impl { items: imp.items.iter().map(impl_item_model).collect() },
        _ => FileItem::Other,
    }
}

/// A `syn` item of an `impl` block in the model: a function by its name,
/// the line of its signature and its body.
#[verifier::external_body]
fn impl_item_model(item: &syn::ImplItem) -> ImplMember {
    match item {
        syn::ImplItem::Fn(f) => ImplMember::Fn(
            ImplFn { name: f.sig.ident.to_string(), line: f.sig.span().start().line, body: block_model(&f.block) },
        ),
        _ => ImplMember::Other,
    }
}

/// The statements of a `syn` block in the model.
#[verifier::external_body]
fn block_model(block: &syn::Block) -> Vec<Statement> {
    block.stmts.iter().map(stmt_model).collect()
}

/// A `syn` statement in the model.
#[verifier::external_body]
fn stmt_model(stmt: &syn::Stmt) -> Statement {
    match stmt {
        syn::Stmt::Expr(e, semi) => Statement::Expression { expr: expr_model(e), semi: semi.is_some() },
        syn::Stmt::Local(l) => Statement::Local { init: l.init.as_ref().map(|i| expr_model(&i.expr)) },
        _ => Statement::Other,
    }
}

/// A `syn` expression in the model: calls, method calls, paths, blocks and
/// `if` here, the others in `nested_expr_model`.
#[verifier::external_body]
fn expr_model(e: &syn::Expr) -> Expression {
    match e {
        syn::Expr::Call(c) => call_model(e, &c.func, c.args.iter().collect()),
        syn::Expr::MethodCall(m) => method_call_model(e, &m.receiver, m.method.to_string(), m.args.iter().collect()),
        syn::Expr::Path(p) => Expression::Path { segments: p.path.segments.iter().map(|g| g.ident.to_string()).collect() },
        syn::Expr::Block(b) => Expression::Block { stmts: block_model(&b.block) },
        syn::Expr::If(i) => if_model(&i.cond, &i.then_branch, i.else_branch.as_ref().map(|x| &*x.1)),
        _ => nested_expr_model(e),
    }
}

/// A `syn` `match`, reference, parenthesised or grouped expression in the
/// model; any other expression is `Other`.
#[verifier::external_body]
fn nested_expr_model(e: &syn::Expr) -> Expression {
    match e {
        syn::Expr::Match(m) => Expression::Match { scrutinee: Box::new(expr_model(&m.expr)), arms: m.arms.iter().map(|a| expr_model(&a.body)).collect() },
        syn::Expr::Reference(r) => Expression::Reference { inner: Box::new(expr_model(&r.expr)) },
        syn::Expr::Paren(p) => Expression::Paren { inner: Box::new(expr_model(&p.expr)) },
        syn::Expr::Group(g) => Expression::Group { inner: Box::new(expr_model(&g.expr)) },
        _ => Expression::Other,
    }
}

/// A call in the model: `call` is the whole call, `func` and `args` its
/// parts.
#[verifier::external_body]
fn call_model(call: &syn::Expr, func: &syn::Expr, args: Vec<&syn::Expr>) -> Expression {
    Expression::Call {
        func: Box::new(expr_model(func)),
        args: args.iter().map(|a| expr_model(a)).collect(),
        arg_texts: args.iter().map(|a| tokens_of(a)).collect(),
        line: line_of(call),
    }
}

/// A method call in the model: `call` is the whole call, the others its
/// parts.
#[verifier::external_body]
fn method_call_model(call: &syn::Expr, receiver: &syn::Expr, method: String, args: Vec<&syn::Expr>) -> Expression {
    Expression::MethodCall {
        receiver: Box::new(expr_model(receiver)),
        method,
        args: args.iter().map(|a| expr_model(a)).collect(),
        receiver_text: tokens_of(receiver),
        call_text: call_text_of(call),
        arg_texts: args.iter().map(|a| tokens_of(a)).collect(),
        line: line_of(call),
    }
}

/// An `if` in the model.
#[verifier::external_body]
fn if_model(cond: &syn::Expr, then_branch: &syn::Block, else_branch: Option<&syn::Expr>) -> Expression {
    Expression::If {
        cond: Box::new(expr_model(cond)),
        then_branch: block_model(then_branch),
        else_branch: else_branch.map(|x| Box::new(expr_model(x))),
    }
}

/// The token text of an expression (`ToTokens::to_token_stream`).
#[verifier::external_body]
fn tokens_of(e: &syn::Expr) -> String {
    e.to_token_stream().to_string()
}

/// The token text of a call followed by ` . receiver`, as the token stream
/// of the call with the tokens `.` and `receiver` appended prints it.
#[verifier::external_body]
fn call_text_of(e: &syn::Expr) -> String {
    format!("{} . receiver", e.to_token_stream())
}

/// The 1-based line on which an expression starts.
#[verifier::external_body]
fn line_of(e: &syn::Expr) -> usize {
    e.span().start().line
}

/// The functions among the items of an `impl` block, in order.
pub open spec fn impl_item_fns(s: Seq<ImplMember>) -> Seq<ImplFn>
    decreases s.len(),
{
    if s.len() == 0 {
        Seq::empty()
    } else {
        let rest = impl_item_fns(s.drop_first());
        match s[0] {
            ImplMember::Fn(f) => seq![f] + rest,
            ImplMember::Other => rest,
        }
    }
}

/// The functions of the `impl` blocks among `s`, in order.
pub open spec fn item_fns(s: Seq<FileItem>) -> Seq<ImplFn>
    decreases s.len(),
{
    if s.len() == 0 {
        Seq::empty()
    } else {
        let here = match s[0] {
            FileItem::Impl { items } => impl_item_fns(items@),
            FileItem::Other => Seq::empty(),
        };
        here + item_fns(s.drop_first())
    }
}

/// The functions of the `impl` blocks of `text`, in order; none where the
/// text is not a Rust file.
pub open spec fn parsed_impl_fns(text: Seq<char>) -> Seq<ImplFn> {
    match parsed_items(text) {
        Some(items) => item_fns(items),
        None => Seq::empty(),
    }
}

/// Parses `text`: the file's text and the functions of its `impl` blocks.
pub fn parse_source(text: &str) -> (r: SourceFile)
    ensures
        r.text@ == text@,
        r.functions@ == parsed_impl_fns(text@),
{
    let mut functions: Vec<ImplFn> = Vec::new();
    match parse_items(text) {
        Some(mut items) => {
            let ghost all = items@;
            while items.len() > 0
                invariant
                    functions@ + item_fns(items@) == item_fns(all),
                decreases items.len(),
            {
                let ghost before = items@;
                let item = items.remove(0);
                assert(before.drop_first() =~= items@);
                match item {
                    FileItem::Impl { items: mut inner } => {
                        let ghost outer = functions@;
                        let ghost inner_all = inner@;
                        while inner.len() > 0
                            invariant
                                functions@ + impl_item_fns(inner@) == outer + impl_item_fns(inner_all),
                            decreases inner.len(),
                        {
                            let ghost ib = inner@;
                            let ii = inner.remove(0);
                            assert(ib.drop_first() =~= inner@);
                            match ii {
                                ImplMember::Fn(f) => {
                                    let ghost fb = functions@;
                                    functions.push(f);
                                    assert(fb + impl_item_fns(ib) =~= functions@ + impl_item_fns(inner@));
                                },
                                ImplMember::Other => {},
                            }
                        }
                        assert(impl_item_fns(inner@) =~= Seq::<ImplFn>::empty());
                        assert(functions@ =~= outer + impl_item_fns(inner_all));
                        assert(outer + item_fns(before) =~= functions@ + item_fns(items@));
                    },
                    FileItem::Other => {
                        assert(functions@ + item_fns(before) =~= functions@ + item_fns(items@));
                    },
                }
            }
            assert(item_fns(items@) =~= Seq::<ImplFn>::empty());
            assert(functions@ =~= item_fns(all));
        },
        None => {},
    }
    SourceFile { text: String::from_str(text), functions }
}

} // verus!
