//! Attaching source locations to the errors a function returns.
//!
//! A function body is held as a small syntax tree. Rewriting a function
//! that returns a value wraps the operand of every `?`, the value of every
//! `return` and the function's final expression so that an error passing
//! through it gets the context `at <file>:<line>:<column>, <name>()`,
//! unless that operand is an `Ok(..)` constructor or a macro call. Macro
//! calls are left alone but for four: `trace_here!()` becomes the location
//! text itself; `trace_error!(context, error)` becomes the error with the
//! location and then the context added; `trace_fmt!(context, error)` the
//! debug text of that; `fmt_error!(error)` the debug text of the error.
//! Functions that return nothing only get these macros replaced.
use vstd::prelude::*;

use crate::kit::text::str_eq;
use crate::proto::json::{dec_nat, push_dec_u64};

verus! {

/// A position in a source file.
#[derive(Clone, Copy, Debug, PartialEq, Eq, Structural)]
pub struct Span {
    pub line: u32,
    pub column: u32,
}

/// A place in the program: file, position and enclosing function.
#[derive(Clone, Debug, PartialEq)]
pub struct Site {
    pub file: String,
    pub span: Span,
    pub fn_name: String,
}

/// An expression, with the position where it starts.
#[derive(Debug, PartialEq)]
pub struct Expr {
    pub kind: ExprKind,
    pub span: Span,
}

#[derive(Debug, PartialEq)]
pub enum ExprKind {
    /// `()`
    Unit,
    Bool(bool),
    /// a string literal
    Str(String),
    /// a local variable
    Var(String),
    /// `None`
    NoneValue,
    /// a call `path(arg)` with at most one argument, by the last segment of
    /// the path (`Ok`, `Err`, `Some`, `msg` of `Error::msg`, or a function
    /// of the program)
    Call(String, Option<Box<Expr>>),
    /// `receiver.method(|| arg)`, such as `with_context` and `context`
    Method(Box<Expr>, String, Box<Expr>),
    /// `operand?`, with the position of the `?`
    Try(Box<Expr>, Span),
    /// `return` with its value, with the position of the `return`
    Return(Option<Box<Expr>>, Span),
    /// `if cond { .. } else { .. }`
    If(Box<Expr>, Box<Block>, Box<Block>),
    Block(Box<Block>),
    /// `loop { .. }`
    Loop(Box<Block>),
    /// a macro call by the last segment of its path, with what it stands
    /// for
    Macro(String, Box<Expr>),
    /// the location text of a site, as `trace_here!()` becomes
    Located(Site),
    /// `(operand).with_context(|| <location text of the site>)`, as
    /// rewriting wraps an operand
    Traced(Box<Expr>, Site),
    /// `trace_error!(context, error)`
    TraceError(Box<Expr>, Box<Expr>),
    /// `trace_error!(error)`
    TraceErrorAt(Box<Expr>),
    /// `trace_fmt!(context, error)`
    TraceFmt(Box<Expr>, Box<Expr>),
    /// `fmt_error!(error)`
    FmtError(Box<Expr>),
    /// `(error).context(context)`
    Context(Box<Expr>, Box<Expr>),
    /// `format_args!("{:?}", value)`: the debug text of a value
    DebugText(Box<Expr>),
}

/// The statements of a block, first to last.
#[derive(Debug, PartialEq)]
pub enum Block {
    End,
    Then(Box<Stmt>, Box<Block>),
}

#[derive(Debug, PartialEq)]
pub enum Stmt {
    /// `let name = value;`
    Local(String, Expr),
    /// an expression, followed by `;` when the flag is set
    Expr(Expr, bool),
    /// `use ::anyhow::Context;`, which brings the methods `context` and
    /// `with_context` into scope
    UseContext,
}

/// A function of the program.
#[derive(Debug, PartialEq)]
pub struct ItemFn {
    pub name: String,
    /// whether the signature names a return type
    pub has_output: bool,
    pub body: Block,
}

/// What the rewriting of one function needs to know.
#[derive(Clone, Debug)]
pub struct Tracer {
    pub file: String,
    pub fn_name: String,
    /// whether results are traced (the function returns a value)
    pub enable: bool,
}

/// The context text of a location: `at <file>:<line>:<column>, <name>()`.
pub open spec fn location(file: Seq<char>, span: Span, name: Seq<char>) -> Seq<char> {
    "at "@ + file + ":"@ + dec_nat(span.line as nat) + ":"@ + dec_nat(span.column as nat) + ", "@ + name
        + "()"@
}

pub open spec fn site_text(s: Site) -> Seq<char> {
    location(s.file@, s.span, s.fn_name@)
}

pub fn location_text(site: &Site) -> (r: String)
    ensures
        r@ == site_text(*site),
{
    let mut out = "at ".to_owned();
    out.append(site.file.as_str());
    out.append(":");
    push_dec_u64(site.span.line as u64, &mut out);
    out.append(":");
    push_dec_u64(site.span.column as u64, &mut out);
    out.append(", ");
    out.append(site.fn_name.as_str());
    out.append("()");
    assert(out@ =~= site_text(*site));
    out
}

/// Whether a macro name contains `select`.
pub open spec fn is_select_name(name: Seq<char>) -> bool {
    exists|i: int| 0 <= i <= name.len() - 6 && #[trigger] name.subrange(i, i + 6) == "select"@
}

/// Whether the last segment of a macro's path contains `select`.
pub fn is_select_macro(name: &str) -> (r: bool)
    ensures
        r == is_select_name(name@),
{
    let n = name.unicode_len();
    let pat = "select";
    if n < 6 {
        return false;
    }
    let mut i: usize = 0;
    while i <= n - 6
        invariant
            n == name@.len(),
            n >= 6,
            i <= n - 5,
            pat@ == "select"@,
            forall|k: int| 0 <= k < i ==> #[trigger] name@.subrange(k, k + 6) != "select"@,
        decreases n - 5 - i,
    {
        let part = name.substring_char(i, i + 6);
        if str_eq(part, pat) {
            assert(name@.subrange(i as int, i + 6) == "select"@);
            return true;
        }
        i = i + 1;
    }
    false
}

/// Whether an expression is an `Ok(..)` constructor.
pub open spec fn is_ok_call(e: Expr) -> bool {
    e.kind matches ExprKind::Call(name, _) && name@ == "Ok"@
}

pub fn is_ok_constructor(e: &Expr) -> (r: bool)
    ensures
        r == is_ok_call(*e),
{
    match &e.kind {
        ExprKind::Call(name, _) => str_eq(name.as_str(), "Ok"),
        _ => false,
    }
}

/// The site of position `span` in the function being rewritten.
pub open spec fn site_of(t: Tracer, span: Span) -> Site {
    Site { file: t.file, span, fn_name: t.fn_name }
}

/// `(error).context(<location of span>)`, what `trace_error!(error)` at
/// `span` becomes.
pub open spec fn located_error(t: Tracer, x: Expr, span: Span) -> Expr {
    Expr {
        kind: ExprKind::Context(Box::new(x), Box::new(Expr { kind: ExprKind::Located(site_of(t, span)), span })),
        span,
    }
}

/// `(error).context(<location of span>).context(context)`, what
/// `trace_error!(context, error)` at `span` becomes.
pub open spec fn traced_error(t: Tracer, c: Expr, x: Expr, span: Span) -> Expr {
    Expr { kind: ExprKind::Context(Box::new(located_error(t, x, span)), Box::new(c)), span }
}

/// A macro call that rewriting replaces.
pub open spec fn is_replaced_macro(e: Expr) -> bool {
    ||| e.kind is Macro
    ||| e.kind is TraceError
    ||| e.kind is TraceErrorAt
    ||| e.kind is TraceFmt
    ||| e.kind is FmtError
}

/// A `select!`-like macro call: rewriting goes into the bodies of its
/// branches and leaves the call itself in place.
pub open spec fn is_select(e: Expr) -> bool {
    e.kind matches ExprKind::Macro(n, _) && is_select_name(n@)
}

/// A macro call, as written or as a replacement produced it (a location
/// text or a debug text).
pub open spec fn is_macro_call(e: Expr) -> bool {
    is_replaced_macro(e) || e.kind is Located || e.kind is DebugText
}

/// A macro call after rewriting: `trace_here!()` becomes the location
/// text of its position, `trace_error!`, `trace_fmt!` and `fmt_error!`
/// what the module documentation says (their arguments as they are);
/// other macros stay as they are.
pub open spec fn replace_macro(t: Tracer, e: Expr) -> Expr {
    match e.kind {
        ExprKind::Macro(name, _) => if name@ == "trace_here"@ {
            Expr { kind: ExprKind::Located(site_of(t, e.span)), span: e.span }
        } else {
            e
        },
        ExprKind::TraceError(c, x) => traced_error(t, *c, *x, e.span),
        ExprKind::TraceErrorAt(x) => located_error(t, *x, e.span),
        ExprKind::TraceFmt(c, x) => Expr {
            kind: ExprKind::DebugText(Box::new(traced_error(t, *c, *x, e.span))),
            span: e.span,
        },
        ExprKind::FmtError(x) => Expr { kind: ExprKind::DebugText(x), span: e.span },
        _ => e,
    }
}

/// An operand after rewriting, traced at `span`: macro calls are only
/// replaced; otherwise, when results are traced, every operand but an
/// `Ok(..)` constructor gets the location context.
pub open spec fn attach_at(t: Tracer, e: Expr, span: Span) -> Expr {
    if is_macro_call(e) {
        replace_macro(t, e)
    } else if !t.enable || is_ok_call(e) {
        e
    } else {
        Expr { kind: ExprKind::Traced(Box::new(e), site_of(t, span)), span: e.span }
    }
}

/// An expression after rewriting, from the inside out: operands of `?`
/// are traced at the `?`, values of `return` at the `return`, macro calls
/// replaced.
pub open spec fn fold_expr(t: Tracer, e: Expr) -> Expr
    decreases e,
{
    let kind = match e.kind {
        ExprKind::Call(n, Some(a)) => ExprKind::Call(n, Some(Box::new(fold_expr(t, *a)))),
        ExprKind::Method(r, m, a) => ExprKind::Method(
            Box::new(fold_expr(t, *r)),
            m,
            Box::new(fold_expr(t, *a)),
        ),
        ExprKind::Try(x, q) => ExprKind::Try(Box::new(attach_at(t, fold_expr(t, *x), q)), q),
        ExprKind::Return(Some(x), s) => ExprKind::Return(Some(Box::new(attach_at(t, fold_expr(t, *x), s))), s),
        ExprKind::If(c, b1, b2) => ExprKind::If(
            Box::new(fold_expr(t, *c)),
            Box::new(fold_block(t, *b1)),
            Box::new(fold_block(t, *b2)),
        ),
        ExprKind::Block(b) => ExprKind::Block(Box::new(fold_block(t, *b))),
        ExprKind::Loop(b) => ExprKind::Loop(Box::new(fold_block(t, *b))),
        ExprKind::Traced(x, s) => ExprKind::Traced(Box::new(fold_expr(t, *x)), s),
        ExprKind::Context(x, c) => ExprKind::Context(Box::new(fold_expr(t, *x)), Box::new(fold_expr(t, *c))),
        ExprKind::Macro(n, x) => if is_select_name(n@) {
            ExprKind::Macro(n, Box::new(fold_expr(t, *x)))
        } else {
            ExprKind::Macro(n, x)
        },
        k => k,
    };
    if is_replaced_macro(e) && !is_select(e) {
        replace_macro(t, e)
    } else {
        Expr { kind, span: e.span }
    }
}

pub open spec fn fold_stmt(t: Tracer, s: Stmt) -> Stmt
    decreases s,
{
    match s {
        Stmt::Local(n, e) => Stmt::Local(n, fold_expr(t, e)),
        Stmt::Expr(e, semi) => Stmt::Expr(fold_expr(t, e), semi),
        Stmt::UseContext => Stmt::UseContext,
    }
}

pub open spec fn fold_block(t: Tracer, b: Block) -> Block
    decreases b,
{
    match b {
        Block::End => Block::End,
        Block::Then(s, rest) => Block::Then(Box::new(fold_stmt(t, *s)), Box::new(fold_block(t, *rest))),
    }
}

/// The final statement after rewriting: an expression other than a
/// `return` or a `loop` is traced at its own position.
pub open spec fn attach_last(t: Tracer, s: Stmt) -> Stmt {
    match s {
        Stmt::Expr(e, semi) => if e.kind is Return || e.kind is Loop {
            s
        } else {
            Stmt::Expr(attach_at(t, e, e.span), semi)
        },
        _ => s,
    }
}

/// A block with its final statement rewritten by `attach_last`.
pub open spec fn attach_last_of(t: Tracer, b: Block) -> Block
    decreases b,
{
    match b {
        Block::End => Block::End,
        Block::Then(s, rest) => if *rest is End {
            Block::Then(Box::new(attach_last(t, *s)), rest)
        } else {
            Block::Then(s, Box::new(attach_last_of(t, *rest)))
        },
    }
}

/// The rewriting of a function's body: `use ::anyhow::Context;` first,
/// then the folded statements, the final one traced.
pub open spec fn rewrite_body(t: Tracer, body: Block) -> Block {
    attach_last_of(t, Block::Then(Box::new(Stmt::UseContext), Box::new(fold_block(t, body))))
}

fn attach_at_exec(t: &Tracer, e: Expr, span: Span) -> (r: Expr)
    ensures
        r == attach_at(*t, e, span),
{
    let macro_call = match &e.kind {
        ExprKind::Macro(_, _) | ExprKind::TraceError(_, _) | ExprKind::TraceErrorAt(_)
        | ExprKind::TraceFmt(_, _) | ExprKind::FmtError(_) | ExprKind::Located(_)
        | ExprKind::DebugText(_) => true,
        _ => false,
    };
    if macro_call {
        return replace_macro_exec(t, e);
    }
    if !t.enable || is_ok_constructor(&e) {
        e
    } else {
        let site = Site { file: t.file.clone(), span, fn_name: t.fn_name.clone() };
        let s = e.span;
        Expr { kind: ExprKind::Traced(Box::new(e), site), span: s }
    }
}

fn traced_error_exec(t: &Tracer, c: Expr, x: Expr, span: Span) -> (r: Expr)
    ensures
        r == traced_error(*t, c, x, span),
{
    let inner = located_error_exec(t, x, span);
    Expr { kind: ExprKind::Context(Box::new(inner), Box::new(c)), span }
}

fn located_error_exec(t: &Tracer, x: Expr, span: Span) -> (r: Expr)
    ensures
        r == located_error(*t, x, span),
{
    let site = Site { file: t.file.clone(), span, fn_name: t.fn_name.clone() };
    let loc = Expr { kind: ExprKind::Located(site), span };
    Expr { kind: ExprKind::Context(Box::new(x), Box::new(loc)), span }
}

fn replace_macro_exec(t: &Tracer, e: Expr) -> (r: Expr)
    ensures
        r == replace_macro(*t, e),
{
    let span = e.span;
    match e.kind {
        ExprKind::Macro(name, x) => {
            if str_eq(name.as_str(), "trace_here") {
                let site = Site { file: t.file.clone(), span, fn_name: t.fn_name.clone() };
                Expr { kind: ExprKind::Located(site), span }
            } else {
                Expr { kind: ExprKind::Macro(name, x), span }
            }
        },
        ExprKind::TraceError(c, x) => traced_error_exec(t, *c, *x, span),
        ExprKind::TraceErrorAt(x) => located_error_exec(t, *x, span),
        ExprKind::TraceFmt(c, x) => {
            let inner = traced_error_exec(t, *c, *x, span);
            Expr { kind: ExprKind::DebugText(Box::new(inner)), span }
        },
        ExprKind::FmtError(x) => Expr { kind: ExprKind::DebugText(x), span },
        k => Expr { kind: k, span },
    }
}

pub fn fold_expr_exec(t: &Tracer, e: Expr) -> (r: Expr)
    ensures
        r == fold_expr(*t, e),
    decreases e,
{
    let replaced = match &e.kind {
        ExprKind::Macro(n, _) => !is_select_macro(n.as_str()),
        ExprKind::TraceError(_, _) | ExprKind::TraceErrorAt(_) | ExprKind::TraceFmt(_, _)
        | ExprKind::FmtError(_) => true,
        _ => false,
    };
    if replaced {
        return replace_macro_exec(t, e);
    }
    let span = e.span;
    let kind = match e.kind {
        ExprKind::Call(n, Some(a)) => ExprKind::Call(n, Some(Box::new(fold_expr_exec(t, *a)))),
        ExprKind::Method(r, m, a) => ExprKind::Method(
            Box::new(fold_expr_exec(t, *r)),
            m,
            Box::new(fold_expr_exec(t, *a)),
        ),
        ExprKind::Try(x, q) => {
            let inner = fold_expr_exec(t, *x);
            ExprKind::Try(Box::new(attach_at_exec(t, inner, q)), q)
        },
        ExprKind::Return(Some(x), s) => {
            let inner = fold_expr_exec(t, *x);
            ExprKind::Return(Some(Box::new(attach_at_exec(t, inner, s))), s)
        },
        ExprKind::If(c, b1, b2) => ExprKind::If(
            Box::new(fold_expr_exec(t, *c)),
            Box::new(fold_block_exec(t, *b1)),
            Box::new(fold_block_exec(t, *b2)),
        ),
        ExprKind::Block(b) => ExprKind::Block(Box::new(fold_block_exec(t, *b))),
        ExprKind::Loop(b) => ExprKind::Loop(Box::new(fold_block_exec(t, *b))),
        ExprKind::Traced(x, s) => ExprKind::Traced(Box::new(fold_expr_exec(t, *x)), s),
        ExprKind::Context(x, c) => ExprKind::Context(
            Box::new(fold_expr_exec(t, *x)),
            Box::new(fold_expr_exec(t, *c)),
        ),
        ExprKind::Macro(n, x) => ExprKind::Macro(n, Box::new(fold_expr_exec(t, *x))),
        k => k,
    };
    Expr { kind, span }
}

pub fn fold_stmt_exec(t: &Tracer, s: Stmt) -> (r: Stmt)
    ensures
        r == fold_stmt(*t, s),
    decreases s,
{
    match s {
        Stmt::Local(n, e) => Stmt::Local(n, fold_expr_exec(t, e)),
        Stmt::Expr(e, semi) => Stmt::Expr(fold_expr_exec(t, e), semi),
        Stmt::UseContext => Stmt::UseContext,
    }
}

pub fn fold_block_exec(t: &Tracer, b: Block) -> (r: Block)
    ensures
        r == fold_block(*t, b),
    decreases b,
{
    match b {
        Block::End => Block::End,
        Block::Then(s, rest) => Block::Then(
            Box::new(fold_stmt_exec(t, *s)),
            Box::new(fold_block_exec(t, *rest)),
        ),
    }
}

fn attach_last_exec(t: &Tracer, s: Stmt) -> (r: Stmt)
    ensures
        r == attach_last(*t, s),
{
    match s {
        Stmt::Expr(e, semi) => {
            let keep = match &e.kind {
                ExprKind::Return(_, _) => true,
                ExprKind::Loop(_) => true,
                _ => false,
            };
            if keep {
                Stmt::Expr(e, semi)
            } else {
                let span = e.span;
                Stmt::Expr(attach_at_exec(t, e, span), semi)
            }
        },
        other => other,
    }
}

fn attach_last_of_exec(t: &Tracer, b: Block) -> (r: Block)
    ensures
        r == attach_last_of(*t, b),
    decreases b,
{
    match b {
        Block::End => Block::End,
        Block::Then(s, rest) => {
            let last = match &*rest {
                Block::End => true,
                _ => false,
            };
            if last {
                Block::Then(Box::new(attach_last_exec(t, *s)), rest)
            } else {
                Block::Then(s, Box::new(attach_last_of_exec(t, *rest)))
            }
        },
    }
}

/// Rewrites a function of file `file` so that errors leaving it carry the
/// locations they pass through, as `rewrite_body` says; whether results
/// are traced depends on the function naming a return type.
pub fn attach_function(f: ItemFn, file: String) -> (r: ItemFn)
    ensures
        r.name == f.name,
        r.has_output == f.has_output,
        r.body == rewrite_body(Tracer { file, fn_name: f.name, enable: f.has_output }, f.body),
{
    let t = Tracer { file, fn_name: f.name.clone(), enable: f.has_output };
    let folded = fold_block_exec(&t, f.body);
    let body = attach_last_of_exec(&t, Block::Then(Box::new(Stmt::UseContext), Box::new(folded)));
    ItemFn { name: f.name, has_output: f.has_output, body }
}


/// An expression holds no location context.
pub open spec fn untraced_expr(e: Expr) -> bool
    decreases e,
{
    match e.kind {
        ExprKind::Call(_, Some(a)) => untraced_expr(*a),
        ExprKind::Method(r, _, a) => untraced_expr(*r) && untraced_expr(*a),
        ExprKind::Try(x, _) => untraced_expr(*x),
        ExprKind::Return(Some(x), _) => untraced_expr(*x),
        ExprKind::If(c, b1, b2) => untraced_expr(*c) && untraced_block(*b1) && untraced_block(*b2),
        ExprKind::Block(b) => untraced_block(*b),
        ExprKind::Loop(b) => untraced_block(*b),
        ExprKind::Traced(_, _) => false,
        ExprKind::TraceError(c, x) => untraced_expr(*c) && untraced_expr(*x),
        ExprKind::TraceErrorAt(x) => untraced_expr(*x),
        ExprKind::TraceFmt(c, x) => untraced_expr(*c) && untraced_expr(*x),
        ExprKind::FmtError(x) => untraced_expr(*x),
        ExprKind::Context(x, c) => untraced_expr(*x) && untraced_expr(*c),
        ExprKind::DebugText(x) => untraced_expr(*x),
        ExprKind::Macro(_, x) => untraced_expr(*x),
        _ => true,
    }
}

pub open spec fn untraced_stmt(s: Stmt) -> bool
    decreases s,
{
    match s {
        Stmt::Local(_, e) => untraced_expr(e),
        Stmt::Expr(e, _) => untraced_expr(e),
        Stmt::UseContext => true,
    }
}

pub open spec fn untraced_block(b: Block) -> bool
    decreases b,
{
    match b {
        Block::End => true,
        Block::Then(s, rest) => untraced_stmt(*s) && untraced_block(*rest),
    }
}

#[verifier::spinoff_prover]
proof fn lemma_fold_untraced_expr(t: Tracer, e: Expr)
    requires
        !t.enable,
        untraced_expr(e),
    ensures
        untraced_expr(fold_expr(t, e)),
    decreases e,
{
    match e.kind {
        ExprKind::Call(_, Some(a)) => lemma_fold_untraced_expr(t, *a),
        ExprKind::Method(r, _, a) => {
            lemma_fold_untraced_expr(t, *r);
            lemma_fold_untraced_expr(t, *a);
        },
        ExprKind::Try(x, q) => {
            lemma_fold_untraced_expr(t, *x);
            lemma_attach_untraced(t, fold_expr(t, *x), q);
        },
        ExprKind::Return(Some(x), s) => {
            lemma_fold_untraced_expr(t, *x);
            lemma_attach_untraced(t, fold_expr(t, *x), s);
        },
        ExprKind::If(c, b1, b2) => {
            lemma_fold_untraced_expr(t, *c);
            lemma_fold_untraced_block(t, *b1);
            lemma_fold_untraced_block(t, *b2);
        },
        ExprKind::Block(b) => lemma_fold_untraced_block(t, *b),
        ExprKind::Loop(b) => lemma_fold_untraced_block(t, *b),
        ExprKind::Context(x, c) => {
            lemma_fold_untraced_expr(t, *x);
            lemma_fold_untraced_expr(t, *c);
        },
        ExprKind::TraceError(c, x) => {
            lemma_traced_error_untraced(t, *c, *x, e.span);
        },
        ExprKind::TraceErrorAt(x) => {
            lemma_located_error_untraced(t, *x, e.span);
        },
        ExprKind::TraceFmt(c, x) => {
            lemma_traced_error_untraced(t, *c, *x, e.span);
            assert(fold_expr(t, e) == Expr {
                kind: ExprKind::DebugText(Box::new(traced_error(t, *c, *x, e.span))),
                span: e.span,
            });
        },
        ExprKind::FmtError(x) => {
            assert(fold_expr(t, e) == Expr { kind: ExprKind::DebugText(x), span: e.span });
        },
        ExprKind::Macro(n, x) => {
            if is_select_name(n@) {
                lemma_fold_untraced_expr(t, *x);
            }
        },
        _ => {},
    }
}

proof fn lemma_attach_untraced(t: Tracer, e: Expr, span: Span)
    requires
        !t.enable,
        untraced_expr(e),
    ensures
        untraced_expr(attach_at(t, e, span)),
{
    match e.kind {
        ExprKind::TraceError(c, x) => lemma_traced_error_untraced(t, *c, *x, e.span),
        ExprKind::TraceErrorAt(x) => lemma_located_error_untraced(t, *x, e.span),
        ExprKind::TraceFmt(c, x) => lemma_traced_error_untraced(t, *c, *x, e.span),
        _ => {},
    }
}

proof fn lemma_located_error_untraced(t: Tracer, x: Expr, span: Span)
    requires
        untraced_expr(x),
    ensures
        untraced_expr(located_error(t, x, span)),
{
    let loc = Expr { kind: ExprKind::Located(site_of(t, span)), span };
    assert(untraced_expr(loc));
}

proof fn lemma_traced_error_untraced(t: Tracer, c: Expr, x: Expr, span: Span)
    requires
        untraced_expr(c),
        untraced_expr(x),
    ensures
        untraced_expr(traced_error(t, c, x, span)),
{
    let loc = Expr { kind: ExprKind::Located(site_of(t, span)), span };
    let inner = Expr { kind: ExprKind::Context(Box::new(x), Box::new(loc)), span };
    assert(untraced_expr(loc));
    assert(untraced_expr(inner));
}

proof fn lemma_fold_untraced_block(t: Tracer, b: Block)
    requires
        !t.enable,
        untraced_block(b),
    ensures
        untraced_block(fold_block(t, b)),
    decreases b,
{
    match b {
        Block::End => {},
        Block::Then(s, rest) => {
            assert(untraced_stmt(*s));
            match *s {
                Stmt::Local(_, e) => {
                    assert(untraced_expr(e));
                    lemma_fold_untraced_expr(t, e);
                },
                Stmt::Expr(e, _) => {
                    assert(untraced_expr(e));
                    lemma_fold_untraced_expr(t, e);
                },
                Stmt::UseContext => {},
            }
            assert(untraced_stmt(fold_stmt(t, *s)));
            lemma_fold_untraced_block(t, *rest);
            assert(untraced_block(fold_block(t, b)));
        },
    }
}

proof fn lemma_attach_last_untraced(t: Tracer, b: Block)
    requires
        !t.enable,
        untraced_block(b),
    ensures
        untraced_block(attach_last_of(t, b)),
    decreases b,
{
    match b {
        Block::End => {},
        Block::Then(s, rest) => {
            assert(untraced_stmt(*s));
            if *rest is End {
                match *s {
                    Stmt::Expr(e, semi) => {
                        assert(untraced_expr(e));
                        match e.kind {
                            ExprKind::TraceError(c, x) => lemma_traced_error_untraced(t, *c, *x, e.span),
                            ExprKind::TraceErrorAt(x) => lemma_located_error_untraced(t, *x, e.span),
                            ExprKind::TraceFmt(c, x) => lemma_traced_error_untraced(t, *c, *x, e.span),
                            _ => {},
                        }
                        assert(untraced_expr(attach_at(t, e, e.span)));
                        assert(untraced_stmt(attach_last(t, *s)));
                    },
                    _ => {},
                }
            } else {
                lemma_attach_last_untraced(t, *rest);
            }
        },
    }
}

/// A function that returns nothing gets none of its results traced:
/// rewriting a body that traces nothing traces nothing (its macros are
/// still replaced).
pub proof fn lemma_no_output_no_trace(t: Tracer, body: Block)
    requires
        !t.enable,
        untraced_block(body),
    ensures
        untraced_block(rewrite_body(t, body)),
{
    lemma_fold_untraced_block(t, body);
    let b = Block::Then(Box::new(Stmt::UseContext), Box::new(fold_block(t, body)));
    assert(untraced_stmt(Stmt::UseContext));
    assert(untraced_block(b));
    lemma_attach_last_untraced(t, b);
}

/// An `Ok(..)` constructor in a traced position is left as it is.
pub proof fn lemma_ok_left_alone(t: Tracer, e: Expr, span: Span)
    requires
        is_ok_call(e),
    ensures
        attach_at(t, e, span) == e,
{
}

/// In a function that returns a value, every other operand of `?` or
/// `return` that is not a macro call gets the location of the `?` or the
/// `return`.
pub proof fn lemma_operand_traced_at(t: Tracer, e: Expr, span: Span)
    requires
        t.enable,
        !is_ok_call(e),
        !is_macro_call(e),
    ensures
        attach_at(t, e, span) == (Expr { kind: ExprKind::Traced(Box::new(e), site_of(t, span)), span: e.span }),
{
}

} // verus!
