//! The branches of a `select!`-like macro call, read from its tokens: an
//! optional `biased` (followed by `;` or `,`), then branches
//! `pattern = future => { .. }`, `default => { .. }` or
//! `complete => { .. }`, and `future => { .. }`, each optionally followed
//! by a comma. Patterns, expressions and blocks are read by syn.
use vstd::prelude::*;

use crate::kit::text::str_eq;
use proc_macro2::{Delimiter, Group, Ident, Literal, Punct, Spacing, Span, TokenTree};
use syn::parse::{ParseStream, Parser};

verus! {

#[verifier::external_type_specification]
#[verifier::external_body]
pub struct ExTokenStream(proc_macro2::TokenStream);

/// The delimiter of a token group.
#[derive(Clone, Copy, Debug, PartialEq, Eq, Structural)]
pub enum Delim {
    Paren,
    Brace,
    Bracket,
}

/// A token of a macro's input.
#[derive(Debug)]
pub enum Tok {
    Ident(String),
    /// a punctuation character, joined to the next one when the flag is
    /// set (as `=` is in `=>`)
    Punct(char, bool),
    /// a string literal, by its value
    Str(String),
    /// an unsuffixed integer literal
    Int(u64),
    /// a delimited group of tokens
    Group(Delim, Vec<Tok>),
}

/// An ASCII identifier: a letter or `_`, then letters, digits and `_`.
pub open spec fn ident_text_ok(s: Seq<char>) -> bool {
    &&& s.len() > 0
    &&& ('a' <= s[0] <= 'z' || 'A' <= s[0] <= 'Z' || s[0] == '_')
    &&& forall|k: int|
        1 <= k < s.len() ==> ('a' <= #[trigger] s[k] <= 'z' || 'A' <= s[k] <= 'Z' || '0' <= s[k] <= '9'
            || s[k] == '_')
}

/// A character that can stand as punctuation in a token stream.
pub open spec fn punct_ok(c: char) -> bool {
    c == '!' || c == '#' || c == '$' || c == '%' || c == '&' || c == '\'' || c == '*' || c == '+'
        || c == ',' || c == '-' || c == '.' || c == '/' || c == ':' || c == ';' || c == '<' || c
        == '=' || c == '>' || c == '?' || c == '@' || c == '^' || c == '|' || c == '~'
}

/// Every identifier and punctuation character of the tokens, inside
/// groups too, is one that a token stream can hold.
pub open spec fn toks_ok(t: Seq<Tok>) -> bool
    decreases t,
{
    forall|i: int|
        0 <= i < t.len() ==> match #[trigger] t[i] {
            Tok::Ident(n) => ident_text_ok(n@),
            Tok::Punct(c, _) => punct_ok(c),
            Tok::Group(_, v) => toks_ok(v@),
            _ => true,
        }
}

/// The tokens held by a token stream.
pub uninterp spec fn stream_toks(s: proc_macro2::TokenStream) -> Seq<Tok>;

/// Builds the token stream of `toks[start..]`, token by token, with
/// `proc_macro2`'s constructors (`Ident::new`, `Punct::new`,
/// `Literal::string`, `Literal::u64_unsuffixed`, `Group::new`). The
/// contract claims that the stream holds exactly those tokens; `toks_ok`
/// rules out the identifiers and characters on which `Ident::new` and
/// `Punct::new` panic.
#[verifier::external_body]
fn token_stream(toks: &Vec<Tok>, start: usize) -> (r: proc_macro2::TokenStream)
    requires
        start <= toks.len(),
        toks_ok(toks@.skip(start as int)),
    ensures
        stream_toks(r) == toks@.skip(start as int),
{
    toks[start..].iter().map(|t| -> TokenTree {
        match t {
            Tok::Ident(n) => Ident::new(n, Span::call_site()).into(),
            Tok::Punct(c, j) => Punct::new(*c, if *j { Spacing::Joint } else { Spacing::Alone }).into(),
            Tok::Str(v) => Literal::string(v).into(),
            Tok::Int(v) => Literal::u64_unsuffixed(*v).into(),
            Tok::Group(d, inner) => {
                let d = match d { Delim::Paren => Delimiter::Parenthesis, Delim::Brace => Delimiter::Brace, Delim::Bracket => Delimiter::Bracket };
                Group::new(d, token_stream(inner, 0)).into()
            },
        }
    }).collect()
}

/// How many tokens follow the pattern that `syn::Pat::parse_single` reads
/// at the start of `t`; `None` when it reads none.
pub uninterp spec fn pat_rest_len(t: Seq<Tok>) -> Option<nat>;

/// How many tokens follow the expression that syn's `Expr` parser reads
/// at the start of `t`; `None` when it reads none.
pub uninterp spec fn expr_rest_len(t: Seq<Tok>) -> Option<nat>;

/// How many tokens follow the block that syn's `Block` parser reads at the
/// start of `t`; `None` when it reads none.
pub uninterp spec fn block_rest_len(t: Seq<Tok>) -> Option<nat>;

/// Reads a pattern with `syn::Pat::parse_single` at the start of `s` and
/// counts the token trees left after it. The contract names the count
/// `pat_rest_len` of the stream's tokens; what is left is a part of the
/// stream, so it is no longer than the stream.
#[verifier::external_body]
fn pat_rest(s: &proc_macro2::TokenStream) -> (r: Option<usize>)
    ensures
        match r {
            Some(n) => pat_rest_len(stream_toks(*s)) == Some(n as nat) && n <= stream_toks(*s).len(),
            None => pat_rest_len(stream_toks(*s)) is None,
        },
{
    let read = |input: ParseStream| -> syn::Result<proc_macro2::TokenStream> {
        syn::Pat::parse_single(input)?;
        input.parse()
    };
    read.parse2(s.clone()).ok().map(|rest| rest.into_iter().count())
}

/// Reads an expression with syn's `Expr` parser at the start of `s` and
/// counts the token trees left after it (named `expr_rest_len`).
#[verifier::external_body]
fn expr_rest(s: &proc_macro2::TokenStream) -> (r: Option<usize>)
    ensures
        match r {
            Some(n) => expr_rest_len(stream_toks(*s)) == Some(n as nat) && n <= stream_toks(*s).len(),
            None => expr_rest_len(stream_toks(*s)) is None,
        },
{
    let read = |input: ParseStream| -> syn::Result<proc_macro2::TokenStream> {
        input.parse::<syn::Expr>()?;
        input.parse()
    };
    read.parse2(s.clone()).ok().map(|rest| rest.into_iter().count())
}

/// Reads a block with syn's `Block` parser at the start of `s` and counts
/// the token trees left after it (named `block_rest_len`).
#[verifier::external_body]
fn block_rest(s: &proc_macro2::TokenStream) -> (r: Option<usize>)
    ensures
        match r {
            Some(n) => block_rest_len(stream_toks(*s)) == Some(n as nat) && n <= stream_toks(*s).len(),
            None => block_rest_len(stream_toks(*s)) is None,
        },
{
    let read = |input: ParseStream| -> syn::Result<proc_macro2::TokenStream> {
        input.parse::<syn::Block>()?;
        input.parse()
    };
    read.parse2(s.clone()).ok().map(|rest| rest.into_iter().count())
}


/// A word that syn does not take as an identifier: `_` and Rust's
/// keywords.
pub open spec fn is_keyword(s: Seq<char>) -> bool {
    ||| s == "_"@
        || s == "abstract"@
        || s == "as"@
        || s == "async"@
        || s == "await"@
        || s == "become"@
        || s == "box"@
        || s == "break"@
        || s == "const"@
        || s == "continue"@
        || s == "crate"@
        || s == "do"@
        || s == "dyn"@
        || s == "else"@
        || s == "enum"@
        || s == "extern"@
        || s == "false"@
        || s == "final"@
        || s == "fn"@
        || s == "for"@
        || s == "if"@
        || s == "impl"@
        || s == "in"@
        || s == "let"@
        || s == "loop"@
        || s == "macro"@
        || s == "match"@
        || s == "mod"@
        || s == "move"@
        || s == "mut"@
        || s == "override"@
        || s == "priv"@
        || s == "pub"@
        || s == "ref"@
        || s == "return"@
        || s == "Self"@
        || s == "self"@
        || s == "static"@
        || s == "struct"@
        || s == "super"@
        || s == "trait"@
        || s == "true"@
        || s == "try"@
        || s == "type"@
        || s == "typeof"@
        || s == "unsafe"@
        || s == "unsized"@
        || s == "use"@
        || s == "virtual"@
        || s == "where"@
        || s == "while"@
        || s == "yield"@
}

fn keyword(s: &str) -> (r: bool)
    ensures
        r == is_keyword(s@),
{
    str_eq(s, "_")
        || str_eq(s, "abstract")
        || str_eq(s, "as")
        || str_eq(s, "async")
        || str_eq(s, "await")
        || str_eq(s, "become")
        || str_eq(s, "box")
        || str_eq(s, "break")
        || str_eq(s, "const")
        || str_eq(s, "continue")
        || str_eq(s, "crate")
        || str_eq(s, "do")
        || str_eq(s, "dyn")
        || str_eq(s, "else")
        || str_eq(s, "enum")
        || str_eq(s, "extern")
        || str_eq(s, "false")
        || str_eq(s, "final")
        || str_eq(s, "fn")
        || str_eq(s, "for")
        || str_eq(s, "if")
        || str_eq(s, "impl")
        || str_eq(s, "in")
        || str_eq(s, "let")
        || str_eq(s, "loop")
        || str_eq(s, "macro")
        || str_eq(s, "match")
        || str_eq(s, "mod")
        || str_eq(s, "move")
        || str_eq(s, "mut")
        || str_eq(s, "override")
        || str_eq(s, "priv")
        || str_eq(s, "pub")
        || str_eq(s, "ref")
        || str_eq(s, "return")
        || str_eq(s, "Self")
        || str_eq(s, "self")
        || str_eq(s, "static")
        || str_eq(s, "struct")
        || str_eq(s, "super")
        || str_eq(s, "trait")
        || str_eq(s, "true")
        || str_eq(s, "try")
        || str_eq(s, "type")
        || str_eq(s, "typeof")
        || str_eq(s, "unsafe")
        || str_eq(s, "unsized")
        || str_eq(s, "use")
        || str_eq(s, "virtual")
        || str_eq(s, "where")
        || str_eq(s, "while")
        || str_eq(s, "yield")
}

/// Token `i` is an identifier that is no keyword.
pub open spec fn peek_ident(t: Seq<Tok>, i: int) -> bool {
    &&& 0 <= i < t.len()
    &&& t[i] matches Tok::Ident(n) && !is_keyword(n@)
}

/// Token `i` is the identifier `w`.
pub open spec fn ident_is(t: Seq<Tok>, i: int, w: Seq<char>) -> bool {
    &&& 0 <= i < t.len()
    &&& t[i] matches Tok::Ident(n) && n@ == w
}

/// Token `i` is the punctuation character `c`.
pub open spec fn punct_at(t: Seq<Tok>, i: int, c: char) -> bool {
    &&& 0 <= i < t.len()
    &&& t[i] matches Tok::Punct(d, _) && d == c
}

/// Tokens `i` and `i + 1` are `=>`: a `=` joined to a `>`.
pub open spec fn arrow_at(t: Seq<Tok>, i: int) -> bool {
    &&& 0 <= i && i + 1 < t.len()
    &&& t[i] == Tok::Punct('=', true)
    &&& punct_at(t, i + 1, '>')
}

/// Token `i` can start an expression branch: a group, a literal (`true`,
/// `false` and a negated integer among them), an identifier that is no
/// keyword, or `mut`.
pub open spec fn starts_expr(t: Seq<Tok>, i: int) -> bool {
    &&& 0 <= i < t.len()
    &&& {
        ||| t[i] is Group
        ||| t[i] is Str
        ||| t[i] is Int
        ||| ident_is(t, i, "true"@)
        ||| ident_is(t, i, "false"@)
        ||| (punct_at(t, i, '-') && i + 1 < t.len() && t[i + 1] is Int)
        ||| peek_ident(t, i)
        ||| ident_is(t, i, "mut"@)
    }
}


/// What a branch waits on.
#[derive(Clone, Copy, Debug, PartialEq, Eq, Structural)]
pub enum BranchKind {
    /// `pattern = future`: the token ranges of the pattern and the future
    Bind(usize, usize, usize, usize),
    /// `default` or `complete`
    Default,
    /// `future`: its token range
    Wait(usize, usize),
}

/// A branch of the call: what it waits on and the token range of its
/// block.
#[derive(Clone, Copy, Debug, PartialEq, Eq, Structural)]
pub struct Branch {
    pub kind: BranchKind,
    pub body_start: usize,
    pub body_end: usize,
}

/// The call read: whether it is `biased`, and its branches in order.
#[derive(Debug)]
pub struct SelectModel {
    pub biased: bool,
    pub branches: Vec<Branch>,
}

/// Why the tokens are no `select!` input.
#[derive(Clone, Copy, Debug, PartialEq, Eq, Structural)]
pub enum SelectError {
    /// a pattern, expression, `=>` or block is missing where the branch
    /// needs it
    Syntax,
    /// a branch starts with a token that starts none of the forms
    UnknownBranch,
}

/// Where a read that leaves `rest` of the tokens from `s` on ends.
pub open spec fn read_end(t: Seq<Tok>, s: int, rest: Option<nat>) -> Option<int> {
    match rest {
        Some(r) => if 0 <= s <= t.len() && r <= t.len() - s {
            Some(t.len() - r)
        } else {
            None
        },
        None => None,
    }
}

/// The end of the pattern syn reads at `s`.
pub open spec fn pat_end(t: Seq<Tok>, s: int) -> Option<int> {
    if 0 <= s <= t.len() {
        read_end(t, s, pat_rest_len(t.skip(s)))
    } else {
        None
    }
}

/// The end of the expression syn reads at `s`.
pub open spec fn expr_end(t: Seq<Tok>, s: int) -> Option<int> {
    if 0 <= s <= t.len() {
        read_end(t, s, expr_rest_len(t.skip(s)))
    } else {
        None
    }
}

/// The end of the block syn reads at `s`.
pub open spec fn block_end(t: Seq<Tok>, s: int) -> Option<int> {
    if 0 <= s <= t.len() {
        read_end(t, s, block_rest_len(t.skip(s)))
    } else {
        None
    }
}

/// Past an optional comma at `e`.
pub open spec fn after_comma(t: Seq<Tok>, e: int) -> int {
    if punct_at(t, e, ',') {
        e + 1
    } else {
        e
    }
}

/// A branch waiting on `kind` whose block starts at `b`, and where the
/// next branch starts.
pub open spec fn finish(t: Seq<Tok>, kind: BranchKind, b: int) -> Result<(Branch, int), SelectError> {
    match block_end(t, b) {
        Some(be) => Ok((Branch { kind, body_start: b as usize, body_end: be as usize }, after_comma(t, be))),
        None => Err(SelectError::Syntax),
    }
}

/// The branch starting at token `i`, and where the next one starts: a
/// pattern followed by `=` makes a binding branch; else `default` or
/// `complete`; else an expression.
#[verifier::opaque]
pub open spec fn branch_at(t: Seq<Tok>, i: int) -> Result<(Branch, int), SelectError> {
    match pat_end(t, i) {
        Some(k) if punct_at(t, k, '=') => match expr_end(t, k + 1) {
            Some(e) => if arrow_at(t, e) {
                finish(t, BranchKind::Bind(i as usize, k as usize, (k + 1) as usize, e as usize), e + 2)
            } else {
                Err(SelectError::Syntax)
            },
            None => Err(SelectError::Syntax),
        },
        _ => if peek_ident(t, i) && (ident_is(t, i, "default"@) || ident_is(t, i, "complete"@)) {
            if arrow_at(t, i + 1) {
                finish(t, BranchKind::Default, i + 3)
            } else {
                Err(SelectError::Syntax)
            }
        } else if starts_expr(t, i) {
            match expr_end(t, i) {
                Some(e) => if arrow_at(t, e) {
                    finish(t, BranchKind::Wait(i as usize, e as usize), e + 2)
                } else {
                    Err(SelectError::Syntax)
                },
                None => Err(SelectError::Syntax),
            }
        } else {
            Err(SelectError::UnknownBranch)
        },
    }
}

/// The branches from token `i` to the end.
pub open spec fn branches_from(t: Seq<Tok>, i: int) -> Result<Seq<Branch>, SelectError>
    decreases t.len() - i,
{
    if i < 0 || i >= t.len() {
        Ok(Seq::empty())
    } else {
        match branch_at(t, i) {
            Ok((b, n)) => if i < n <= t.len() {
                match branches_from(t, n) {
                    Ok(bs) => Ok(seq![b] + bs),
                    Err(e) => Err(e),
                }
            } else {
                Err(SelectError::Syntax)
            },
            Err(e) => Err(e),
        }
    }
}

/// Whether the call starts with `biased` and where its branches start:
/// `biased` may be followed by a `;` or a `,`.
pub open spec fn biased_start(t: Seq<Tok>) -> (bool, int) {
    if peek_ident(t, 0) && ident_is(t, 0, "biased"@) {
        (true, if punct_at(t, 1, ';') || punct_at(t, 1, ',') {
            2
        } else {
            1
        })
    } else {
        (false, 0)
    }
}

/// The call read from its tokens.
pub open spec fn spec_parse_select(t: Seq<Tok>) -> Result<(bool, Seq<Branch>), SelectError> {
    let (biased, s) = biased_start(t);
    match branches_from(t, s) {
        Ok(bs) => Ok((biased, bs)),
        Err(e) => Err(e),
    }
}

proof fn lemma_toks_ok_skip(t: Seq<Tok>, i: int)
    requires
        toks_ok(t),
        0 <= i <= t.len(),
    ensures
        toks_ok(t.skip(i)),
{
    assert forall|j: int| 0 <= j < t.skip(i).len() implies #[trigger] t.skip(i)[j] == t[i + j] by {}
    assert(forall|j: int| 0 <= j < t.len() ==> match #[trigger] t[j] {
        Tok::Ident(n) => ident_text_ok(n@),
        Tok::Punct(c, _) => punct_ok(c),
        Tok::Group(_, v) => toks_ok(v@),
        _ => true,
    });
}

fn pat_end_exec(toks: &Vec<Tok>, s: usize) -> (r: Option<usize>)
    requires
        s <= toks.len(),
        toks_ok(toks@),
    ensures
        match r {
            Some(e) => pat_end(toks@, s as int) == Some(e as int),
            None => pat_end(toks@, s as int) is None,
        },
{
    proof {
        lemma_toks_ok_skip(toks@, s as int);
    }
    let stream = token_stream(toks, s);
    match pat_rest(&stream) {
        Some(n) => Some(toks.len() - n),
        None => None,
    }
}

fn expr_end_exec(toks: &Vec<Tok>, s: usize) -> (r: Option<usize>)
    requires
        s <= toks.len(),
        toks_ok(toks@),
    ensures
        match r {
            Some(e) => expr_end(toks@, s as int) == Some(e as int),
            None => expr_end(toks@, s as int) is None,
        },
{
    proof {
        lemma_toks_ok_skip(toks@, s as int);
    }
    let stream = token_stream(toks, s);
    match expr_rest(&stream) {
        Some(n) => Some(toks.len() - n),
        None => None,
    }
}

fn block_end_exec(toks: &Vec<Tok>, s: usize) -> (r: Option<usize>)
    requires
        s <= toks.len(),
        toks_ok(toks@),
    ensures
        match r {
            Some(e) => block_end(toks@, s as int) == Some(e as int),
            None => block_end(toks@, s as int) is None,
        },
{
    proof {
        lemma_toks_ok_skip(toks@, s as int);
    }
    let stream = token_stream(toks, s);
    match block_rest(&stream) {
        Some(n) => Some(toks.len() - n),
        None => None,
    }
}

fn punct_at_exec(toks: &Vec<Tok>, i: usize, c: char) -> (r: bool)
    ensures
        r == punct_at(toks@, i as int, c),
{
    if i >= toks.len() {
        return false;
    }
    match &toks[i] {
        Tok::Punct(d, _) => *d == c,
        _ => false,
    }
}

fn ident_is_exec(toks: &Vec<Tok>, i: usize, w: &str) -> (r: bool)
    ensures
        r == ident_is(toks@, i as int, w@),
{
    if i >= toks.len() {
        return false;
    }
    match &toks[i] {
        Tok::Ident(n) => str_eq(n.as_str(), w),
        _ => false,
    }
}

fn peek_ident_exec(toks: &Vec<Tok>, i: usize) -> (r: bool)
    ensures
        r == peek_ident(toks@, i as int),
{
    if i >= toks.len() {
        return false;
    }
    match &toks[i] {
        Tok::Ident(n) => !keyword(n.as_str()),
        _ => false,
    }
}

fn arrow_at_exec(toks: &Vec<Tok>, i: usize) -> (r: bool)
    ensures
        r == arrow_at(toks@, i as int),
{
    if i >= toks.len() || toks.len() - i < 2 {
        return false;
    }
    let first = match &toks[i] {
        Tok::Punct(c, joint) => *c == '=' && *joint,
        _ => false,
    };
    first && punct_at_exec(toks, i + 1, '>')
}

fn starts_expr_exec(toks: &Vec<Tok>, i: usize) -> (r: bool)
    ensures
        r == starts_expr(toks@, i as int),
{
    if i >= toks.len() {
        return false;
    }
    let lit_or_group = match &toks[i] {
        Tok::Group(_, _) | Tok::Str(_) | Tok::Int(_) => true,
        _ => false,
    };
    let negated = punct_at_exec(toks, i, '-') && i + 1 < toks.len() && match &toks[i + 1] {
        Tok::Int(_) => true,
        _ => false,
    };
    lit_or_group || ident_is_exec(toks, i, "true") || ident_is_exec(toks, i, "false") || negated
        || peek_ident_exec(toks, i) || ident_is_exec(toks, i, "mut")
}

fn finish_exec(toks: &Vec<Tok>, kind: BranchKind, b: usize) -> (r: Result<(Branch, usize), SelectError>)
    requires
        b <= toks.len(),
        toks_ok(toks@),
    ensures
        match finish(toks@, kind, b as int) {
            Ok((br, n)) => r == Ok::<(Branch, usize), SelectError>((br, n as usize)) && 0 <= n <= toks@.len(),
            Err(e) => r == Err::<(Branch, usize), SelectError>(e),
        },
{
    match block_end_exec(toks, b) {
        Some(be) => {
            let next = if punct_at_exec(toks, be, ',') {
                be + 1
            } else {
                be
            };
            Ok((Branch { kind, body_start: b, body_end: be }, next))
        },
        None => Err(SelectError::Syntax),
    }
}

fn branch_at_exec(toks: &Vec<Tok>, i: usize) -> (r: Result<(Branch, usize), SelectError>)
    requires
        i < toks.len(),
        toks_ok(toks@),
    ensures
        match branch_at(toks@, i as int) {
            Ok((br, n)) => r == Ok::<(Branch, usize), SelectError>((br, n as usize)) && 0 <= n <= toks@.len(),
            Err(e) => r == Err::<(Branch, usize), SelectError>(e),
        },
{
    reveal(branch_at);
    let pe = pat_end_exec(toks, i);
    if let Some(k) = pe {
        if punct_at_exec(toks, k, '=') {
            return match expr_end_exec(toks, k + 1) {
                Some(e) => if arrow_at_exec(toks, e) {
                    finish_exec(toks, BranchKind::Bind(i, k, k + 1, e), e + 2)
                } else {
                    Err(SelectError::Syntax)
                },
                None => Err(SelectError::Syntax),
            };
        }
    }
    if peek_ident_exec(toks, i) && (ident_is_exec(toks, i, "default") || ident_is_exec(toks, i, "complete")) {
        if arrow_at_exec(toks, i + 1) {
            finish_exec(toks, BranchKind::Default, i + 3)
        } else {
            Err(SelectError::Syntax)
        }
    } else if starts_expr_exec(toks, i) {
        match expr_end_exec(toks, i) {
            Some(e) => if arrow_at_exec(toks, e) {
                finish_exec(toks, BranchKind::Wait(i, e), e + 2)
            } else {
                Err(SelectError::Syntax)
            },
            None => Err(SelectError::Syntax),
        }
    } else {
        Err(SelectError::UnknownBranch)
    }
}

/// Reads the branches of a `select!`-like call from its tokens, as
/// `spec_parse_select` says.
pub fn parse_select(toks: &Vec<Tok>) -> (r: Result<SelectModel, SelectError>)
    requires
        toks_ok(toks@),
    ensures
        match spec_parse_select(toks@) {
            Ok((biased, bs)) => r matches Ok(m) && m.biased == biased && m.branches@ == bs,
            Err(e) => r matches Err(f) && f == e,
        },
{
    let biased = peek_ident_exec(toks, 0) && ident_is_exec(toks, 0, "biased");
    let start: usize = if biased {
        if punct_at_exec(toks, 1, ';') || punct_at_exec(toks, 1, ',') {
            2
        } else {
            1
        }
    } else {
        0
    };
    let ghost t = toks@;
    let ghost whole = branches_from(t, start as int);
    assert(spec_parse_select(t) == match whole {
        Ok(bs) => Ok::<(bool, Seq<Branch>), SelectError>((biased, bs)),
        Err(e) => Err(e),
    });
    let mut branches: Vec<Branch> = Vec::new();
    let mut i: usize = start;
    if i > toks.len() {
        i = toks.len();
    }
    assert(whole == branches_from(t, i as int)) by {
        reveal_with_fuel(branches_from, 2);
    }
    while i < toks.len()
        invariant
            t == toks@,
            toks_ok(t),
            i <= t.len(),
            spec_parse_select(t) == match whole {
                Ok(bs) => Ok::<(bool, Seq<Branch>), SelectError>((biased, bs)),
                Err(e) => Err(e),
            },
            whole == match branches_from(t, i as int) {
                Ok(rest) => Ok(branches@ + rest),
                Err(e) => Err(e),
            },
        decreases t.len() - i,
    {
        let res = branch_at_exec(toks, i);
        let ghost step = branch_at(t, i as int);
        match res {
            Ok((b, n)) => {
                assert(step matches Ok((bb, nn)) && bb == b && nn == n as int && 0 <= nn <= t.len()) by {
                    match step {
                        Ok((bb, nn)) => {
                            assert(res == Ok::<(Branch, usize), SelectError>((bb, nn as usize)));
                            assert(nn <= t.len());
                        },
                        Err(e) => {
                            assert(res == Err::<(Branch, usize), SelectError>(e));
                        },
                    }
                }
                if n <= i {
                    assert(branches_from(t, i as int) == Err::<Seq<Branch>, SelectError>(SelectError::Syntax));
                    return Err(SelectError::Syntax);
                }
                proof {
                    assert(branches_from(t, i as int) == match branches_from(t, n as int) {
                        Ok(bs) => Ok::<Seq<Branch>, SelectError>(seq![b] + bs),
                        Err(e) => Err(e),
                    });
                    match branches_from(t, n as int) {
                        Ok(rest) => assert(branches@.push(b) + rest =~= branches@ + (seq![b] + rest)),
                        Err(_) => {},
                    }
                }
                branches.push(b);
                i = n;
            },
            Err(e) => {
                assert(branches_from(t, i as int) == Err::<Seq<Branch>, SelectError>(e));
                return Err(e);
            },
        }
    }
    proof {
        assert(branches@ + Seq::<Branch>::empty() =~= branches@);
    }
    Ok(SelectModel { biased, branches })
}

} // verus!
