//! Running functions of the small syntax tree, to see what an error that
//! leaves them carries: a chain of contexts, outermost first, ending with
//! the message the error was made with.
use vstd::prelude::*;

use super::rewrite::{site_text, location_text, Block, Expr, ExprKind, ItemFn, Stmt};
use crate::kit::text::str_eq;

verus! {

/// A value during a run.
#[derive(Debug, PartialEq)]
pub enum Value {
    Unit,
    Bool(bool),
    Str(String),
    /// an error value, by its chain (outermost context first)
    Error(Vec<String>),
    /// `Ok(..)`
    Good(Box<Value>),
    /// `Err(..)` of an error value, by its chain
    Bad(Vec<String>),
    /// `Some(..)`
    Present(Box<Value>),
    /// `None`
    Absent,
}

/// A value by its characters.
pub enum ValueV {
    Unit,
    Bool(bool),
    Str(Seq<char>),
    Error(Seq<Seq<char>>),
    Good(Box<ValueV>),
    Bad(Seq<Seq<char>>),
    Present(Box<ValueV>),
    Absent,
}

pub open spec fn chain_view(c: Seq<String>) -> Seq<Seq<char>> {
    c.map_values(|s: String| s@)
}

pub open spec fn value_view(v: Value) -> ValueV
    decreases v,
{
    match v {
        Value::Unit => ValueV::Unit,
        Value::Bool(b) => ValueV::Bool(b),
        Value::Str(s) => ValueV::Str(s@),
        Value::Error(c) => ValueV::Error(chain_view(c@)),
        Value::Good(x) => ValueV::Good(Box::new(value_view(*x))),
        Value::Bad(c) => ValueV::Bad(chain_view(c@)),
        Value::Present(x) => ValueV::Present(Box::new(value_view(*x))),
        Value::Absent => ValueV::Absent,
    }
}

/// How an expression or block ends.
pub enum Flow {
    /// with a value
    Normal(ValueV),
    /// by returning from the function
    Return(ValueV),
    /// at a construct the run does not cover (a `loop`, an unknown name,
    /// a value of the wrong kind, no fuel left)
    Stuck,
}

/// `v` with context `s` added, as `with_context` and `context` do: an
/// error gets it outermost, a missing option becomes an error with it as
/// its message.
pub open spec fn add_context(v: ValueV, s: Seq<char>) -> Option<ValueV> {
    match v {
        ValueV::Good(x) => Some(ValueV::Good(x)),
        ValueV::Bad(c) => Some(ValueV::Bad(seq![s] + c)),
        ValueV::Present(x) => Some(ValueV::Good(x)),
        ValueV::Absent => Some(ValueV::Bad(seq![s])),
        ValueV::Error(c) => Some(ValueV::Error(seq![s] + c)),
        _ => None,
    }
}

/// The value a variable was last bound to.
pub open spec fn lookup(env: Seq<(Seq<char>, ValueV)>, n: Seq<char>) -> Option<ValueV>
    decreases env.len(),
{
    if env.len() == 0 {
        None
    } else if env.last().0 == n {
        Some(env.last().1)
    } else {
        lookup(env.drop_last(), n)
    }
}

/// The index of the function named `n`.
pub open spec fn fn_index(prog: Seq<ItemFn>, n: Seq<char>) -> int {
    if exists|i: int| 0 <= i < prog.len() && #[trigger] prog[i].name@ == n {
        choose|i: int| 0 <= i < prog.len() && #[trigger] prog[i].name@ == n && forall|j: int|
            0 <= j < i ==> #[trigger] prog[j].name@ != n
    } else {
        -1
    }
}

/// Running function `n` with `fuel` calls left.
pub open spec fn run_fn(prog: Seq<ItemFn>, n: Seq<char>, fuel: nat) -> Flow
    decreases fuel, 1int, Block::End,
{
    let i = fn_index(prog, n);
    if i < 0 {
        Flow::Stuck
    } else {
        match run_block(prog, Seq::empty(), prog[i].body, fuel) {
            Flow::Normal(v) => Flow::Normal(v),
            Flow::Return(v) => Flow::Normal(v),
            Flow::Stuck => Flow::Stuck,
        }
    }
}

/// Running a block in environment `env`.
pub open spec fn run_block(prog: Seq<ItemFn>, env: Seq<(Seq<char>, ValueV)>, b: Block, fuel: nat) -> Flow
    decreases fuel, 0int, b,
{
    match b {
        Block::End => Flow::Normal(ValueV::Unit),
        Block::Then(s, rest) => match *s {
            Stmt::Local(n, e) => match run_expr(prog, env, e, fuel) {
                Flow::Normal(v) => run_block(prog, env.push((n@, v)), *rest, fuel),
                other => other,
            },
            Stmt::Expr(e, semi) => match run_expr(prog, env, e, fuel) {
                Flow::Normal(v) => if *rest is End {
                    if semi {
                        Flow::Normal(ValueV::Unit)
                    } else {
                        Flow::Normal(v)
                    }
                } else {
                    run_block(prog, env, *rest, fuel)
                },
                other => other,
            },
            Stmt::UseContext => if *rest is End {
                Flow::Normal(ValueV::Unit)
            } else {
                run_block(prog, env, *rest, fuel)
            },
        },
    }
}

/// Running an expression in environment `env`.
pub open spec fn run_expr(prog: Seq<ItemFn>, env: Seq<(Seq<char>, ValueV)>, e: Expr, fuel: nat) -> Flow
    decreases fuel, 0int, e,
{
    match e.kind {
        ExprKind::Unit => Flow::Normal(ValueV::Unit),
        ExprKind::Bool(b) => Flow::Normal(ValueV::Bool(b)),
        ExprKind::Str(s) => Flow::Normal(ValueV::Str(s@)),
        ExprKind::Var(n) => match lookup(env, n@) {
            Some(v) => Flow::Normal(v),
            None => Flow::Stuck,
        },
        ExprKind::NoneValue => Flow::Normal(ValueV::Absent),
        ExprKind::Call(n, arg) => match arg {
            Some(a) => match run_expr(prog, env, *a, fuel) {
                Flow::Normal(v) => if n@ == "Ok"@ {
                    Flow::Normal(ValueV::Good(Box::new(v)))
                } else if n@ == "Some"@ {
                    Flow::Normal(ValueV::Present(Box::new(v)))
                } else if n@ == "Err"@ {
                    match v {
                        ValueV::Error(c) => Flow::Normal(ValueV::Bad(c)),
                        _ => Flow::Stuck,
                    }
                } else if n@ == "msg"@ {
                    match v {
                        ValueV::Str(s) => Flow::Normal(ValueV::Error(seq![s])),
                        _ => Flow::Stuck,
                    }
                } else {
                    Flow::Stuck
                },
                other => other,
            },
            None => if fuel == 0 {
                Flow::Stuck
            } else {
                run_fn(prog, n@, (fuel - 1) as nat)
            },
        },
        ExprKind::Method(r, m, a) => match run_expr(prog, env, *r, fuel) {
            Flow::Normal(v) => match run_expr(prog, env, *a, fuel) {
                Flow::Normal(ValueV::Str(s)) => if m@ == "with_context"@ || m@ == "context"@ {
                    match add_context(v, s) {
                        Some(w) => Flow::Normal(w),
                        None => Flow::Stuck,
                    }
                } else {
                    Flow::Stuck
                },
                Flow::Normal(_) => Flow::Stuck,
                other => other,
            },
            other => other,
        },
        ExprKind::Try(x, _) => match run_expr(prog, env, *x, fuel) {
            Flow::Normal(v) => match v {
                ValueV::Good(y) => Flow::Normal(*y),
                ValueV::Present(y) => Flow::Normal(*y),
                ValueV::Bad(c) => Flow::Return(ValueV::Bad(c)),
                ValueV::Absent => Flow::Return(ValueV::Absent),
                _ => Flow::Stuck,
            },
            other => other,
        },
        ExprKind::Return(x, _) => match x {
            Some(y) => match run_expr(prog, env, *y, fuel) {
                Flow::Normal(v) => Flow::Return(v),
                other => other,
            },
            None => Flow::Return(ValueV::Unit),
        },
        ExprKind::If(c, b1, b2) => match run_expr(prog, env, *c, fuel) {
            Flow::Normal(ValueV::Bool(b)) => if b {
                run_block(prog, env, *b1, fuel)
            } else {
                run_block(prog, env, *b2, fuel)
            },
            Flow::Normal(_) => Flow::Stuck,
            other => other,
        },
        ExprKind::Block(b) => run_block(prog, env, *b, fuel),
        ExprKind::Loop(_) => Flow::Stuck,
        ExprKind::Macro(_, x) => run_expr(prog, env, *x, fuel),
        ExprKind::Located(site) => Flow::Normal(ValueV::Str(site_text(site))),
        ExprKind::Traced(x, site) => match run_expr(prog, env, *x, fuel) {
            Flow::Normal(v) => match add_context(v, site_text(site)) {
                Some(w) => Flow::Normal(w),
                None => Flow::Stuck,
            },
            other => other,
        },
        ExprKind::Context(x, c) => match run_expr(prog, env, *x, fuel) {
            Flow::Normal(v) => match run_expr(prog, env, *c, fuel) {
                Flow::Normal(ValueV::Str(s)) => match add_context(v, s) {
                    Some(w) => Flow::Normal(w),
                    None => Flow::Stuck,
                },
                Flow::Normal(_) => Flow::Stuck,
                other => other,
            },
            other => other,
        },
        ExprKind::DebugText(x) => match run_expr(prog, env, *x, fuel) {
            Flow::Normal(v) => Flow::Normal(ValueV::Str(value_text(v))),
            other => other,
        },
        // these macros only exist inside a rewritten function, replaced
        ExprKind::TraceError(_, _) => Flow::Stuck,
        ExprKind::TraceErrorAt(_) => Flow::Stuck,
        ExprKind::TraceFmt(_, _) => Flow::Stuck,
        ExprKind::FmtError(_) => Flow::Stuck,
    }
}


/// How a run of an expression or block ends.
#[derive(Debug)]
pub enum Outcome {
    Normal(Value),
    Return(Value),
    Stuck,
}

pub open spec fn outcome_view(o: Outcome) -> Flow {
    match o {
        Outcome::Normal(v) => Flow::Normal(value_view(v)),
        Outcome::Return(v) => Flow::Return(value_view(v)),
        Outcome::Stuck => Flow::Stuck,
    }
}

pub open spec fn env_view(env: Seq<(String, Value)>) -> Seq<(Seq<char>, ValueV)> {
    env.map_values(|p: (String, Value)| (p.0@, value_view(p.1)))
}

fn copy_chain(c: &Vec<String>) -> (r: Vec<String>)
    ensures
        chain_view(r@) == chain_view(c@),
{
    let mut out: Vec<String> = Vec::new();
    let mut i: usize = 0;
    assert(chain_view(out@) =~= chain_view(c@.take(0)));
    while i < c.len()
        invariant
            i <= c@.len(),
            chain_view(out@) == chain_view(c@.take(i as int)),
        decreases c.len() - i,
    {
        let ghost prev = out@;
        out.push(c[i].clone());
        proof {
            assert(c@.take(i + 1) =~= c@.take(i as int).push(c@[i as int]));
            assert(chain_view(out@) =~= chain_view(prev).push(c@[i as int]@));
            assert(chain_view(c@.take(i + 1)) =~= chain_view(c@.take(i as int)).push(c@[i as int]@));
        }
        i = i + 1;
    }
    assert(c@.take(c@.len() as int) =~= c@);
    out
}

fn prepend(s: String, c: Vec<String>) -> (r: Vec<String>)
    ensures
        chain_view(r@) == seq![s@] + chain_view(c@),
{
    let mut out: Vec<String> = Vec::new();
    let ghost sv = s@;
    out.push(s);
    assert(chain_view(out@) =~= seq![sv] + chain_view(c@.take(0)));
    let mut i: usize = 0;
    while i < c.len()
        invariant
            i <= c@.len(),
            chain_view(out@) == seq![sv] + chain_view(c@.take(i as int)),
        decreases c.len() - i,
    {
        let ghost prev = out@;
        out.push(c[i].clone());
        proof {
            assert(c@.take(i + 1) =~= c@.take(i as int).push(c@[i as int]));
            assert(chain_view(out@) =~= chain_view(prev).push(c@[i as int]@));
            assert(chain_view(c@.take(i + 1)) =~= chain_view(c@.take(i as int)).push(c@[i as int]@));
            assert(chain_view(out@) =~= seq![sv] + chain_view(c@.take(i + 1)));
        }
        i = i + 1;
    }
    assert(c@.take(c@.len() as int) =~= c@);
    out
}

/// A copy of a value.
pub fn copy_value(v: &Value) -> (r: Value)
    ensures
        value_view(r) == value_view(*v),
    decreases v,
{
    match v {
        Value::Unit => Value::Unit,
        Value::Bool(b) => Value::Bool(*b),
        Value::Str(s) => Value::Str(s.clone()),
        Value::Error(c) => Value::Error(copy_chain(c)),
        Value::Good(x) => Value::Good(Box::new(copy_value(x))),
        Value::Bad(c) => Value::Bad(copy_chain(c)),
        Value::Present(x) => Value::Present(Box::new(copy_value(x))),
        Value::Absent => Value::Absent,
    }
}

fn add_context_exec(v: Value, s: String) -> (r: Option<Value>)
    ensures
        match (r, add_context(value_view(v), s@)) {
            (Some(a), Some(b)) => value_view(a) == b,
            (None, None) => true,
            _ => false,
        },
{
    match v {
        Value::Good(x) => Some(Value::Good(x)),
        Value::Bad(c) => Some(Value::Bad(prepend(s, c))),
        Value::Present(x) => Some(Value::Good(x)),
        Value::Absent => {
            let mut c: Vec<String> = Vec::new();
            let ghost sv = s@;
            c.push(s);
            assert(chain_view(c@) =~= seq![sv]);
            Some(Value::Bad(c))
        },
        Value::Error(c) => Some(Value::Error(prepend(s, c))),
        _ => None,
    }
}

fn lookup_exec(env: &Vec<(String, Value)>, n: &str) -> (r: Option<Value>)
    ensures
        match (r, lookup(env_view(env@), n@)) {
            (Some(a), Some(b)) => value_view(a) == b,
            (None, None) => true,
            _ => false,
        },
{
    let mut i: usize = env.len();
    proof {
        assert(env_view(env@).take(i as int) =~= env_view(env@));
    }
    while i > 0
        invariant
            i <= env@.len(),
            lookup(env_view(env@), n@) == lookup(env_view(env@).take(i as int), n@),
        decreases i,
    {
        let ghost pre = env_view(env@).take(i as int);
        assert(pre.last() == (env@[i - 1].0@, value_view(env@[i - 1].1)));
        if str_eq(env[i - 1].0.as_str(), n) {
            return Some(copy_value(&env[i - 1].1));
        }
        assert(pre.drop_last() =~= env_view(env@).take(i - 1));
        i = i - 1;
    }
    None
}

proof fn lemma_fn_index_first(prog: Seq<ItemFn>, n: Seq<char>, i: int)
    requires
        0 <= i < prog.len(),
        prog[i].name@ == n,
        forall|j: int| 0 <= j < i ==> #[trigger] prog[j].name@ != n,
    ensures
        fn_index(prog, n) == i,
{
    assert(exists|k: int| 0 <= k < prog.len() && #[trigger] prog[k].name@ == n);
    let k = choose|k: int| 0 <= k < prog.len() && #[trigger] prog[k].name@ == n && forall|j: int|
        0 <= j < k ==> #[trigger] prog[j].name@ != n;
    assert(0 <= k < prog.len() && prog[k].name@ == n && forall|j: int| 0 <= j < k ==> #[trigger] prog[j].name@ != n);
    if k < i {
        assert(prog[k].name@ != n);
    } else if k > i {
        assert(prog[i].name@ != n);
    }
}

fn find_fn(prog: &Vec<ItemFn>, n: &str) -> (r: Option<usize>)
    ensures
        match r {
            Some(i) => i < prog@.len() && fn_index(prog@, n@) == i,
            None => fn_index(prog@, n@) == -1,
        },
{
    let mut i: usize = 0;
    while i < prog.len()
        invariant
            i <= prog@.len(),
            forall|j: int| 0 <= j < i ==> #[trigger] prog@[j].name@ != n@,
        decreases prog.len() - i,
    {
        if str_eq(prog[i].name.as_str(), n) {
            proof {
                lemma_fn_index_first(prog@, n@, i as int);
            }
            return Some(i);
        }
        i = i + 1;
    }
    None
}

/// Runs function `name` of the program with `fuel` calls left, as
/// `run_fn` says.
pub fn run_fn_exec(prog: &Vec<ItemFn>, name: &str, fuel: u64) -> (r: Outcome)
    ensures
        outcome_view(r) == run_fn(prog@, name@, fuel as nat),
    decreases fuel, 1int, Block::End,
{
    let i = match find_fn(prog, name) {
        Some(i) => i,
        None => {
            return Outcome::Stuck;
        },
    };
    let mut env: Vec<(String, Value)> = Vec::new();
    assert(env_view(env@) =~= Seq::<(Seq<char>, ValueV)>::empty());
    match run_block_exec(prog, &mut env, &prog[i].body, fuel) {
        Outcome::Normal(v) => Outcome::Normal(v),
        Outcome::Return(v) => Outcome::Normal(v),
        Outcome::Stuck => Outcome::Stuck,
    }
}

fn run_block_exec(prog: &Vec<ItemFn>, env: &mut Vec<(String, Value)>, b: &Block, fuel: u64) -> (r: Outcome)
    ensures
        outcome_view(r) == run_block(prog@, env_view(old(env)@), *b, fuel as nat),
        final(env)@ == old(env)@,
    decreases fuel, 0int, *b,
{
    match b {
        Block::End => Outcome::Normal(Value::Unit),
        Block::Then(s, rest) => match &**s {
            Stmt::Local(n, e) => match run_expr_exec(prog, env, e, fuel) {
                Outcome::Normal(v) => {
                    let ghost e0 = env@;
                    let ghost vv = value_view(v);
                    env.push((n.clone(), v));
                    assert(env_view(env@) =~= env_view(e0).push((n@, vv)));
                    let r = run_block_exec(prog, env, rest, fuel);
                    let _ = env.pop();
                    assert(env@ =~= e0);
                    r
                },
                other => other,
            },
            Stmt::Expr(e, semi) => match run_expr_exec(prog, env, e, fuel) {
                Outcome::Normal(v) => {
                    let at_end = match &**rest {
                        Block::End => true,
                        _ => false,
                    };
                    if at_end {
                        if *semi {
                            Outcome::Normal(Value::Unit)
                        } else {
                            Outcome::Normal(v)
                        }
                    } else {
                        run_block_exec(prog, env, rest, fuel)
                    }
                },
                other => other,
            },
            Stmt::UseContext => {
                let at_end = match &**rest {
                    Block::End => true,
                    _ => false,
                };
                if at_end {
                    Outcome::Normal(Value::Unit)
                } else {
                    run_block_exec(prog, env, rest, fuel)
                }
            },
        },
    }
}

fn run_expr_exec(prog: &Vec<ItemFn>, env: &mut Vec<(String, Value)>, e: &Expr, fuel: u64) -> (r: Outcome)
    ensures
        outcome_view(r) == run_expr(prog@, env_view(old(env)@), *e, fuel as nat),
        final(env)@ == old(env)@,
    decreases fuel, 0int, *e,
{
    match &e.kind {
        ExprKind::Unit => Outcome::Normal(Value::Unit),
        ExprKind::Bool(b) => Outcome::Normal(Value::Bool(*b)),
        ExprKind::Str(s) => Outcome::Normal(Value::Str(s.clone())),
        ExprKind::Var(n) => match lookup_exec(env, n.as_str()) {
            Some(v) => Outcome::Normal(v),
            None => Outcome::Stuck,
        },
        ExprKind::NoneValue => Outcome::Normal(Value::Absent),
        ExprKind::Call(n, arg) => match arg {
            Some(a) => match run_expr_exec(prog, env, a, fuel) {
                Outcome::Normal(v) => {
                    if str_eq(n.as_str(), "Ok") {
                        Outcome::Normal(Value::Good(Box::new(v)))
                    } else if str_eq(n.as_str(), "Some") {
                        Outcome::Normal(Value::Present(Box::new(v)))
                    } else if str_eq(n.as_str(), "Err") {
                        match v {
                            Value::Error(c) => Outcome::Normal(Value::Bad(c)),
                            _ => Outcome::Stuck,
                        }
                    } else if str_eq(n.as_str(), "msg") {
                        match v {
                            Value::Str(s) => {
                                let mut c: Vec<String> = Vec::new();
                                let ghost sv = s@;
                                c.push(s);
                                assert(chain_view(c@) =~= seq![sv]);
                                Outcome::Normal(Value::Error(c))
                            },
                            _ => Outcome::Stuck,
                        }
                    } else {
                        Outcome::Stuck
                    }
                },
                other => other,
            },
            None => if fuel == 0 {
                Outcome::Stuck
            } else {
                run_fn_exec(prog, n.as_str(), fuel - 1)
            },
        },
        ExprKind::Method(r, m, a) => match run_expr_exec(prog, env, r, fuel) {
            Outcome::Normal(v) => match run_expr_exec(prog, env, a, fuel) {
                Outcome::Normal(Value::Str(s)) => {
                    if str_eq(m.as_str(), "with_context") || str_eq(m.as_str(), "context") {
                        match add_context_exec(v, s) {
                            Some(w) => Outcome::Normal(w),
                            None => Outcome::Stuck,
                        }
                    } else {
                        Outcome::Stuck
                    }
                },
                Outcome::Normal(_) => Outcome::Stuck,
                other => other,
            },
            other => other,
        },
        ExprKind::Try(x, _) => match run_expr_exec(prog, env, x, fuel) {
            Outcome::Normal(v) => match v {
                Value::Good(y) => Outcome::Normal(*y),
                Value::Present(y) => Outcome::Normal(*y),
                Value::Bad(c) => Outcome::Return(Value::Bad(c)),
                Value::Absent => Outcome::Return(Value::Absent),
                _ => Outcome::Stuck,
            },
            other => other,
        },
        ExprKind::Return(x, _) => match x {
            Some(y) => match run_expr_exec(prog, env, y, fuel) {
                Outcome::Normal(v) => Outcome::Return(v),
                other => other,
            },
            None => Outcome::Return(Value::Unit),
        },
        ExprKind::If(c, b1, b2) => match run_expr_exec(prog, env, c, fuel) {
            Outcome::Normal(Value::Bool(b)) => if b {
                run_block_exec(prog, env, b1, fuel)
            } else {
                run_block_exec(prog, env, b2, fuel)
            },
            Outcome::Normal(_) => Outcome::Stuck,
            other => other,
        },
        ExprKind::Block(b) => run_block_exec(prog, env, b, fuel),
        ExprKind::Loop(_) => Outcome::Stuck,
        ExprKind::Macro(_, x) => run_expr_exec(prog, env, x, fuel),
        ExprKind::Located(site) => Outcome::Normal(Value::Str(location_text(site))),
        ExprKind::Traced(x, site) => match run_expr_exec(prog, env, x, fuel) {
            Outcome::Normal(v) => match add_context_exec(v, location_text(site)) {
                Some(w) => Outcome::Normal(w),
                None => Outcome::Stuck,
            },
            other => other,
        },
        ExprKind::Context(x, c) => match run_expr_exec(prog, env, x, fuel) {
            Outcome::Normal(v) => match run_expr_exec(prog, env, c, fuel) {
                Outcome::Normal(Value::Str(s)) => match add_context_exec(v, s) {
                    Some(w) => Outcome::Normal(w),
                    None => Outcome::Stuck,
                },
                Outcome::Normal(_) => Outcome::Stuck,
                other => other,
            },
            other => other,
        },
        ExprKind::DebugText(x) => match run_expr_exec(prog, env, x, fuel) {
            Outcome::Normal(v) => Outcome::Normal(Value::Str(debug_text(&v))),
            other => other,
        },
        ExprKind::TraceError(_, _) => Outcome::Stuck,
        ExprKind::TraceErrorAt(_) => Outcome::Stuck,
        ExprKind::TraceFmt(_, _) => Outcome::Stuck,
        ExprKind::FmtError(_) => Outcome::Stuck,
    }
}


/// The contexts of a chain joined by `: `, outermost first.
pub open spec fn chain_text(c: Seq<Seq<char>>) -> Seq<char>
    decreases c.len(),
{
    if c.len() == 0 {
        Seq::empty()
    } else if c.len() == 1 {
        c[0]
    } else {
        chain_text(c.drop_last()) + ": "@ + c.last()
    }
}

/// How a value is shown: `()`, `true`, `"text"`, `Ok(..)`, `Err(<chain>)`,
/// `Some(..)`, `None`, and an error value by its chain.
pub open spec fn value_text(v: ValueV) -> Seq<char>
    decreases v,
{
    match v {
        ValueV::Unit => "()"@,
        ValueV::Bool(b) => if b {
            "true"@
        } else {
            "false"@
        },
        ValueV::Str(s) => "\""@ + s + "\""@,
        ValueV::Error(c) => chain_text(c),
        ValueV::Good(x) => "Ok("@ + value_text(*x) + ")"@,
        ValueV::Bad(c) => "Err("@ + chain_text(c) + ")"@,
        ValueV::Present(x) => "Some("@ + value_text(*x) + ")"@,
        ValueV::Absent => "None"@,
    }
}

fn chain_text_exec(c: &Vec<String>) -> (r: String)
    ensures
        r@ == chain_text(chain_view(c@)),
{
    let mut out = String::new();
    let mut i: usize = 0;
    assert(chain_view(c@).take(0) =~= Seq::<Seq<char>>::empty());
    while i < c.len()
        invariant
            i <= c@.len(),
            out@ == chain_text(chain_view(c@).take(i as int)),
        decreases c.len() - i,
    {
        let ghost prev = chain_view(c@).take(i as int);
        let ghost cur = chain_view(c@).take(i + 1);
        assert(cur.drop_last() =~= prev);
        assert(cur.last() == c@[i as int]@);
        if i > 0 {
            out.append(": ");
        }
        out.append(c[i].as_str());
        proof {
            if i == 0 {
                assert(out@ =~= cur[0]);
            } else {
                assert(out@ =~= chain_text(prev) + ": "@ + cur.last());
            }
        }
        i = i + 1;
    }
    assert(chain_view(c@).take(c@.len() as int) =~= chain_view(c@));
    out
}

/// How a value is shown, as `value_text` says.
pub fn debug_text(v: &Value) -> (r: String)
    ensures
        r@ == value_text(value_view(*v)),
    decreases v,
{
    let r = match v {
        Value::Unit => "()".to_owned(),
        Value::Bool(b) => if *b {
            "true".to_owned()
        } else {
            "false".to_owned()
        },
        Value::Str(s) => {
            let mut out = "\"".to_owned();
            out.append(s.as_str());
            out.append("\"");
            out
        },
        Value::Error(c) => chain_text_exec(c),
        Value::Good(x) => {
            let mut out = "Ok(".to_owned();
            out.append(debug_text(x).as_str());
            out.append(")");
            out
        },
        Value::Bad(c) => {
            let mut out = "Err(".to_owned();
            out.append(chain_text_exec(c).as_str());
            out.append(")");
            out
        },
        Value::Present(x) => {
            let mut out = "Some(".to_owned();
            out.append(debug_text(x).as_str());
            out.append(")");
            out
        },
        Value::Absent => "None".to_owned(),
    };
    assert(r@ =~= value_text(value_view(*v)));
    r
}


/// An error leaving through a traced `?` carries the location of the `?`
/// as its outermost context, above the contexts it already had.
pub proof fn lemma_traced_try_adds_location(
    prog: Seq<ItemFn>,
    env: Seq<(Seq<char>, ValueV)>,
    x: Expr,
    site: super::rewrite::Site,
    q: super::rewrite::Span,
    fuel: nat,
    c: Seq<Seq<char>>,
)
    requires
        run_expr(prog, env, x, fuel) == Flow::Normal(ValueV::Bad(c)),
    ensures
        run_expr(
            prog,
            env,
            Expr {
                kind: ExprKind::Try(
                    Box::new(Expr { kind: ExprKind::Traced(Box::new(x), site), span: x.span }),
                    q,
                ),
                span: x.span,
            },
            fuel,
        ) == Flow::Return(ValueV::Bad(seq![site_text(site)] + c)),
{
    reveal_with_fuel(run_expr, 3);
}

/// `trace_error!(context, error)`, once replaced, adds to the error the
/// location of the macro call and then the context, outermost.
pub proof fn lemma_trace_error_adds_location_then_context(
    prog: Seq<ItemFn>,
    env: Seq<(Seq<char>, ValueV)>,
    t: super::rewrite::Tracer,
    c: Expr,
    x: Expr,
    span: super::rewrite::Span,
    fuel: nat,
    msg: Seq<char>,
    chain: Seq<Seq<char>>,
)
    requires
        run_expr(prog, env, x, fuel) == Flow::Normal(ValueV::Error(chain)),
        run_expr(prog, env, c, fuel) == Flow::Normal(ValueV::Str(msg)),
    ensures
        run_expr(prog, env, super::rewrite::traced_error(t, c, x, span), fuel) == Flow::Normal(
            ValueV::Error(seq![msg, site_text(super::rewrite::site_of(t, span))] + chain),
        ),
{
    reveal_with_fuel(run_expr, 3);
    assert(seq![msg] + (seq![site_text(super::rewrite::site_of(t, span))] + chain) =~= seq![
        msg,
        site_text(super::rewrite::site_of(t, span)),
    ] + chain);
}

/// `trace_error!(error)`, once replaced, adds to the error the location
/// of the macro call, outermost.
pub proof fn lemma_trace_error_adds_location(
    prog: Seq<ItemFn>,
    env: Seq<(Seq<char>, ValueV)>,
    t: super::rewrite::Tracer,
    x: Expr,
    span: super::rewrite::Span,
    fuel: nat,
    chain: Seq<Seq<char>>,
)
    requires
        run_expr(prog, env, x, fuel) == Flow::Normal(ValueV::Error(chain)),
    ensures
        run_expr(prog, env, super::rewrite::located_error(t, x, span), fuel) == Flow::Normal(
            ValueV::Error(seq![site_text(super::rewrite::site_of(t, span))] + chain),
        ),
{
    reveal_with_fuel(run_expr, 2);
}

/// A success passes a traced operand unchanged.
pub proof fn lemma_traced_success_unchanged(
    prog: Seq<ItemFn>,
    env: Seq<(Seq<char>, ValueV)>,
    x: Expr,
    site: super::rewrite::Site,
    fuel: nat,
    v: ValueV,
)
    requires
        run_expr(prog, env, x, fuel) == Flow::Normal(ValueV::Good(Box::new(v))),
    ensures
        run_expr(prog, env, Expr { kind: ExprKind::Traced(Box::new(x), site), span: x.span }, fuel)
            == Flow::Normal(ValueV::Good(Box::new(v))),
{
    reveal_with_fuel(run_expr, 2);
}

} // verus!
