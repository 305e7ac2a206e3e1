use vvclient::trace_error::select::{parse_select, BranchKind, Delim, SelectError, Tok};
use vvclient::trace_error::eval::{debug_text, run_fn_exec, Outcome};
use vvclient::trace_error::rewrite::{
    attach_function, is_ok_constructor, is_select_macro, location_text, Block, Expr, ExprKind,
    ItemFn, Site, Span, Stmt,
};

const ERROR_MSG: &str = "it-is-error-message";

fn sp(line: u32, column: u32) -> Span {
    Span { line, column }
}

fn ex(kind: ExprKind, line: u32, column: u32) -> Expr {
    Expr { kind, span: sp(line, column) }
}

fn text(s: &str, line: u32, column: u32) -> Expr {
    ex(ExprKind::Str(s.to_string()), line, column)
}

fn call(name: &str, arg: Option<Expr>, line: u32, column: u32) -> Expr {
    ex(ExprKind::Call(name.to_string(), arg.map(Box::new)), line, column)
}

fn unit(line: u32, column: u32) -> Expr {
    ex(ExprKind::Unit, line, column)
}

/// `Err(Error::msg(msg))` starting at the given position.
fn err_msg(msg: &str, line: u32, column: u32) -> Expr {
    let m = call("msg", Some(text(msg, line, column)), line, column);
    call("Err", Some(m), line, column)
}

/// `Ok(())` starting at the given position.
fn ok_unit(line: u32, column: u32) -> Expr {
    call("Ok", Some(unit(line, column)), line, column)
}

fn with_context(recv: Expr, msg: &str, line: u32, column: u32) -> Expr {
    let arg = text(msg, line, column);
    ex(ExprKind::Method(Box::new(recv), "with_context".to_string(), Box::new(arg)), line, column)
}

fn ret(value: Expr, line: u32, column: u32) -> Expr {
    ex(ExprKind::Return(Some(Box::new(value)), sp(line, column)), line, column)
}

fn try_op(operand: Expr, q_line: u32, q_column: u32) -> Expr {
    let span = operand.span;
    Expr { kind: ExprKind::Try(Box::new(operand), sp(q_line, q_column)), span }
}

fn var(name: &str, line: u32, column: u32) -> Expr {
    ex(ExprKind::Var(name.to_string()), line, column)
}

fn mac(name: &str, expansion: Expr, line: u32, column: u32) -> Expr {
    ex(ExprKind::Macro(name.to_string(), Box::new(expansion)), line, column)
}

fn block(stmts: Vec<Stmt>) -> Block {
    let mut b = Block::End;
    for s in stmts.into_iter().rev() {
        b = Block::Then(Box::new(s), Box::new(b));
    }
    b
}

fn tail(e: Expr) -> Stmt {
    Stmt::Expr(e, false)
}

fn semi(e: Expr) -> Stmt {
    Stmt::Expr(e, true)
}

fn item(name: &str, has_output: bool, stmts: Vec<Stmt>) -> ItemFn {
    ItemFn { name: name.to_string(), has_output, body: block(stmts) }
}

fn traced(file: &str, fns: Vec<ItemFn>) -> Vec<ItemFn> {
    fns.into_iter().map(|f| attach_function(f, file.to_string())).collect()
}

/// How a call of `name` ends, shown as `{:?}` shows a result.
fn run(prog: &Vec<ItemFn>, name: &str) -> String {
    match run_fn_exec(prog, name, 16) {
        Outcome::Normal(v) => debug_text(&v),
        Outcome::Return(v) => debug_text(&v),
        Outcome::Stuck => "stuck".to_string(),
    }
}

fn assert_contains(got: String, want: &str) {
    assert!(got.contains(want), "msg [{}]", got);
}

fn assert_not_contains(got: String, want: &str) {
    assert!(!got.contains(want), "msg [{}]", got);
}

#[test]
fn test_print() {
    let file = "src/tests/poc.rs";
    let here = mac("trace_here", unit(78, 20), 78, 20);
    let println = mac("println", unit(79, 9), 79, 9);
    let f = item(
        "mac_fn_line",
        false,
        vec![Stmt::Local("name".to_string(), here), semi(println)],
    );
    let prog = traced(file, vec![f]);
    let body = match &prog[0].body {
        Block::Then(first, rest) => {
            assert!(matches!(&**first, Stmt::UseContext));
            &**rest
        },
        Block::End => panic!("empty body"),
    };
    match body {
        Block::Then(first, _) => match &**first {
            Stmt::Local(_, e) => match &e.kind {
                ExprKind::Located(site) => {
                    assert_eq!(location_text(site), "at src/tests/poc.rs:78:20, mac_fn_line()");
                },
                _ => panic!("trace_here!() not replaced"),
            },
            _ => panic!("unexpected statement"),
        },
        Block::End => panic!("empty body"),
    }
    assert_eq!(run(&prog, "mac_fn_line"), "()");
}

fn error1_program() -> Vec<ItemFn> {
    let file = "src/tests/test_macro/error1.rs";
    traced(
        file,
        vec![
            item("error1", true, vec![tail(err_msg(ERROR_MSG, 10, 5))]),
            item("error2", true, vec![tail(ret(err_msg(ERROR_MSG, 17, 12), 17, 5))]),
            item("error3", true, vec![semi(ret(err_msg(ERROR_MSG, 24, 12), 24, 5))]),
            item("error4", true, vec![semi(ret(err_msg(ERROR_MSG, 31, 12), 31, 5))]),
            item(
                "error5",
                true,
                vec![semi(ret(with_context(err_msg(ERROR_MSG, 38, 12), "context in error", 38, 12), 38, 5))],
            ),
        ],
    )
}

#[test]
fn error1_test_error1() {
    let prog = error1_program();
    assert_contains(run(&prog, "error1"), "at src/tests/test_macro/error1.rs:10:5, error1()");
    assert_contains(run(&prog, "error2"), "at src/tests/test_macro/error1.rs:17:5, error2()");
    assert_contains(run(&prog, "error3"), "at src/tests/test_macro/error1.rs:24:5, error3()");
    assert_contains(run(&prog, "error4"), "at src/tests/test_macro/error1.rs:31:5, error4()");
    assert_contains(run(&prog, "error5"), "at src/tests/test_macro/error1.rs:38:5, error5()");
}

#[test]
fn test_error2() {
    let file = "src/tests/test_macro/error2.rs";
    let prog = traced(
        file,
        vec![
            item("error1", true, vec![tail(err_msg(ERROR_MSG, 10, 5))]),
            item("error2", true, vec![tail(ret(err_msg(ERROR_MSG, 17, 12), 17, 5))]),
            item("error3", true, vec![semi(ret(err_msg(ERROR_MSG, 24, 12), 24, 5))]),
            item("error4", true, vec![semi(ret(err_msg(ERROR_MSG, 31, 12), 31, 5))]),
            item("error5", true, vec![tail(with_context(err_msg(ERROR_MSG, 38, 5), "context in error", 38, 5))]),
            item(
                "error6",
                true,
                vec![tail(ret(with_context(err_msg(ERROR_MSG, 45, 12), "context in error", 45, 12), 45, 5))],
            ),
        ],
    );
    assert_contains(run(&prog, "error1"), "at src/tests/test_macro/error2.rs:10:5, error1()");
    assert_contains(run(&prog, "error2"), "at src/tests/test_macro/error2.rs:17:5, error2()");
    assert_contains(run(&prog, "error3"), "at src/tests/test_macro/error2.rs:24:5, error3()");
    assert_contains(run(&prog, "error4"), "at src/tests/test_macro/error2.rs:31:5, error4()");
    assert_contains(run(&prog, "error5"), "at src/tests/test_macro/error2.rs:38:5, error5()");
    assert_contains(run(&prog, "error6"), "at src/tests/test_macro/error2.rs:45:5, error6()");
}

#[test]
fn error3_test_error() {
    let file = "src/tests/test_macro/error3.rs";
    let prog = traced(
        file,
        vec![
            item("error1", true, vec![tail(err_msg(ERROR_MSG, 11, 5))]),
            item(
                "throw_err_1",
                true,
                vec![semi(try_op(call("error1", None, 18, 5), 18, 13)), tail(ok_unit(19, 5))],
            ),
            item(
                "throw_err_2",
                true,
                vec![
                    semi(try_op(with_context(call("error1", None, 26, 5), "error1 failed", 26, 5), 26, 45)),
                    tail(ok_unit(27, 5)),
                ],
            ),
            item(
                "throw_err_3",
                true,
                vec![
                    semi(try_op(with_context(call("error1", None, 34, 5), "error1 failed", 34, 5), 35, 41)),
                    tail(ok_unit(36, 5)),
                ],
            ),
        ],
    );
    let error1 = "at src/tests/test_macro/error3.rs:11:5, error1()";
    assert_contains(run(&prog, "throw_err_1"), error1);
    assert_contains(run(&prog, "throw_err_1"), "at src/tests/test_macro/error3.rs:18:13, throw_err_1()");
    assert_contains(run(&prog, "throw_err_2"), error1);
    assert_contains(run(&prog, "throw_err_2"), "at src/tests/test_macro/error3.rs:26:45, throw_err_2()");
    assert_contains(run(&prog, "throw_err_3"), error1);
    assert_contains(run(&prog, "throw_err_3"), "at src/tests/test_macro/error3.rs:35:41, throw_err_3()");
}

#[test]
fn error5_test_error() {
    let file = "src/tests/test_macro/error5.rs";
    let prog = traced(
        file,
        vec![
            item("error1", true, vec![tail(err_msg(ERROR_MSG, 11, 5))]),
            item("throw_err_1", true, vec![tail(call("error1", None, 19, 5))]),
            item("throw_err_2", true, vec![tail(ret(call("error1", None, 26, 12), 26, 5))]),
        ],
    );
    let error1 = "at src/tests/test_macro/error5.rs:11:5, error1()";
    assert_contains(run(&prog, "throw_err_1"), error1);
    assert_contains(run(&prog, "throw_err_1"), "at src/tests/test_macro/error5.rs:19:5, throw_err_1()");
    assert_contains(run(&prog, "throw_err_2"), error1);
    assert_contains(run(&prog, "throw_err_2"), "at src/tests/test_macro/error5.rs:26:5, throw_err_2()");
}

#[test]
fn test_macro_expr() {
    let file = "src/tests/test_macro/macro_rules.rs";
    let return_err = mac("return_err", ret(err_msg("unsupported", 28, 9), 28, 9), 28, 9);
    let opt = ex(
        ExprKind::If(
            Box::new(var("yes", 24, 18)),
            Box::new(block(vec![tail(call("Some", Some(unit(25, 14)), 25, 9))])),
            Box::new(block(vec![tail(return_err)])),
        ),
        24,
        15,
    );
    let prog = traced(
        file,
        vec![item(
            "error1",
            true,
            vec![
                Stmt::Local("yes".to_string(), ex(ExprKind::Bool(false), 22, 15)),
                Stmt::Local("opt".to_string(), opt),
                semi(mac("assert_eq", unit(31, 5), 31, 5)),
                tail(ok_unit(33, 5)),
            ],
        )],
    );
    assert_not_contains(run(&prog, "error1"), ", error1()");
}

#[test]
fn ok_test() {
    let file = "src/tests/test_macro/ok.rs";
    let ok_ok = |l: u32, c: u32| call("Ok", Some(ok_unit(l, c)), l, c);
    let prog = traced(
        file,
        vec![
            item("foo_ok11", true, vec![tail(ok_unit(9, 5))]),
            item("foo_ok12", true, vec![tail(ret(ok_unit(14, 12), 14, 5))]),
            item("foo_ok13", true, vec![semi(ret(ok_unit(19, 12), 19, 5))]),
            item("foo_ok21", true, vec![tail(ok_unit(26, 5))]),
            item("foo_ok22", true, vec![tail(ret(ok_unit(31, 12), 31, 5))]),
            item("foo_ok23", true, vec![semi(ret(ok_unit(36, 12), 36, 5))]),
            item("foo_ok31", true, vec![tail(ok_ok(43, 5))]),
            item("foo_ok32", true, vec![tail(ret(ok_ok(48, 12), 48, 5))]),
            item("foo_ok33", true, vec![semi(ret(ok_ok(53, 12), 53, 5))]),
            item("foo_ok41", true, vec![tail(ok_ok(60, 5))]),
            item("foo_ok42", true, vec![tail(ret(ok_ok(65, 12), 65, 5))]),
            item("foo_ok43", true, vec![semi(ret(ok_ok(70, 12), 70, 5))]),
            item(
                "foo_ok44",
                true,
                vec![semi(ret(with_context(ok_ok(75, 12), "never failed", 75, 12), 75, 5))],
            ),
        ],
    );
    assert_eq!(run(&prog, "foo_ok11"), "Ok(())");
    assert_eq!(run(&prog, "foo_ok12"), "Ok(())");
    assert_eq!(run(&prog, "foo_ok13"), "Ok(())");

    assert_eq!(run(&prog, "foo_ok21"), "Ok(())");
    assert_eq!(run(&prog, "foo_ok22"), "Ok(())");
    assert_eq!(run(&prog, "foo_ok23"), "Ok(())");

    assert_eq!(run(&prog, "foo_ok31"), "Ok(Ok(()))");
    assert_eq!(run(&prog, "foo_ok32"), "Ok(Ok(()))");
    assert_eq!(run(&prog, "foo_ok33"), "Ok(Ok(()))");

    assert_eq!(run(&prog, "foo_ok41"), "Ok(Ok(()))");
    assert_eq!(run(&prog, "foo_ok42"), "Ok(Ok(()))");
    assert_eq!(run(&prog, "foo_ok43"), "Ok(Ok(()))");
    assert_eq!(run(&prog, "foo_ok44"), "Ok(Ok(()))");
}

#[test]
fn option_test_error1() {
    let file = "src/tests/test_macro/option.rs";
    let opt = ex(
        ExprKind::If(
            Box::new(var("yes", 14, 18)),
            Box::new(block(vec![tail(call("Some", Some(unit(15, 14)), 15, 9))])),
            Box::new(block(vec![tail(ex(ExprKind::NoneValue, 17, 9))])),
        ),
        14,
        15,
    );
    let prog = traced(
        file,
        vec![item(
            "error1",
            true,
            vec![
                Stmt::Local("yes".to_string(), ex(ExprKind::Bool(false), 10, 15)),
                Stmt::Local("opt".to_string(), opt),
                semi(mac("assert_eq", unit(20, 5), 20, 5)),
                tail(with_context(var("opt", 22, 5), "is None", 22, 5)),
            ],
        )],
    );
    assert_contains(run(&prog, "error1"), "at src/tests/test_macro/option.rs:22:5, error1()");
}

#[test]
fn chain_lists_contexts_outermost_first() {
    let file = "f.rs";
    let prog = traced(
        file,
        vec![
            item("inner", true, vec![tail(err_msg("boom", 2, 5))]),
            item("outer", true, vec![semi(try_op(call("inner", None, 5, 5), 5, 12)), tail(ok_unit(6, 5))]),
        ],
    );
    assert_eq!(
        run(&prog, "outer"),
        "Err(at f.rs:5:12, outer(): at f.rs:2:5, inner(): boom)"
    );
}

#[test]
fn functions_without_output_are_not_traced() {
    let prog = traced("f.rs", vec![item("quiet", false, vec![tail(err_msg("boom", 3, 5))])]);
    assert_eq!(run(&prog, "quiet"), "Err(boom)");
}

#[test]
fn ok_constructor_detection() {
    assert!(is_ok_constructor(&ok_unit(1, 1)));
    assert!(!is_ok_constructor(&err_msg("x", 1, 1)));
    assert!(!is_ok_constructor(&call("Okay", None, 1, 1)));
}

#[test]
fn select_macro_names() {
    assert!(is_select_macro("select"));
    assert!(is_select_macro("biased_select"));
    assert!(!is_select_macro("selec"));
    assert!(!is_select_macro("join"));
}

#[test]
fn location_text_format() {
    let site = Site { file: "src/a.rs".to_string(), span: sp(120, 7), fn_name: "go".to_string() };
    assert_eq!(location_text(&site), "at src/a.rs:120:7, go()");
}

#[test]
fn trace_error_macro_adds_location_then_context() {
    let file = "src/glue/report.rs";
    let msg = call("msg", Some(text("boom", 2, 13)), 2, 13);
    let made = ex(
        ExprKind::TraceError(Box::new(text("finished error", 3, 32)), Box::new(var("e", 3, 50))),
        3,
        15,
    );
    let f = item(
        "report",
        true,
        vec![
            Stmt::Local("e".to_string(), msg),
            Stmt::Local("err".to_string(), made),
            tail(call("Err", Some(var("err", 4, 9)), 4, 5)),
        ],
    );
    let prog = traced(file, vec![f]);
    assert_eq!(
        run(&prog, "report"),
        "Err(at src/glue/report.rs:4:5, report(): finished error: at src/glue/report.rs:3:15, report(): boom)"
    );
}

#[test]
fn trace_fmt_and_fmt_error_give_debug_text() {
    let file = "src/glue/report.rs";
    let msg = || call("msg", Some(text("boom", 2, 13)), 2, 13);
    let fmt = ex(ExprKind::TraceFmt(Box::new(text("ctx", 3, 20)), Box::new(var("e", 3, 27))), 3, 9);
    let f = item("describe", true, vec![Stmt::Local("e".to_string(), msg()), tail(fmt)]);
    let plain = ex(ExprKind::FmtError(Box::new(var("e", 3, 20))), 3, 9);
    let g = item("plain", false, vec![Stmt::Local("e".to_string(), msg()), tail(plain)]);
    let prog = traced(file, vec![f, g]);
    // the debug text is a macro result: it is not traced
    assert_eq!(run(&prog, "describe"), "\"ctx: at src/glue/report.rs:3:9, describe(): boom\"");
    assert_eq!(run(&prog, "plain"), "\"boom\"");
}

#[test]
fn unreplaced_trace_macros_do_not_run() {
    let f = item(
        "raw",
        true,
        vec![tail(ex(ExprKind::FmtError(Box::new(text("x", 1, 1))), 1, 1))],
    );
    assert_eq!(run(&vec![f], "raw"), "stuck");
}

fn branch_with_try(name: &str) -> Expr {
    let body = block(vec![semi(try_op(call("inner", None, 5, 13), 5, 20))]);
    mac(name, ex(ExprKind::Block(Box::new(body)), 4, 5), 4, 5)
}

#[test]
fn select_branches_are_rewritten() {
    let file = "src/select_branches.rs";
    let prog = traced(
        file,
        vec![
            item("inner", true, vec![tail(err_msg(ERROR_MSG, 1, 5))]),
            item("picks", true, vec![semi(branch_with_try("select")), tail(ok_unit(7, 5))]),
            item("joins", true, vec![semi(branch_with_try("join")), tail(ok_unit(7, 5))]),
        ],
    );
    let picked = run(&prog, "picks");
    assert_contains(picked.clone(), "at src/select_branches.rs:5:20, picks()");
    assert_contains(picked, ERROR_MSG);
    let joined = run(&prog, "joins");
    assert_not_contains(joined.clone(), "5:20");
    assert_contains(joined, ERROR_MSG);
}

#[test]
fn one_argument_trace_error_adds_location() {
    let file = "src/glue/report.rs";
    let msg = call("msg", Some(text("boom", 2, 13)), 2, 13);
    let made = ex(ExprKind::TraceErrorAt(Box::new(var("e", 3, 28))), 3, 15);
    let f = item(
        "report",
        false,
        vec![Stmt::Local("e".to_string(), msg), Stmt::Local("err".to_string(), made), tail(call("Err", Some(var("err", 4, 9)), 4, 5))],
    );
    let prog = traced(file, vec![f]);
    assert_eq!(run(&prog, "report"), "Err(at src/glue/report.rs:3:15, report(): boom)");
}

#[test]
fn rewritten_body_starts_with_the_context_import() {
    let prog = traced("src/empty.rs", vec![item("nothing", true, vec![])]);
    match &prog[0].body {
        Block::Then(first, rest) => {
            assert!(matches!(&**first, Stmt::UseContext));
            assert!(matches!(&**rest, Block::End));
        },
        Block::End => panic!("the import is missing"),
    }
    assert_eq!(run(&prog, "nothing"), "()");
}

fn id(s: &str) -> Tok {
    Tok::Ident(s.to_string())
}

fn p(c: char) -> Tok {
    Tok::Punct(c, false)
}

fn arrow() -> Vec<Tok> {
    vec![Tok::Punct('=', true), p('>')]
}

fn group(d: Delim, inner: Vec<Tok>) -> Tok {
    Tok::Group(d, inner)
}

/// `name = recv_from.recv() => { handle(); },`
fn bind_branch(name: &str, from: &str, handle: &str) -> Vec<Tok> {
    let mut v = vec![id(name), p('='), id(from), p('.'), id("recv"), group(Delim::Paren, vec![])];
    v.extend(arrow());
    v.push(group(Delim::Brace, vec![id(handle), group(Delim::Paren, vec![]), p(';')]));
    v.push(p(','));
    v
}

/// The text of tokens as `proc_macro2` prints them.
fn text_of(toks: &[Tok]) -> String {
    toks.iter()
        .map(|t| match t {
            Tok::Ident(n) => n.clone(),
            Tok::Punct(c, _) => c.to_string(),
            Tok::Str(s) => format!("{s:?}"),
            Tok::Int(v) => v.to_string(),
            Tok::Group(Delim::Paren, inner) => format!("({})", text_of(inner)),
            Tok::Group(Delim::Bracket, inner) => format!("[{}]", text_of(inner)),
            Tok::Group(Delim::Brace, inner) if inner.is_empty() => "{ }".to_string(),
            Tok::Group(Delim::Brace, inner) => format!("{{ {} }}", text_of(inner)),
        })
        .collect::<Vec<_>>()
        .join(" ")
}

#[test]
fn test_parse() {
    let mut toks = bind_branch("a", "chan_a", "handle_a");
    toks.extend(bind_branch("b", "chan_b", "handle_b"));
    assert!(is_select_macro("select"));
    let m = parse_select(&toks).unwrap();
    assert!(!m.biased);
    assert_eq!(m.branches.len(), 2);
    let expected = [("a", "chan_a . recv ()", "{ handle_a () ; }"), ("b", "chan_b . recv ()", "{ handle_b () ; }")];
    for (b, (pat, fut, body)) in m.branches.iter().zip(expected.iter()) {
        match b.kind {
            BranchKind::Bind(ps, pe, fs, fe) => {
                assert_eq!(text_of(&toks[ps..pe]), *pat);
                assert_eq!(text_of(&toks[fs..fe]), *fut);
            },
            _ => panic!("expected a binding branch"),
        }
        assert_eq!(text_of(&toks[b.body_start..b.body_end]), *body);
    }
}

#[test]
fn select_biased_and_wait_branches() {
    let mut toks = vec![id("biased"), p(';')];
    toks.extend(vec![id("rx"), p('.'), id("recv"), group(Delim::Paren, vec![])]);
    toks.extend(arrow());
    toks.push(group(Delim::Brace, vec![]));
    toks.push(p(','));
    let m = parse_select(&toks).unwrap();
    assert!(m.biased);
    assert_eq!(m.branches.len(), 1);
    assert_eq!(m.branches[0].kind, BranchKind::Wait(2, 6));
    assert_eq!((m.branches[0].body_start, m.branches[0].body_end), (8, 9));
}

#[test]
fn select_branch_read_as_pattern_first() {
    // `default` and `tick()` read as patterns, and the `=` of `=>` then
    // counts as the `=` of a binding branch, whose future is missing
    let mut toks = vec![id("default")];
    toks.extend(arrow());
    toks.push(group(Delim::Brace, vec![]));
    assert_eq!(parse_select(&toks).err(), Some(SelectError::Syntax));
    let mut toks = vec![id("tick"), group(Delim::Paren, vec![])];
    toks.extend(arrow());
    toks.push(group(Delim::Brace, vec![]));
    assert_eq!(parse_select(&toks).err(), Some(SelectError::Syntax));
}

#[test]
fn select_errors() {
    // a branch starting with `=>` starts none of the forms
    let mut toks = arrow();
    toks.push(group(Delim::Brace, vec![]));
    assert_eq!(parse_select(&toks).err(), Some(SelectError::UnknownBranch));
    // a future without `=>`
    let toks = vec![id("tick"), group(Delim::Paren, vec![]), group(Delim::Brace, vec![])];
    assert_eq!(parse_select(&toks).err(), Some(SelectError::Syntax));
    // nothing at all: no branches
    let m = parse_select(&vec![]).unwrap();
    assert!(!m.biased && m.branches.is_empty());
}
