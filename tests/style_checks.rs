use clippy_lints::collapsible::{check_and_then_call, render_call, spanless_eq, AndThenCall, Arg, BodyCall, SExpr, UnOp};
use clippy_lints::diag::{LintId, Span};
use clippy_lints::if_chain_style::{check_block, check_if, BlockInfo, IfExpr, Stmt, StmtKind, TailExpr};
use clippy_lints::passes::{check_msrv_impl, check_outer_expn, is_trigger_fn, ChainCall, CompilerLintFunctions, FnKind, PassImpl};
use clippy_lints::paths::{check_paths_order, AstItem};

fn s(x: &str) -> String {
    x.to_string()
}

fn sp(lo: u32, hi: u32) -> Span {
    Span { lo, hi }
}

fn span_expr() -> SExpr {
    SExpr::Field(Box::new(SExpr::Path(s("expr"))), s("span"))
}

fn arg(e: SExpr, text: &str) -> Arg {
    Arg { expr: e, snippet: Some(s(text)) }
}

fn lit(text: &str) -> Arg {
    arg(SExpr::Lit(s(text)), text)
}

fn and_then(method: &str, body_args: Vec<Arg>) -> AndThenCall {
    AndThenCall {
        span: sp(0, 200),
        args: vec![
            arg(SExpr::Path(s("cx")), "cx"),
            arg(SExpr::Path(s("LINT")), "LINT"),
            arg(span_expr(), "expr.span"),
            lit("msg"),
            arg(SExpr::Path(s("closure")), "|diag| { .. }"),
        ],
        body: Some(BodyCall { method: s(method), args: body_args }),
    }
}

#[test]
fn span_suggestion_collapses_into_sugg() {
    let c = and_then(
        "span_suggestion",
        vec![arg(span_expr(), "expr.span"), lit("help_msg"), lit("sugg.to_string()"), lit("Applicability::MachineApplicable")],
    );
    let f = check_and_then_call(&c).unwrap();
    assert_eq!(f.lint, LintId::CollapsibleSpanLintCalls);
    assert_eq!(f.message, "this call is collapsible");
    assert_eq!(f.label.as_deref(), Some("collapse into"));
    assert_eq!(f.span, sp(0, 200));
    assert_eq!(
        f.suggestion.unwrap(),
        "span_lint_and_sugg(cx, LINT, expr.span, msg, help_msg, sugg.to_string(), Applicability::MachineApplicable)"
    );
}

#[test]
fn span_help_and_note_collapse_with_span() {
    let c = and_then("span_help", vec![arg(span_expr(), "expr.span"), lit("help_msg")]);
    assert_eq!(
        check_and_then_call(&c).unwrap().suggestion.unwrap(),
        "span_lint_and_help(cx, LINT, expr.span, msg, Some(expr.span), help_msg)"
    );
    let c = and_then("span_note", vec![arg(span_expr(), "expr.span"), lit("note_msg")]);
    assert_eq!(
        check_and_then_call(&c).unwrap().suggestion.unwrap(),
        "span_lint_and_note(cx, LINT, expr.span, msg, Some(expr.span), note_msg)"
    );
}

#[test]
fn help_and_note_collapse_without_span() {
    let c = and_then("help", vec![lit("help_msg")]);
    assert_eq!(
        check_and_then_call(&c).unwrap().suggestion.unwrap(),
        "span_lint_and_help(cx, LINT, expr.span, msg, None, help_msg)"
    );
    let mut c = and_then("note", vec![Arg { expr: SExpr::Lit(s("x")), snippet: None }]);
    c.args[0].snippet = None;
    assert_eq!(
        check_and_then_call(&c).unwrap().suggestion.unwrap(),
        "span_lint_and_note(cx, LINT, expr.span, msg, None, \"...\")"
    );
}

#[test]
fn different_or_effectful_span_does_not_collapse() {
    let other = SExpr::Field(Box::new(SExpr::Path(s("item"))), s("span"));
    let c = and_then("span_help", vec![arg(other, "item.span"), lit("help_msg")]);
    assert!(check_and_then_call(&c).is_none());
    let mut c = and_then("span_note", vec![arg(SExpr::Call(Box::new(SExpr::Path(s("f"))), vec![]), "f()"), lit("n")]);
    c.args[2] = arg(SExpr::Call(Box::new(SExpr::Path(s("f"))), vec![]), "f()");
    assert!(check_and_then_call(&c).is_none());
    assert!(check_and_then_call(&and_then("emit", vec![lit("x")])).is_none());
    let mut c = and_then("help", vec![lit("h")]);
    c.args.pop();
    assert!(check_and_then_call(&c).is_none());
}

#[test]
fn spanless_eq_refuses_effects() {
    let a = SExpr::Unary(UnOp::Deref, Box::new(span_expr()));
    let b = SExpr::Unary(UnOp::Deref, Box::new(span_expr()));
    assert!(spanless_eq(&a, &b));
    let call = SExpr::MethodCall(Box::new(SExpr::Path(s("x"))), s("span"), vec![]);
    let call2 = SExpr::MethodCall(Box::new(SExpr::Path(s("x"))), s("span"), vec![]);
    assert!(!spanless_eq(&call, &call2));
    let asg = SExpr::Assign(Box::new(SExpr::Path(s("x"))), Box::new(SExpr::Lit(s("1"))));
    let asg2 = SExpr::Assign(Box::new(SExpr::Path(s("x"))), Box::new(SExpr::Lit(s("1"))));
    assert!(!spanless_eq(&asg, &asg2));
    assert!(!spanless_eq(&SExpr::Path(s("a")), &SExpr::Lit(s("a"))));
}

#[test]
fn render_call_joins_arguments() {
    assert_eq!(render_call("f", &vec![]), "f()");
    assert_eq!(render_call("f", &vec![s("a"), s("b")]), "f(a, b)");
}

#[test]
fn compiler_lint_method_on_context_is_reported() {
    let t = CompilerLintFunctions::new();
    let late = Some(vec![s("rustc_lint"), s("context"), s("LateContext")]);
    let f = t.check_method_call("span_lint", sp(4, 13), &late).unwrap();
    assert_eq!(f.lint, LintId::CompilerLintFunctions);
    assert_eq!(f.message, "usage of a compiler lint function");
    assert_eq!(f.help.unwrap(), "please use the Clippy variant of this function: `utils::span_lint`");
    let early = Some(vec![s("rustc_lint"), s("context"), s("EarlyContext")]);
    let f = t.check_method_call("span_lint_help", sp(4, 13), &early).unwrap();
    assert_eq!(f.help.unwrap(), "please use the Clippy variant of this function: `utils::span_lint_and_help`");
    assert!(t.check_method_call("span_lint", sp(4, 13), &Some(vec![s("other"), s("Ctx")])).is_none());
    assert!(t.check_method_call("emit", sp(4, 13), &late).is_none());
    assert!(t.check_method_call("lint", sp(4, 13), &None).is_none());
    assert_eq!(t.replacement("span_lint_note").unwrap(), "utils::span_lint_and_note");
    assert_eq!(t.replacement("struct_span_lint").unwrap(), "utils::span_lint");
}

fn chain(first: &str, second: &str, args: usize, ty: &[&str]) -> Vec<ChainCall> {
    vec![
        ChainCall { name: s(first), arg_count: 0, recv_ty: None, span: sp(30, 39) },
        ChainCall { name: s(second), arg_count: args, recv_ty: Some(ty.iter().map(|x| s(x)).collect()), span: sp(18, 28) },
    ]
}

#[test]
fn outer_expn_expn_data_is_rewritten() {
    let ctx = &["rustc_span", "hygiene", "SyntaxContext"];
    let f = check_outer_expn(sp(0, 41), &chain("expn_data", "outer_expn", 0, ctx)).unwrap();
    assert_eq!(f.lint, LintId::OuterExpnExpnData);
    assert_eq!(f.message, "usage of `outer_expn().expn_data()`");
    assert_eq!(f.label.as_deref(), Some("try"));
    assert_eq!(f.suggestion.unwrap(), "outer_expn_data()");
    assert_eq!(f.span, sp(18, 41));
    assert!(check_outer_expn(sp(0, 41), &chain("expn_data", "outer_expn", 1, ctx)).is_none());
    assert!(check_outer_expn(sp(0, 41), &chain("expn_data", "outer_expn", 0, &["x"])).is_none());
    assert!(check_outer_expn(sp(0, 41), &chain("outer_expn_data", "ctxt", 0, ctx)).is_none());
    assert!(check_outer_expn(sp(0, 41), &vec![]).is_none());
}

#[test]
fn trigger_function_is_recognised() {
    assert!(is_trigger_fn(&FnKind::Fn(s("it_looks_like_you_are_trying_to_kill_clippy"))));
    assert!(!is_trigger_fn(&FnKind::Fn(s("main"))));
    assert!(!is_trigger_fn(&FnKind::Closure));
}

fn pass_impl(trait_name: &str, items: &[&str]) -> PassImpl {
    PassImpl {
        head_span: sp(0, 40),
        head_snippet: Some(s("impl LateLintPass<'_> for Pass {")),
        trait_path: Some(vec![s("rustc_lint"), s("passes"), s(trait_name)]),
        self_is_struct: true,
        field_types: vec![vec![], vec![vec![s("core"), s("option"), s("Option")], vec![s("rustc_semver"), s("RustcVersion")]]],
        item_names: items.iter().map(|x| s(x)).collect(),
    }
}

#[test]
fn missing_msrv_extraction_is_reported() {
    let f = check_msrv_impl(&pass_impl("LateLintPass", &["check_expr"])).unwrap();
    assert_eq!(f.lint, LintId::MissingMsrvAttrImpl);
    assert_eq!(f.message, "`extract_msrv_attr!` macro missing from `LateLintPass` implementation");
    assert_eq!(f.help, None);
    assert_eq!(f.label.unwrap(), "add `extract_msrv_attr!(LateContext)` to the `LateLintPass` implementation");
    assert_eq!(
        f.suggestion.unwrap(),
        "impl LateLintPass<'_> for Pass {\n    extract_msrv_attr!(LateContext);"
    );
    let f = check_msrv_impl(&pass_impl("EarlyLintPass", &[])).unwrap();
    assert_eq!(f.label.unwrap(), "add `extract_msrv_attr!(EarlyContext)` to the `EarlyLintPass` implementation");
}

#[test]
fn msrv_extraction_present_or_not_needed() {
    assert!(check_msrv_impl(&pass_impl("LateLintPass", &["check_expr", "enter_lint_attrs"])).is_none());
    assert!(check_msrv_impl(&pass_impl("OtherTrait", &[])).is_none());
    let mut p = pass_impl("LateLintPass", &[]);
    p.field_types = vec![vec![vec![s("core"), s("option"), s("Option")]]];
    assert!(check_msrv_impl(&p).is_none());
    let mut p = pass_impl("LateLintPass", &[]);
    p.self_is_struct = false;
    assert!(check_msrv_impl(&p).is_none());
}

fn ast(name: &str, at: u32, children: Option<Vec<AstItem>>) -> AstItem {
    AstItem { name: s(name), span: sp(at, at + 5), children }
}

#[test]
fn paths_constants_out_of_order_are_reported() {
    let paths = vec![ast("ANY_TRAIT", 10, None), ast("VEC", 20, None), ast("BTREEMAP", 30, None), ast("HASHMAP", 40, None)];
    let krate = vec![ast("lib", 0, None), ast("utils", 1, Some(vec![ast("paths", 2, Some(paths))]))];
    let found = check_paths_order(&krate);
    assert_eq!(found.len(), 1);
    assert_eq!(found[0].lint, LintId::ClippyLintsInternal);
    assert_eq!(found[0].span, sp(30, 35));
    assert_eq!(found[0].message, "this constant should be before the previous constant due to lexical ordering");
    let sorted = vec![ast("utils", 1, Some(vec![ast("paths", 2, Some(vec![ast("A", 3, None), ast("AB", 4, None), ast("B", 5, None)]))]))];
    assert!(check_paths_order(&sorted).is_empty());
    assert!(check_paths_order(&vec![ast("utils", 1, None)]).is_empty());
}

fn tail(at: u32, chain: Option<Span>) -> TailExpr {
    TailExpr { span: sp(at, at + 10), if_chain: chain, is_if_without_else: true }
}

fn let_stmt(at: u32, chain: Option<Span>) -> Stmt {
    Stmt { kind: StmtKind::Local, span: sp(at, at + 5), if_chain: chain, multiline: false, same_ctxt: true, let_span: sp(at, at + 6), expr: None }
}

fn if_expr(chain: Option<Span>, parent: Option<Option<Span>>, block: BlockInfo) -> IfExpr {
    IfExpr {
        span: sp(0, 100),
        if_chain: chain,
        parent_if_chain: parent,
        has_else: false,
        is_else_clause: false,
        cond_is_and: false,
        cond_span: sp(3, 8),
        cond_multiline: false,
        then_block: Some(block),
    }
}

fn block(stmts: Vec<Stmt>, expr: Option<TailExpr>, chain: Option<Span>) -> BlockInfo {
    BlockInfo { span: sp(10, 90), if_chain: chain, parent_if_chain: Some(None), stmts, expr }
}

#[test]
fn plain_nested_if_draws_nothing() {
    let e = if_expr(None, Some(None), block(vec![], Some(tail(20, None)), None));
    assert!(check_if(&e).is_empty());
}

#[test]
fn if_chain_wrapping_one_if_is_reported() {
    let chain = Some(sp(500, 600));
    let e = if_expr(chain, Some(None), block(vec![], Some(tail(20, None)), chain));
    let found = check_if(&e);
    assert_eq!(found.len(), 1);
    assert_eq!(found[0].message, "`if_chain!` only has one `if`");
    assert_eq!(found[0].span, sp(0, 100));
}

#[test]
fn inner_if_of_a_chain_can_join_it() {
    let chain = Some(sp(500, 600));
    let e = if_expr(chain, Some(chain), block(vec![], Some(tail(20, None)), chain));
    let found = check_if(&e);
    assert_eq!(found.len(), 1);
    assert_eq!(found[0].message, "this `if` can be part of the outer `if_chain!`");
    assert_eq!(found[0].span, sp(20, 30));
    assert_eq!(found[0].help, None);
}

#[test]
fn nested_if_chains_name_the_lets_that_move() {
    let outer = Some(sp(500, 600));
    let inner = Some(sp(700, 800));
    let e = if_expr(
        outer,
        Some(outer),
        block(vec![let_stmt(12, None), let_stmt(40, None)], Some(tail(60, inner)), outer),
    );
    let found = check_if(&e);
    assert_eq!(found.len(), 1);
    assert_eq!(found[0].message, "this `if_chain!` can be merged with the outer `if_chain!`");
    assert_eq!(found[0].span, sp(700, 800));
    assert_eq!(found[0].help.as_deref(), Some("these `let` statements can also be in the `if_chain!`"));
    assert_eq!(found[0].help_span, Some(sp(12, 45)));
    let e = if_expr(None, Some(None), block(vec![let_stmt(12, None)], Some(tail(60, inner)), None));
    let found = check_if(&e);
    assert_eq!(found.len(), 1);
    assert_eq!(found[0].message, "this `if` can be part of the inner `if_chain!`");
    assert_eq!(found[0].span, sp(0, 100));
    assert_eq!(found[0].help.as_deref(), Some("this `let` statement can also be in the `if_chain!`"));
    assert_eq!(found[0].help_span, Some(sp(12, 17)));
}

#[test]
fn same_if_chain_nested_ifs_are_not_merged() {
    let chain = Some(sp(500, 600));
    let e = if_expr(chain, Some(chain), block(vec![], Some(tail(20, chain)), chain));
    assert!(check_if(&e).is_empty());
}

#[test]
fn multiline_and_condition_in_if_chain() {
    let chain = Some(sp(500, 600));
    let mut e = if_expr(chain, Some(chain), block(vec![], None, chain));
    e.has_else = true;
    e.cond_is_and = true;
    e.cond_multiline = true;
    let found = check_if(&e);
    assert_eq!(found.len(), 1);
    assert_eq!(found[0].message, "`if a && b;` should be `if a; if b;`");
    assert_eq!(found[0].span, sp(3, 8));
}

#[test]
fn let_at_top_of_if_chain_block() {
    let chain = Some(sp(500, 600));
    let b = BlockInfo { span: sp(10, 90), if_chain: chain, parent_if_chain: Some(None), stmts: vec![let_stmt(12, chain)], expr: None };
    let f = check_block(&b).unwrap();
    assert_eq!(f.lint, LintId::IfChainStyle);
    assert_eq!(f.message, "`let` expression should be above the `if_chain!`");
    assert_eq!(f.span, sp(12, 18));
    let b = BlockInfo {
        span: sp(10, 90),
        if_chain: chain,
        parent_if_chain: Some(chain),
        stmts: vec![let_stmt(12, chain), let_stmt(30, None)],
        expr: None,
    };
    assert_eq!(check_block(&b).unwrap().message, "`let` expression should be inside `then { .. }`");
    let b = BlockInfo {
        span: sp(10, 90),
        if_chain: chain,
        parent_if_chain: Some(chain),
        stmts: vec![let_stmt(12, chain), let_stmt(30, chain)],
        expr: None,
    };
    assert!(check_block(&b).is_none());
    let b = BlockInfo { span: sp(10, 90), if_chain: None, parent_if_chain: Some(None), stmts: vec![let_stmt(12, None)], expr: None };
    assert!(check_block(&b).is_none());
}
