use vstd::prelude::*;
use vstd::string::*;
use crate::text::{str_eq, own};
use crate::diag::{Span, LintId, Finding, Report, suggest, opt_report};

verus! {

/// A unary operator.
#[derive(Clone, Copy, Debug, PartialEq, Eq, Structural)]
pub enum UnOp {
    Deref,
    Not,
    Neg,
}

/// The shape of an expression, as the structural comparison reads it.
#[derive(Debug)]
pub enum SExpr {
    Path(String),
    Lit(String),
    Field(Box<SExpr>, String),
    Unary(UnOp, Box<SExpr>),
    Binary(String, Box<SExpr>, Box<SExpr>),
    Index(Box<SExpr>, Box<SExpr>),
    AddrOf(Box<SExpr>),
    Call(Box<SExpr>, Vec<SExpr>),
    MethodCall(Box<SExpr>, String, Vec<SExpr>),
    Assign(Box<SExpr>, Box<SExpr>),
}

/// Evaluating the expression may have an observable effect: it is, or
/// holds, a call or an assignment.
pub open spec fn has_effect(e: SExpr) -> bool
    decreases e,
{
    match e {
        SExpr::Path(_) | SExpr::Lit(_) => false,
        SExpr::Field(a, _) => has_effect(*a),
        SExpr::Unary(_, a) => has_effect(*a),
        SExpr::Binary(_, a, b) => has_effect(*a) || has_effect(*b),
        SExpr::Index(a, b) => has_effect(*a) || has_effect(*b),
        SExpr::AddrOf(a) => has_effect(*a),
        SExpr::Call(..) | SExpr::MethodCall(..) | SExpr::Assign(..) => true,
    }
}

/// Structural equality that refuses any expression with an observable
/// effect: two calls are never equal, since moving a message from one
/// evaluation of a span to another could change which span carries it.
pub open spec fn pure_eq(l: SExpr, r: SExpr) -> bool
    decreases l,
{
    match (l, r) {
        (SExpr::Path(a), SExpr::Path(b)) => a@ == b@,
        (SExpr::Lit(a), SExpr::Lit(b)) => a@ == b@,
        (SExpr::Field(a, f), SExpr::Field(b, g)) => f@ == g@ && pure_eq(*a, *b),
        (SExpr::Unary(o, a), SExpr::Unary(p, b)) => o == p && pure_eq(*a, *b),
        (SExpr::Binary(o, a1, a2), SExpr::Binary(p, b1, b2)) => o@ == p@ && pure_eq(*a1, *b1)
            && pure_eq(*a2, *b2),
        (SExpr::Index(a1, a2), SExpr::Index(b1, b2)) => pure_eq(*a1, *b1) && pure_eq(*a2, *b2),
        (SExpr::AddrOf(a), SExpr::AddrOf(b)) => pure_eq(*a, *b),
        _ => false,
    }
}

/// Expressions that compare equal have no observable effect: the
/// comparison refuses calls and assignments anywhere inside them.
pub proof fn lemma_pure_eq_refuses_effects(l: SExpr, r: SExpr)
    ensures
        pure_eq(l, r) ==> !has_effect(l) && !has_effect(r),
    decreases l,
{
    match (l, r) {
        (SExpr::Field(a, _), SExpr::Field(b, _)) => lemma_pure_eq_refuses_effects(*a, *b),
        (SExpr::Unary(_, a), SExpr::Unary(_, b)) => lemma_pure_eq_refuses_effects(*a, *b),
        (SExpr::Binary(_, a1, a2), SExpr::Binary(_, b1, b2)) => {
            lemma_pure_eq_refuses_effects(*a1, *b1);
            lemma_pure_eq_refuses_effects(*a2, *b2);
        },
        (SExpr::Index(a1, a2), SExpr::Index(b1, b2)) => {
            lemma_pure_eq_refuses_effects(*a1, *b1);
            lemma_pure_eq_refuses_effects(*a2, *b2);
        },
        (SExpr::AddrOf(a), SExpr::AddrOf(b)) => lemma_pure_eq_refuses_effects(*a, *b),
        _ => {},
    }
}

/// Compares two expressions structurally, refusing any with an effect.
pub fn spanless_eq(l: &SExpr, r: &SExpr) -> (res: bool)
    ensures
        res == pure_eq(*l, *r),
    decreases l,
{
    match (l, r) {
        (SExpr::Path(a), SExpr::Path(b)) => str_eq(a.as_str(), b.as_str()),
        (SExpr::Lit(a), SExpr::Lit(b)) => str_eq(a.as_str(), b.as_str()),
        (SExpr::Field(a, f), SExpr::Field(b, g)) => str_eq(f.as_str(), g.as_str()) && spanless_eq(
            &**a,
            &**b,
        ),
        (SExpr::Unary(o, a), SExpr::Unary(p, b)) => *o == *p && spanless_eq(&**a, &**b),
        (SExpr::Binary(o, a1, a2), SExpr::Binary(p, b1, b2)) => str_eq(o.as_str(), p.as_str())
            && spanless_eq(&**a1, &**b1) && spanless_eq(&**a2, &**b2),
        (SExpr::Index(a1, a2), SExpr::Index(b1, b2)) => spanless_eq(&**a1, &**b1) && spanless_eq(
            &**a2,
            &**b2,
        ),
        (SExpr::AddrOf(a), SExpr::AddrOf(b)) => spanless_eq(&**a, &**b),
        _ => false,
    }
}

/// An argument of a call: its shape, and its source text if available.
#[derive(Debug)]
pub struct Arg {
    pub expr: SExpr,
    pub snippet: Option<String>,
}

/// The one method call a builder closure's body consists of, on a path
/// receiver (blocks holding a single statement already peeled off).
#[derive(Debug)]
pub struct BodyCall {
    pub method: String,
    pub args: Vec<Arg>,
}

/// A call of `span_lint_and_then`: its extent, its arguments, and, when its
/// fifth argument is a closure whose body is a single method call, that
/// call.
#[derive(Debug)]
pub struct AndThenCall {
    pub span: Span,
    pub args: Vec<Arg>,
    pub body: Option<BodyCall>,
}

/// An argument's source text, or `default` where it is not available.
pub open spec fn snip_or(a: Arg, default: Seq<char>) -> Seq<char> {
    match a.snippet {
        Some(s) => s@,
        None => default,
    }
}

/// The parts joined by `, `.
pub open spec fn comma_list(parts: Seq<Seq<char>>) -> Seq<char>
    decreases parts.len(),
{
    if parts.len() == 0 {
        seq![]
    } else if parts.len() == 1 {
        parts[0]
    } else {
        comma_list(parts.drop_last()) + ", "@ + parts.last()
    }
}

/// The text of a call of `name` with these arguments.
pub open spec fn call_text(name: Seq<char>, parts: Seq<Seq<char>>) -> Seq<char> {
    name + "("@ + comma_list(parts) + ")"@
}

/// The first four arguments of `span_lint_and_then` as text.
pub open spec fn head_parts(args: Seq<Arg>) -> Seq<Seq<char>> {
    seq![
        snip_or(args[0], "cx"@),
        snip_or(args[1], ".."@),
        snip_or(args[2], "span"@),
        snip_or(args[3], "\"...\""@),
    ]
}

/// The collapsed call that replaces a `span_lint_and_then` call, if its
/// closure only attaches one suggestion, help or note (the span-taking
/// ones only at the diagnostic's own span).
pub open spec fn collapsed(c: AndThenCall) -> Option<Seq<char>> {
    if c.args@.len() != 5 || c.body is None {
        None
    } else {
        let b = c.body->0;
        let m = b.method@;
        let a = b.args@;
        let head = head_parts(c.args@);
        let same_span = a.len() > 0 && pure_eq(c.args@[2].expr, a[0].expr);
        if m == "span_suggestion"@ && a.len() >= 4 && same_span {
            Some(
                call_text(
                    "span_lint_and_sugg"@,
                    head + seq![
                        snip_or(a[1], "\"...\""@),
                        snip_or(a[2], ".."@),
                        snip_or(a[3], "Applicability::MachineApplicable"@),
                    ],
                ),
            )
        } else if (m == "span_help"@ || m == "span_note"@) && a.len() >= 2 && same_span {
            Some(
                call_text(
                    if m == "span_help"@ {
                        "span_lint_and_help"@
                    } else {
                        "span_lint_and_note"@
                    },
                    head + seq!["Some("@ + head[2] + ")"@, snip_or(a[1], "\"...\""@)],
                ),
            )
        } else if (m == "help"@ || m == "note"@) && a.len() >= 1 {
            Some(
                call_text(
                    if m == "help"@ {
                        "span_lint_and_help"@
                    } else {
                        "span_lint_and_note"@
                    },
                    head + seq!["None"@, snip_or(a[0], "\"...\""@)],
                ),
            )
        } else {
            None
        }
    }
}

/// The finding on a collapsible `span_lint_and_then` call.
pub open spec fn collapsible_report(c: AndThenCall) -> Option<Report> {
    match collapsed(c) {
        Some(s) => Some(
            Report {
                lint: LintId::CollapsibleSpanLintCalls,
                span: c.span,
                message: "this call is collapsible"@,
                help: None,
                help_span: None,
                label: Some("collapse into"@),
                suggestion: Some(s),
                applicable: true,
            },
        ),
        None => None,
    }
}

/// The text of a call of `name` with the given arguments.
pub fn render_call(name: &str, parts: &Vec<String>) -> (r: String)
    ensures
        r@ == call_text(name@, parts@.map_values(|p: String| p@)),
{
    let ghost ps = parts@.map_values(|p: String| p@);
    let mut s = own(name);
    s.append("(");
    let mut i: usize = 0;
    proof {
        assert(ps.subrange(0, 0) =~= Seq::<Seq<char>>::empty());
    }
    while i < parts.len()
        invariant
            i <= parts@.len(),
            ps == parts@.map_values(|p: String| p@),
            s@ == name@ + "("@ + comma_list(ps.subrange(0, i as int)),
        decreases parts.len() - i,
    {
        let ghost before = s@;
        if i > 0 {
            s.append(", ");
        }
        s.append(parts[i].as_str());
        proof {
            let sub = ps.subrange(0, i + 1);
            assert(sub.drop_last() =~= ps.subrange(0, i as int));
            assert(sub.last() == parts@[i as int]@);
            if i == 0 {
                assert(comma_list(ps.subrange(0, 0)) =~= Seq::<char>::empty());
                assert(comma_list(sub) == sub[0]);
            }
            assert(s@ =~= name@ + "("@ + comma_list(sub));
        }
        i = i + 1;
    }
    s.append(")");
    proof {
        assert(ps.subrange(0, parts@.len() as int) =~= ps);
    }
    s
}

fn arg_snip(a: &Arg, default: &str) -> (r: String)
    ensures
        r@ == snip_or(*a, default@),
{
    match &a.snippet {
        Some(s) => own(s.as_str()),
        None => own(default),
    }
}

/// Reports a `span_lint_and_then` call whose closure only attaches one
/// suggestion, help or note, with the collapsed call that replaces it.
pub fn check_and_then_call(c: &AndThenCall) -> (r: Option<Finding>)
    ensures
        opt_report(r) == collapsible_report(*c),
{
    if c.args.len() != 5 {
        return None;
    }
    let b = match &c.body {
        Some(b) => b,
        None => return None,
    };
    let a = &b.args;
    let m = b.method.as_str();
    let same_span = a.len() > 0 && spanless_eq(&c.args[2].expr, &a[0].expr);
    let mut parts: Vec<String> = Vec::new();
    parts.push(arg_snip(&c.args[0], "cx"));
    parts.push(arg_snip(&c.args[1], ".."));
    parts.push(arg_snip(&c.args[2], "span"));
    parts.push(arg_snip(&c.args[3], "\"...\""));
    let ghost head = head_parts(c.args@);
    proof {
        assert(parts@.map_values(|p: String| p@) =~= head);
    }
    let name;
    if str_eq(m, "span_suggestion") && a.len() >= 4 && same_span {
        parts.push(arg_snip(&a[1], "\"...\""));
        parts.push(arg_snip(&a[2], ".."));
        parts.push(arg_snip(&a[3], "Applicability::MachineApplicable"));
        proof {
            assert(parts@.map_values(|p: String| p@) =~= head + seq![
                snip_or(a@[1], "\"...\""@),
                snip_or(a@[2], ".."@),
                snip_or(a@[3], "Applicability::MachineApplicable"@),
            ]);
        }
        name = "span_lint_and_sugg";
    } else if (str_eq(m, "span_help") || str_eq(m, "span_note")) && a.len() >= 2 && same_span {
        let mut opt = own("Some(");
        opt.append(parts[2].as_str());
        opt.append(")");
        parts.push(opt);
        parts.push(arg_snip(&a[1], "\"...\""));
        proof {
            assert(parts@.map_values(|p: String| p@) =~= head + seq![
                "Some("@ + head[2] + ")"@,
                snip_or(a@[1], "\"...\""@),
            ]);
        }
        name = if str_eq(m, "span_help") {
            "span_lint_and_help"
        } else {
            "span_lint_and_note"
        };
    } else if (str_eq(m, "help") || str_eq(m, "note")) && a.len() >= 1 {
        parts.push(own("None"));
        parts.push(arg_snip(&a[0], "\"...\""));
        proof {
            assert(parts@.map_values(|p: String| p@) =~= head + seq!["None"@, snip_or(a@[0], "\"...\""@)]);
        }
        name = if str_eq(m, "help") {
            "span_lint_and_help"
        } else {
            "span_lint_and_note"
        };
    } else {
        return None;
    }
    let sugg = render_call(name, &parts);
    Some(suggest(LintId::CollapsibleSpanLintCalls, c.span, "this call is collapsible", None, "collapse into", sugg, true))
}

/// The collapsed call is a call of `span_lint_and_sugg`,
/// `span_lint_and_help` or `span_lint_and_note`, never of
/// `span_lint_and_then`: checking the rewritten call finds nothing more.
pub proof fn lemma_collapsed_call_settles(c: AndThenCall)
    ensures
        collapsed(c) is Some ==> exists|name: Seq<char>, parts: Seq<Seq<char>>|
            collapsed(c) == Some(call_text(name, parts)) && name != "span_lint_and_then"@,
{
    reveal_strlit("span_lint_and_then");
    reveal_strlit("span_lint_and_sugg");
    reveal_strlit("span_lint_and_help");
    reveal_strlit("span_lint_and_note");
    assert("span_lint_and_sugg"@[14] != "span_lint_and_then"@[14]);
    assert("span_lint_and_help"@[14] != "span_lint_and_then"@[14]);
    assert("span_lint_and_note"@[14] != "span_lint_and_then"@[14]);
    if collapsed(c) is Some {
        let b = c.body->0;
        let m = b.method@;
        let a = b.args@;
        let head = head_parts(c.args@);
        let same_span = a.len() > 0 && pure_eq(c.args@[2].expr, a[0].expr);
        if m == "span_suggestion"@ && a.len() >= 4 && same_span {
            let parts = head + seq![
                snip_or(a[1], "\"...\""@),
                snip_or(a[2], ".."@),
                snip_or(a[3], "Applicability::MachineApplicable"@),
            ];
            assert(collapsed(c) == Some(call_text("span_lint_and_sugg"@, parts)));
        } else if (m == "span_help"@ || m == "span_note"@) && a.len() >= 2 && same_span {
            let name = if m == "span_help"@ {
                "span_lint_and_help"@
            } else {
                "span_lint_and_note"@
            };
            let parts = head + seq!["Some("@ + head[2] + ")"@, snip_or(a[1], "\"...\""@)];
            assert(collapsed(c) == Some(call_text(name, parts)));
        } else {
            let name = if m == "help"@ {
                "span_lint_and_help"@
            } else {
                "span_lint_and_note"@
            };
            let parts = head + seq!["None"@, snip_or(a[0], "\"...\""@)];
            assert(collapsed(c) == Some(call_text(name, parts)));
        }
    }
}

} // verus!
