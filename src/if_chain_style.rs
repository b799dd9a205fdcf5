use vstd::prelude::*;
use vstd::string::*;
use crate::text::own;
use crate::diag::{Span, LintId, Finding, Report, finding, opt_report, opt_seq, reports};

verus! {

/// An expression at the end of a block: its extent, the `if_chain!`
/// invocation its extent was expanded from (if any), and whether it is an
/// `if` or `if let` without an `else`.
#[derive(Clone, Copy, Debug)]
pub struct TailExpr {
    pub span: Span,
    pub if_chain: Option<Span>,
    pub is_if_without_else: bool,
}

/// The kinds of statement.
#[derive(Clone, Copy, Debug, PartialEq, Eq, Structural)]
pub enum StmtKind {
    Local,
    Expr,
    Semi,
    Item,
}

/// A statement: its kind and extent, the `if_chain!` invocation its extent
/// was expanded from, whether it spans several lines, whether its extent
/// has the same syntax context as its block's, the extent of the whole
/// `let ...;` for a `let` statement, and for an expression statement the
/// expression.
#[derive(Clone, Copy, Debug)]
pub struct Stmt {
    pub kind: StmtKind,
    pub span: Span,
    pub if_chain: Option<Span>,
    pub multiline: bool,
    pub same_ctxt: bool,
    pub let_span: Span,
    pub expr: Option<TailExpr>,
}

/// A block: its extent, the `if_chain!` invocation its extent was expanded
/// from, the `if_chain!` invocation of its nearest ancestor that is neither
/// a block expression nor a statement (`None` when it has none), its
/// statements and its final expression.
#[derive(Clone, Debug)]
pub struct BlockInfo {
    pub span: Span,
    pub if_chain: Option<Span>,
    pub parent_if_chain: Option<Option<Span>>,
    pub stmts: Vec<Stmt>,
    pub expr: Option<TailExpr>,
}

/// An `if` or `if let` expression: its extent, the `if_chain!` invocation
/// it was expanded from, the `if_chain!` invocation of its nearest ancestor
/// that is neither a block expression nor a statement, whether it has an
/// `else`, whether it is itself the `else` of another `if`, its condition
/// (whether it is an `&&`, its extent, whether it spans several lines) and
/// its `then` branch when that is a block.
#[derive(Clone, Debug)]
pub struct IfExpr {
    pub span: Span,
    pub if_chain: Option<Span>,
    pub parent_if_chain: Option<Option<Span>>,
    pub has_else: bool,
    pub is_else_clause: bool,
    pub cond_is_and: bool,
    pub cond_span: Span,
    pub cond_multiline: bool,
    pub then_block: Option<BlockInfo>,
}

/// The node is the outermost of its `if_chain!` invocation: its nearest
/// ancestor that is no block expression or statement exists and comes from
/// another invocation, or from none.
pub open spec fn is_first_in_chain(parent: Option<Option<Span>>, chain: Span) -> bool {
    match parent {
        Some(p) => p != Some(chain),
        None => false,
    }
}

/// The statements and final expression of a block are (part of) the
/// `then { .. }` of the `if_chain!` invocation `chain`: the first of them
/// does not come from that invocation, or there is none.
pub open spec fn if_chain_then(stmts: Seq<Stmt>, expr: Option<TailExpr>, chain: Span) -> bool {
    let first = if stmts.len() > 0 {
        Some(stmts[0].if_chain)
    } else {
        match expr {
            Some(e) => Some(e.if_chain),
            None => None,
        }
    };
    match first {
        None => true,
        Some(c) => c != Some(chain),
    }
}

/// A finding of the if-chain style check, with no rewrite.
pub open spec fn style_report(span: Span, message: Seq<char>) -> Report {
    Report {
        lint: LintId::IfChainStyle,
        span,
        message,
        help: None,
        help_span: None,
        label: None,
        suggestion: None,
        applicable: false,
    }
}

/// The finding on a block of an `if_chain!` that starts with a `let`.
pub open spec fn block_report(b: BlockInfo) -> Option<Report> {
    if b.stmts@.len() > 0 && b.stmts@[0].kind == StmtKind::Local && b.if_chain is Some {
        let local = b.stmts@[0];
        let chain = b.if_chain->0;
        if is_first_in_chain(b.parent_if_chain, chain) {
            Some(style_report(local.let_span, "`let` expression should be above the `if_chain!`"@))
        } else if local.same_ctxt && if_chain_then(b.stmts@.drop_first(), b.expr, chain) {
            Some(style_report(local.let_span, "`let` expression should be inside `then { .. }`"@))
        } else {
            None
        }
    } else {
        None
    }
}

fn is_first_if_chain_expr(parent: Option<Option<Span>>, chain: Span) -> (r: bool)
    ensures
        r == is_first_in_chain(parent, chain),
{
    match parent {
        Some(p) => match p {
            Some(s) => s != chain,
            None => true,
        },
        None => false,
    }
}

fn is_if_chain_then(stmts: &Vec<Stmt>, from: usize, expr: Option<TailExpr>, chain: Span) -> (r: bool)
    requires
        from <= stmts@.len(),
    ensures
        r == if_chain_then(stmts@.subrange(from as int, stmts@.len() as int), expr, chain),
{
    let first = if from < stmts.len() {
        stmts[from].if_chain
    } else {
        match expr {
            Some(e) => e.if_chain,
            None => return true,
        }
    };
    match first {
        Some(c) => c != chain,
        None => true,
    }
}

/// Reports a block of an `if_chain!` that starts with a `let`: at the top
/// of the invocation the `let` belongs above it; else, when what follows is
/// the `then` part, it belongs inside `then { .. }`.
pub fn check_block(b: &BlockInfo) -> (r: Option<Finding>)
    ensures
        opt_report(r) == block_report(*b),
{
    if b.stmts.len() == 0 || b.stmts[0].kind != StmtKind::Local {
        return None;
    }
    let chain = match b.if_chain {
        Some(c) => c,
        None => return None,
    };
    let local = b.stmts[0];
    if is_first_if_chain_expr(b.parent_if_chain, chain) {
        Some(finding(LintId::IfChainStyle, local.let_span, "`let` expression should be above the `if_chain!`", None, None, false))
    } else if local.same_ctxt && is_if_chain_then(&b.stmts, 1, b.expr, chain) {
        proof {
            assert(b.stmts@.subrange(1, b.stmts@.len() as int) =~= b.stmts@.drop_first());
        }
        Some(finding(LintId::IfChainStyle, local.let_span, "`let` expression should be inside `then { .. }`", None, None, false))
    } else {
        proof {
            assert(b.stmts@.subrange(1, b.stmts@.len() as int) =~= b.stmts@.drop_first());
        }
        None
    }
}

/// The statements before a `then` block's trailing expression, and that
/// expression: the block's final expression, or else its last statement
/// when that is an expression statement.
pub open spec fn head_and_tail(b: BlockInfo) -> Option<(Seq<Stmt>, TailExpr)> {
    match b.expr {
        Some(t) => Some((b.stmts@, t)),
        None => if b.stmts@.len() > 0 && (b.stmts@.last().kind == StmtKind::Expr
            || b.stmts@.last().kind == StmtKind::Semi) && b.stmts@.last().expr is Some {
            Some((b.stmts@.drop_last(), b.stmts@.last().expr->0))
        } else {
            None
        },
    }
}

/// Every statement is a `let` on a single line.
pub open spec fn single_line_lets(head: Seq<Stmt>) -> bool {
    forall|i: int| 0 <= i < head.len() ==> (#[trigger] head[i]).kind == StmtKind::Local && !head[i].multiline
}

/// The `if` is the only `if` of its `if_chain!` invocation: it is the
/// outermost node of the invocation, and its `then` block already is the
/// invocation's `then { .. }`. That is reported as pointless wrapping.
pub open spec fn lone_if_of_chain(e: IfExpr, b: BlockInfo) -> bool {
    match e.if_chain {
        Some(c) => is_first_in_chain(e.parent_if_chain, c) && if_chain_then(b.stmts@, b.expr, c),
        None => false,
    }
}

/// Where to report merging an `if` with its nested `if`, and what.
pub open spec fn merge_site(outer: Option<Span>, if_span: Span, tail: TailExpr) -> Option<(Span, Seq<char>)> {
    match (outer, tail.if_chain) {
        (None, Some(_)) => Some((if_span, "this `if` can be part of the inner `if_chain!`"@)),
        (Some(_), None) => Some((tail.span, "this `if` can be part of the outer `if_chain!`"@)),
        (Some(a), Some(t)) => if a != t {
            Some((t, "this `if_chain!` can be merged with the outer `if_chain!`"@))
        } else {
            None
        },
        (None, None) => None,
    }
}

/// The help naming the `let` statements that would move with a merge.
pub open spec fn lets_help(head: Seq<Stmt>) -> (Option<Seq<char>>, Option<Span>) {
    if head.len() == 0 {
        (None, None)
    } else if head.len() == 1 {
        (Some("this `let` statement can also be in the `if_chain!`"@), Some(head[0].span))
    } else {
        (
            Some("these `let` statements can also be in the `if_chain!`"@),
            Some(Span { lo: head[0].span.lo, hi: head.last().span.hi }),
        )
    }
}

/// The finding on an `if` whose `then` block holds only single-line `let`
/// statements and a trailing `if` without `else`, where one of the two is
/// an `if_chain!` and the other could join it (an `else if` outside any
/// `if_chain!` is left alone). An `if` that is the only `if` of its
/// `if_chain!` gets the pointless-wrapping finding instead, never this one.
pub open spec fn nested_report(e: IfExpr, b: BlockInfo) -> Option<Report> {
    match head_and_tail(b) {
        None => None,
        Some((head, tail)) => if tail.is_if_without_else && single_line_lets(head) && (
        e.if_chain is Some || !e.is_else_clause) && !lone_if_of_chain(e, b) {
            match merge_site(e.if_chain, e.span, tail) {
                None => None,
                Some((span, msg)) => Some(
                    Report {
                        lint: LintId::IfChainStyle,
                        span,
                        message: msg,
                        help: lets_help(head).0,
                        help_span: lets_help(head).1,
                        label: None,
                        suggestion: None,
                        applicable: false,
                    },
                ),
            }
        } else {
            None
        },
    }
}

/// What the style check reports on an `if`: a possible merge with a nested
/// `if` (when there is no `else`); and, inside an `if_chain!`, a multi-line
/// `&&` condition and an invocation with a single `if`.
pub open spec fn if_reports(e: IfExpr) -> Seq<Report> {
    match e.then_block {
        None => seq![],
        Some(b) => {
            let nested = if !e.has_else {
                opt_seq(nested_report(e, b))
            } else {
                seq![]
            };
            match e.if_chain {
                None => nested,
                Some(chain) => nested + (if e.cond_is_and && e.cond_multiline {
                    seq![style_report(e.cond_span, "`if a && b;` should be `if a; if b;`"@)]
                } else {
                    seq![]
                }) + (if is_first_in_chain(e.parent_if_chain, chain) && if_chain_then(
                    b.stmts@,
                    b.expr,
                    chain,
                ) {
                    seq![style_report(e.span, "`if_chain!` only has one `if`"@)]
                } else {
                    seq![]
                }),
            }
        },
    }
}

fn all_single_line_lets(stmts: &Vec<Stmt>, n: usize) -> (r: bool)
    requires
        n <= stmts@.len(),
    ensures
        r == single_line_lets(stmts@.subrange(0, n as int)),
{
    let mut i: usize = 0;
    while i < n
        invariant
            n <= stmts@.len(),
            i <= n,
            forall|j: int| 0 <= j < i ==> (#[trigger] stmts@[j]).kind == StmtKind::Local && !stmts@[j].multiline,
        decreases n - i,
    {
        if stmts[i].kind != StmtKind::Local || stmts[i].multiline {
            proof {
                assert(stmts@.subrange(0, n as int)[i as int] == stmts@[i as int]);
            }
            return false;
        }
        i = i + 1;
    }
    proof {
        assert forall|j: int| 0 <= j < n implies (#[trigger] stmts@.subrange(0, n as int)[j]).kind
            == StmtKind::Local && !stmts@.subrange(0, n as int)[j].multiline by {
            assert(stmts@.subrange(0, n as int)[j] == stmts@[j]);
        }
    }
    true
}

/// Reports an `if` that could merge with the `if` nested in its `then`
/// block, naming the `let` statements that would move along.
pub fn check_nested_if_chains(e: &IfExpr, b: &BlockInfo) -> (r: Option<Finding>)
    ensures
        opt_report(r) == nested_report(*e, *b),
{
    let (n, tail) = match b.expr {
        Some(t) => (b.stmts.len(), t),
        None => {
            if b.stmts.len() == 0 {
                return None;
            }
            let last = b.stmts[b.stmts.len() - 1];
            if last.kind != StmtKind::Expr && last.kind != StmtKind::Semi {
                return None;
            }
            match last.expr {
                Some(t) => (b.stmts.len() - 1, t),
                None => return None,
            }
        },
    };
    let ghost head = b.stmts@.subrange(0, n as int);
    proof {
        if b.expr is None {
            assert(head =~= b.stmts@.drop_last());
        } else {
            assert(head =~= b.stmts@);
        }
        assert(head_and_tail(*b) == Some((head, tail)));
    }
    if !tail.is_if_without_else || !all_single_line_lets(&b.stmts, n) || (e.if_chain.is_none()
        && e.is_else_clause) {
        return None;
    }
    let lone = match e.if_chain {
        Some(c) => is_first_if_chain_expr(e.parent_if_chain, c) && is_if_chain_then(
            &b.stmts,
            0,
            b.expr,
            c,
        ),
        None => false,
    };
    proof {
        assert(b.stmts@.subrange(0, b.stmts@.len() as int) =~= b.stmts@);
    }
    if lone {
        return None;
    }
    let (span, msg) = match (e.if_chain, tail.if_chain) {
        (None, Some(_)) => (e.span, "this `if` can be part of the inner `if_chain!`"),
        (Some(_), None) => (tail.span, "this `if` can be part of the outer `if_chain!`"),
        (Some(a), Some(t)) => if a != t {
            (t, "this `if_chain!` can be merged with the outer `if_chain!`")
        } else {
            return None;
        },
        (None, None) => return None,
    };
    let mut f = finding(LintId::IfChainStyle, span, msg, None, None, false);
    if n == 1 {
        f.help = Some(own("this `let` statement can also be in the `if_chain!`"));
        f.help_span = Some(b.stmts[0].span);
    } else if n > 1 {
        f.help = Some(own("these `let` statements can also be in the `if_chain!`"));
        f.help_span = Some(b.stmts[0].span.to(b.stmts[n - 1].span));
    }
    Some(f)
}

/// Checks an `if` or `if let` expression for the if-chain style findings.
pub fn check_if(e: &IfExpr) -> (r: Vec<Finding>)
    ensures
        reports(r@) == if_reports(*e),
{
    let mut out: Vec<Finding> = Vec::new();
    let b = match &e.then_block {
        Some(b) => b,
        None => {
            proof {
                assert(reports(out@) =~= seq![]);
            }
            return out;
        },
    };
    if !e.has_else {
        match check_nested_if_chains(e, b) {
            Some(f) => out.push(f),
            None => {},
        }
    }
    let ghost nested = if !e.has_else {
        opt_seq(nested_report(*e, *b))
    } else {
        seq![]
    };
    proof {
        assert(reports(out@) =~= nested);
    }
    let chain = match e.if_chain {
        Some(c) => c,
        None => return out,
    };
    if e.cond_is_and && e.cond_multiline {
        out.push(finding(LintId::IfChainStyle, e.cond_span, "`if a && b;` should be `if a; if b;`", None, None, false));
    }
    let ghost and_part = if e.cond_is_and && e.cond_multiline {
        seq![style_report(e.cond_span, "`if a && b;` should be `if a; if b;`"@)]
    } else {
        seq![]
    };
    proof {
        assert(reports(out@) =~= nested + and_part);
    }
    let first = is_first_if_chain_expr(e.parent_if_chain, chain);
    let then_part = is_if_chain_then(&b.stmts, 0, b.expr, chain);
    proof {
        assert(b.stmts@.subrange(0, b.stmts@.len() as int) =~= b.stmts@);
    }
    if first && then_part {
        out.push(finding(LintId::IfChainStyle, e.span, "`if_chain!` only has one `if`", None, None, false));
    }
    proof {
        assert(reports(out@) =~= if_reports(*e));
    }
    out
}

/// The pointless-wrapping finding and a merge finding never come together:
/// an `if` that is the only `if` of its `if_chain!` draws the first (as its
/// last finding) and no merge finding; an `if` with a merge finding is not
/// such an `if`.
pub proof fn lemma_wrapping_excludes_merge(e: IfExpr)
    requires
        e.then_block is Some,
        e.if_chain is Some,
    ensures
        lone_if_of_chain(e, e.then_block->0) ==> nested_report(e, e.then_block->0) is None
            && if_reports(e).last() == style_report(e.span, "`if_chain!` only has one `if`"@),
        nested_report(e, e.then_block->0) is Some ==> !lone_if_of_chain(e, e.then_block->0),
{
}

/// An `if_chain!` whose single `if` wraps only a nested `if` of the user's
/// own (not from that invocation), with no statements between and no
/// `else`, draws exactly one finding: pointless wrapping.
pub proof fn lemma_chain_wrapping_one_if(e: IfExpr)
    requires
        e.if_chain is Some,
        is_first_in_chain(e.parent_if_chain, e.if_chain->0),
        !e.has_else,
        !(e.cond_is_and && e.cond_multiline),
        e.then_block is Some,
        e.then_block->0.stmts@.len() == 0,
        e.then_block->0.expr is Some,
        e.then_block->0.expr->0.is_if_without_else,
        e.then_block->0.expr->0.if_chain != e.if_chain,
    ensures
        if_reports(e) == seq![style_report(e.span, "`if_chain!` only has one `if`"@)],
{
    assert(opt_seq(None) =~= Seq::<Report>::empty());
    assert(Seq::<Report>::empty() + Seq::<Report>::empty() + seq![
        style_report(e.span, "`if_chain!` only has one `if`"@),
    ] =~= seq![style_report(e.span, "`if_chain!` only has one `if`"@)]);
}

/// A plain `if A { if B { C } }`, outside any `if_chain!`, with nothing but
/// the inner `if` in the outer one's block and no `else`, draws no finding
/// at all: neither a merge nor a single-`if` invocation.
pub proof fn lemma_plain_nested_if_quiet(e: IfExpr)
    requires
        e.if_chain is None,
        !e.has_else,
        e.then_block is Some,
        e.then_block->0.stmts@.len() == 0,
        e.then_block->0.expr is Some,
        e.then_block->0.expr->0.is_if_without_else,
        e.then_block->0.expr->0.if_chain is None,
    ensures
        if_reports(e) == Seq::<Report>::empty(),
{
    assert(opt_seq(None) =~= Seq::<Report>::empty());
}

} // verus!
