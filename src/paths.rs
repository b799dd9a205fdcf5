use vstd::prelude::*;
use vstd::string::*;
use crate::text::{str_eq, str_lt, seq_lt, strs};
use crate::diag::{Span, LintId, Finding, Report, finding, reports, opt_report};
use crate::resolve::{SymbolTable, check_path, valid_path, builtin_child_path};

verus! {

/// An item of the syntax tree before expansion: its name, its extent, and
/// its items when it is a module whose contents are loaded.
#[derive(Debug)]
pub struct AstItem {
    pub name: String,
    pub span: Span,
    pub children: Option<Vec<AstItem>>,
}

/// The first item of this name.
pub open spec fn find_named(items: Seq<AstItem>, name: Seq<char>) -> Option<AstItem>
    decreases items.len(),
{
    if items.len() == 0 {
        None
    } else if items[0].name@ == name {
        Some(items[0])
    } else {
        find_named(items.drop_first(), name)
    }
}

/// The items of the loaded module `utils::paths`, if there is one.
pub open spec fn paths_items(krate: Seq<AstItem>) -> Option<Seq<AstItem>> {
    match find_named(krate, "utils"@) {
        Some(u) => match u.children {
            Some(c) => match find_named(c@, "paths"@) {
                Some(p) => match p.children {
                    Some(pc) => Some(pc@),
                    None => None,
                },
                None => None,
            },
            None => None,
        },
        None => None,
    }
}

/// The finding on an item out of lexical order.
pub open spec fn order_report(span: Span) -> Report {
    Report {
        lint: LintId::ClippyLintsInternal,
        span,
        message: "this constant should be before the previous constant due to lexical ordering"@,
        help: None,
        help_span: None,
        label: None,
        suggestion: None,
        applicable: false,
    }
}

/// The findings on the first `n` items: each item whose name sorts before
/// the name of the item just before it.
pub open spec fn order_reports(items: Seq<AstItem>, n: int) -> Seq<Report>
    decreases n,
{
    if n <= 1 {
        seq![]
    } else {
        let rest = order_reports(items, n - 1);
        if seq_lt(items[n - 1].name@, items[n - 2].name@) {
            rest.push(order_report(items[n - 1].span))
        } else {
            rest
        }
    }
}

fn find_item(items: &Vec<AstItem>, name: &str) -> (r: Option<usize>)
    ensures
        match r {
            Some(i) => i < items@.len() && find_named(items@, name@) == Some(items@[i as int]),
            None => find_named(items@, name@) is None,
        },
{
    let mut i: usize = 0;
    proof {
        assert(items@.subrange(0, items@.len() as int) =~= items@);
    }
    while i < items.len()
        invariant
            i <= items.len(),
            find_named(items@, name@) == find_named(
                items@.subrange(i as int, items@.len() as int),
                name@,
            ),
        decreases items.len() - i,
    {
        proof {
            let rest = items@.subrange(i as int, items@.len() as int);
            assert(rest[0] == items@[i as int]);
            assert(rest.drop_first() =~= items@.subrange(i + 1, items@.len() as int));
        }
        if str_eq(items[i].name.as_str(), name) {
            return Some(i);
        }
        i = i + 1;
    }
    None
}

/// Checks that the constants of `utils::paths` are in lexical order,
/// reporting each one that sorts before its predecessor.
pub fn check_paths_order(krate: &Vec<AstItem>) -> (r: Vec<Finding>)
    ensures
        reports(r@) == match paths_items(krate@) {
            Some(items) => order_reports(items, items.len() as int),
            None => seq![],
        },
{
    let mut out: Vec<Finding> = Vec::new();
    proof {
        assert(reports(out@) =~= seq![]);
    }
    let u = match find_item(krate, "utils") {
        Some(i) => i,
        None => return out,
    };
    let uc = match &krate[u].children {
        Some(c) => c,
        None => return out,
    };
    let p = match find_item(uc, "paths") {
        Some(i) => i,
        None => return out,
    };
    let items = match &uc[p].children {
        Some(c) => c,
        None => return out,
    };
    assert(paths_items(krate@) == Some(items@));
    let mut i: usize = 1;
    while i < items.len()
        invariant
            1 <= i,
            i <= items@.len() || i == 1,
            reports(out@) == order_reports(items@, i as int),
        decreases items.len() - i,
    {
        if str_lt(items[i].name.as_str(), items[i - 1].name.as_str()) {
            let ghost before = out@;
            let f = finding(
                LintId::ClippyLintsInternal,
                items[i].span,
                "this constant should be before the previous constant due to lexical ordering",
                None,
                None,
                false,
            );
            out.push(f);
            proof {
                assert(reports(out@) =~= reports(before).push(f@));
            }
        }
        i = i + 1;
    }
    proof {
        if items@.len() == 0 {
            assert(order_reports(items@, 0) == Seq::<Report>::empty());
            assert(order_reports(items@, 1) == Seq::<Report>::empty());
            assert(reports(out@) == order_reports(items@, items@.len() as int));
        } else {
            assert(i == items@.len());
            assert(reports(out@) == order_reports(items@, items@.len() as int));
        }
    }
    out
}

/// A constant of the `paths` module as the validator reads it: the name of
/// its parent module, its extent, whether its type is an array of `&str`,
/// and its value when that evaluates to a list of strings.
#[derive(Debug)]
pub struct PathConst {
    pub module: String,
    pub span: Span,
    pub is_str_array: bool,
    pub value: Option<Vec<String>>,
}

/// The finding on a constant of the `paths` module that names no entity.
pub open spec fn invalid_path_report(t: SymbolTable, c: PathConst) -> Option<Report> {
    if c.module@ == "paths"@ && c.is_str_array && c.value is Some && !valid_path(
        t,
        strs(c.value->0@),
    ) {
        Some(
            Report {
                lint: LintId::InvalidPaths,
                span: c.span,
                message: "invalid path"@,
                help: None,
                help_span: None,
                label: None,
                suggestion: None,
                applicable: false,
            },
        )
    } else {
        None
    }
}

/// Reports a constant of the `paths` module whose path does not resolve.
pub fn check_path_const(t: &SymbolTable, c: &PathConst) -> (r: Option<Finding>)
    ensures
        opt_report(r) == invalid_path_report(*t, *c),
{
    if !str_eq(c.module.as_str(), "paths") || !c.is_str_array {
        return None;
    }
    match &c.value {
        Some(path) => if check_path(t, path) {
            None
        } else {
            Some(finding(LintId::InvalidPaths, c.span, "invalid path", None, None, false))
        },
        None => None,
    }
}

/// A constant naming a child of a built-in entity is accepted, even where
/// ordinary resolution does not find it.
pub proof fn lemma_builtin_child_accepted(t: SymbolTable, c: PathConst, k: int)
    requires
        c.value is Some,
        builtin_child_path(t, strs(c.value->0@), k),
    ensures
        invalid_path_report(t, c) is None,
{
}

} // verus!
