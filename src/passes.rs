use vstd::prelude::*;
use vstd::string::*;
use crate::text::{str_eq, own, strs, strs_of, path_is, contains_str};
use crate::diag::{Span, LintId, Finding, Report, finding, suggest, opt_report};

verus! {

/// The def path of an optional type, over plain values.
pub open spec fn opt_path(o: Option<Vec<String>>) -> Option<Seq<Seq<char>>> {
    match o {
        Some(p) => Some(strs(p@)),
        None => None,
    }
}

/// The value of the last entry for a key.
pub open spec fn str_lookup(entries: Seq<(Seq<char>, Seq<char>)>, k: Seq<char>) -> Option<Seq<char>>
    decreases entries.len(),
{
    if entries.len() == 0 {
        None
    } else if entries.last().0 == k {
        Some(entries.last().1)
    } else {
        str_lookup(entries.drop_last(), k)
    }
}

/// The map the entries make, later entries replacing earlier ones.
pub open spec fn str_map(entries: Seq<(Seq<char>, Seq<char>)>) -> Map<Seq<char>, Seq<char>> {
    Map::new(|k: Seq<char>| str_lookup(entries, k) is Some, |k: Seq<char>| str_lookup(entries, k)->0)
}

proof fn lemma_str_map_push(e: Seq<(Seq<char>, Seq<char>)>, k: Seq<char>, v: Seq<char>)
    ensures
        str_map(e.push((k, v))) == str_map(e).insert(k, v),
{
    assert(e.push((k, v)).drop_last() =~= e);
    assert(str_map(e.push((k, v))) =~= str_map(e).insert(k, v));
}

/// The compiler's lint-emitting methods, each with the variant of the
/// library that should be used instead.
pub open spec fn compiler_fn_map() -> Map<Seq<char>, Seq<char>> {
    Map::empty().insert("span_lint"@, "utils::span_lint"@).insert(
        "struct_span_lint"@,
        "utils::span_lint"@,
    ).insert("lint"@, "utils::span_lint"@).insert("span_lint_note"@, "utils::span_lint_and_note"@).insert(
        "span_lint_help"@,
        "utils::span_lint_and_help"@,
    )
}

/// The receiver type is one of the compiler's lint contexts.
pub open spec fn is_lint_context(ty: Option<Seq<Seq<char>>>) -> bool {
    match ty {
        Some(p) => p == seq!["rustc_lint"@, "context"@, "EarlyContext"@] || p == seq![
            "rustc_lint"@,
            "context"@,
            "LateContext"@,
        ],
        None => false,
    }
}

/// The finding on a call of a compiler lint method on a lint context.
pub open spec fn compiler_fn_report(
    m: Map<Seq<char>, Seq<char>>,
    name: Seq<char>,
    name_span: Span,
    recv_ty: Option<Seq<Seq<char>>>,
) -> Option<Report> {
    if m.contains_key(name) && is_lint_context(recv_ty) {
        Some(
            Report {
                lint: LintId::CompilerLintFunctions,
                span: name_span,
                message: "usage of a compiler lint function"@,
                help: Some("please use the Clippy variant of this function: `"@ + m[name] + "`"@),
                help_span: None,
                label: None,
                suggestion: None,
                applicable: false,
            },
        )
    } else {
        None
    }
}

/// The compiler's lint-emitting methods and their replacements.
#[derive(Clone, Debug)]
pub struct CompilerLintFunctions {
    map: Vec<(String, String)>,
}

impl View for CompilerLintFunctions {
    type V = Map<Seq<char>, Seq<char>>;

    closed spec fn view(&self) -> Map<Seq<char>, Seq<char>> {
        str_map(self.map@.map_values(|e: (String, String)| (e.0@, e.1@)))
    }
}

impl CompilerLintFunctions {
    /// The table of the five compiler lint methods.
    pub fn new() -> (r: Self)
        ensures
            r@ == compiler_fn_map(),
    {
        let mut map: Vec<(String, String)> = Vec::new();
        map.push((own("span_lint"), own("utils::span_lint")));
        map.push((own("struct_span_lint"), own("utils::span_lint")));
        map.push((own("lint"), own("utils::span_lint")));
        map.push((own("span_lint_note"), own("utils::span_lint_and_note")));
        map.push((own("span_lint_help"), own("utils::span_lint_and_help")));
        let r = CompilerLintFunctions { map };
        proof {
            let e = r.map@.map_values(|e: (String, String)| (e.0@, e.1@));
            let e0 = Seq::<(Seq<char>, Seq<char>)>::empty();
            let e1 = e0.push(("span_lint"@, "utils::span_lint"@));
            let e2 = e1.push(("struct_span_lint"@, "utils::span_lint"@));
            let e3 = e2.push(("lint"@, "utils::span_lint"@));
            let e4 = e3.push(("span_lint_note"@, "utils::span_lint_and_note"@));
            let e5 = e4.push(("span_lint_help"@, "utils::span_lint_and_help"@));
            assert(e =~= e5);
            assert(str_map(e0) =~= Map::empty());
            lemma_str_map_push(e0, "span_lint"@, "utils::span_lint"@);
            lemma_str_map_push(e1, "struct_span_lint"@, "utils::span_lint"@);
            lemma_str_map_push(e2, "lint"@, "utils::span_lint"@);
            lemma_str_map_push(e3, "span_lint_note"@, "utils::span_lint_and_note"@);
            lemma_str_map_push(e4, "span_lint_help"@, "utils::span_lint_and_help"@);
        }
        r
    }

    /// The replacement for a compiler lint method.
    pub fn replacement(&self, name: &str) -> (r: Option<String>)
        ensures
            match r {
                Some(s) => self@.contains_key(name@) && self@[name@] == s@,
                None => !self@.contains_key(name@),
            },
    {
        let ghost e = self.map@.map_values(|e: (String, String)| (e.0@, e.1@));
        let mut i: usize = self.map.len();
        proof {
            assert(e.subrange(0, i as int) =~= e);
        }
        while i > 0
            invariant
                i <= self.map@.len(),
                e == self.map@.map_values(|e: (String, String)| (e.0@, e.1@)),
                str_lookup(e, name@) == str_lookup(e.subrange(0, i as int), name@),
            decreases i,
        {
            proof {
                assert(e.subrange(0, i as int).drop_last() =~= e.subrange(0, i - 1));
            }
            if str_eq(self.map[i - 1].0.as_str(), name) {
                return Some(own(self.map[i - 1].1.as_str()));
            }
            i = i - 1;
        }
        None
    }

    /// Reports a call of a compiler lint method `name` (at `name_span`) on a
    /// receiver whose type, references peeled, has the def path `recv_ty`.
    pub fn check_method_call(&self, name: &str, name_span: Span, recv_ty: &Option<Vec<String>>) -> (r:
        Option<Finding>)
        ensures
            opt_report(r) == compiler_fn_report(self@, name@, name_span, opt_path(*recv_ty)),
    {
        let sugg = match self.replacement(name) {
            Some(s) => s,
            None => return None,
        };
        let early: Vec<&str> = vec!["rustc_lint", "context", "EarlyContext"];
        let late: Vec<&str> = vec!["rustc_lint", "context", "LateContext"];
        assert(strs_of(early@) == seq!["rustc_lint"@, "context"@, "EarlyContext"@]);
        assert(strs_of(late@) == seq!["rustc_lint"@, "context"@, "LateContext"@]);
        let ctx = match recv_ty {
            Some(p) => path_is(p, &early) || path_is(p, &late),
            None => false,
        };
        if !ctx {
            return None;
        }
        let mut help = own("please use the Clippy variant of this function: `");
        help.append(sugg.as_str());
        help.append("`");
        Some(
            finding(
                LintId::CompilerLintFunctions,
                name_span,
                "usage of a compiler lint function",
                Some(help),
                None,
                false,
            ),
        )
    }
}

/// One method call of a chain: the method's name, how many arguments it
/// takes besides the receiver, the def path of its receiver's type
/// (references peeled) if that is a named type, and the extent of the
/// method's name.
#[derive(Clone, Debug)]
pub struct ChainCall {
    pub name: String,
    pub arg_count: usize,
    pub recv_ty: Option<Vec<String>>,
    pub span: Span,
}

/// The finding on `outer_expn().expn_data()` on a syntax context, given
/// the outermost calls of the chain, outermost first.
pub open spec fn outer_expn_report(expr_span: Span, chain: Seq<ChainCall>) -> Option<Report> {
    if chain.len() >= 2 && chain[0].name@ == "expn_data"@ && chain[1].name@ == "outer_expn"@
        && chain[1].arg_count == 0 && opt_path(chain[1].recv_ty) == Some(
        seq!["rustc_span"@, "hygiene"@, "SyntaxContext"@],
    ) {
        Some(
            Report {
                lint: LintId::OuterExpnExpnData,
                span: Span { lo: chain[1].span.lo, hi: expr_span.hi },
                message: "usage of `outer_expn().expn_data()`"@,
                help: None,
                help_span: None,
                label: Some("try"@),
                suggestion: Some("outer_expn_data()"@),
                applicable: true,
            },
        )
    } else {
        None
    }
}

/// Reports `outer_expn().expn_data()` on a syntax context, with the
/// single call that replaces the two.
pub fn check_outer_expn(expr_span: Span, chain: &Vec<ChainCall>) -> (r: Option<Finding>)
    ensures
        opt_report(r) == outer_expn_report(expr_span, chain@),
{
    if chain.len() < 2 || !str_eq(chain[0].name.as_str(), "expn_data") || !str_eq(
        chain[1].name.as_str(),
        "outer_expn",
    ) || chain[1].arg_count != 0 {
        return None;
    }
    let want: Vec<&str> = vec!["rustc_span", "hygiene", "SyntaxContext"];
    assert(strs_of(want@) == seq!["rustc_span"@, "hygiene"@, "SyntaxContext"@]);
    let ok = match &chain[1].recv_ty {
        Some(p) => path_is(p, &want),
        None => false,
    };
    if !ok {
        return None;
    }
    Some(
        suggest(
            LintId::OuterExpnExpnData,
            Span { lo: chain[1].span.lo, hi: expr_span.hi },
            "usage of `outer_expn().expn_data()`",
            None,
            "try",
            own("outer_expn_data()"),
            true,
        ),
    )
}

/// A function being declared: a named function, or a closure.
#[derive(Clone, Debug)]
pub enum FnKind {
    Fn(String),
    Closure,
}

/// Whether a function is the one that deliberately crashes the linter, to
/// test how internal errors are reported.
pub fn is_trigger_fn(f: &FnKind) -> (r: bool)
    ensures
        r == match *f {
            FnKind::Fn(name) => name@ == "it_looks_like_you_are_trying_to_kill_clippy"@,
            FnKind::Closure => false,
        },
{
    match f {
        FnKind::Fn(name) => str_eq(name.as_str(), "it_looks_like_you_are_trying_to_kill_clippy"),
        FnKind::Closure => false,
    }
}

/// An impl of a lint pass trait, as the MSRV check reads it: the extent of
/// the item up to its opening brace and that text if available, the def
/// path of the implemented trait, whether the implementing type is a
/// struct, for each of its fields the def paths of the types its type
/// mentions, and the names of the impl's items.
#[derive(Clone, Debug)]
pub struct PassImpl {
    pub head_span: Span,
    pub head_snippet: Option<String>,
    pub trait_path: Option<Vec<String>>,
    pub self_is_struct: bool,
    pub field_types: Vec<Vec<Vec<String>>>,
    pub item_names: Vec<String>,
}

/// Some field's type mentions `rustc_semver::RustcVersion`.
pub open spec fn has_msrv_field(fields: Seq<Vec<Vec<String>>>) -> bool {
    exists|i: int, j: int|
        0 <= i < fields.len() && 0 <= j < fields[i]@.len() && strs(#[trigger] fields[i]@[j]@) == seq![
            "rustc_semver"@,
            "RustcVersion"@,
        ]
}

/// The finding on a lint pass that holds a minimum supported version but
/// does not extract it from attributes.
pub open spec fn msrv_report(p: PassImpl) -> Option<Report> {
    let late = opt_path(p.trait_path) == Some(seq!["rustc_lint"@, "passes"@, "LateLintPass"@]);
    let early = opt_path(p.trait_path) == Some(seq!["rustc_lint"@, "passes"@, "EarlyLintPass"@]);
    if (late || early) && p.self_is_struct && has_msrv_field(p.field_types@) && !strs(
        p.item_names@,
    ).contains("enter_lint_attrs"@) {
        let context = if late {
            "LateContext"@
        } else {
            "EarlyContext"@
        };
        let pass = if late {
            "LateLintPass"@
        } else {
            "EarlyLintPass"@
        };
        Some(
            Report {
                lint: LintId::MissingMsrvAttrImpl,
                span: p.head_span,
                message: "`extract_msrv_attr!` macro missing from `"@ + pass + "` implementation"@,
                help: None,
                help_span: None,
                label: Some("add `extract_msrv_attr!("@ + context + ")` to the `"@ + pass
                    + "` implementation"@),
                suggestion: Some(
                    match p.head_snippet {
                        Some(s) => s@,
                        None => ".."@,
                    } + "\n    extract_msrv_attr!("@ + context + ");"@,
                ),
                applicable: true,
            },
        )
    } else {
        None
    }
}

fn any_msrv_field(fields: &Vec<Vec<Vec<String>>>) -> (r: bool)
    ensures
        r == has_msrv_field(fields@),
{
    let want: Vec<&str> = vec!["rustc_semver", "RustcVersion"];
    assert(strs_of(want@) == seq!["rustc_semver"@, "RustcVersion"@]);
    let mut i: usize = 0;
    while i < fields.len()
        invariant
            i <= fields@.len(),
            strs_of(want@) == seq!["rustc_semver"@, "RustcVersion"@],
            forall|a: int, b: int|
                0 <= a < i && 0 <= b < fields@[a]@.len() ==> strs(#[trigger] fields@[a]@[b]@)
                    != seq!["rustc_semver"@, "RustcVersion"@],
        decreases fields.len() - i,
    {
        let tys = &fields[i];
        let mut j: usize = 0;
        while j < tys.len()
            invariant
                i < fields@.len(),
                tys == fields@[i as int],
                j <= tys@.len(),
                strs_of(want@) == seq!["rustc_semver"@, "RustcVersion"@],
                forall|a: int, b: int|
                    0 <= a < i && 0 <= b < fields@[a]@.len() ==> strs(#[trigger] fields@[a]@[b]@)
                        != seq!["rustc_semver"@, "RustcVersion"@],
                forall|b: int|
                    0 <= b < j ==> strs(#[trigger] tys@[b]@) != seq!["rustc_semver"@, "RustcVersion"@],
            decreases tys.len() - j,
        {
            if path_is(&tys[j], &want) {
                return true;
            }
            j = j + 1;
        }
        i = i + 1;
    }
    false
}

/// Reports a lint pass impl whose type holds a minimum supported version
/// but that does not extract it from attributes, with the macro call to add.
pub fn check_msrv_impl(p: &PassImpl) -> (r: Option<Finding>)
    ensures
        opt_report(r) == msrv_report(*p),
{
    let late_path: Vec<&str> = vec!["rustc_lint", "passes", "LateLintPass"];
    let early_path: Vec<&str> = vec!["rustc_lint", "passes", "EarlyLintPass"];
    assert(strs_of(late_path@) == seq!["rustc_lint"@, "passes"@, "LateLintPass"@]);
    assert(strs_of(early_path@) == seq!["rustc_lint"@, "passes"@, "EarlyLintPass"@]);
    let (late, early) = match &p.trait_path {
        Some(t) => (path_is(t, &late_path), path_is(t, &early_path)),
        None => (false, false),
    };
    if !(late || early) || !p.self_is_struct || !any_msrv_field(&p.field_types) || contains_str(
        &p.item_names,
        "enter_lint_attrs",
    ) {
        return None;
    }
    let context = if late {
        "LateContext"
    } else {
        "EarlyContext"
    };
    let pass = if late {
        "LateLintPass"
    } else {
        "EarlyLintPass"
    };
    let mut message = own("`extract_msrv_attr!` macro missing from `");
    message.append(pass);
    message.append("` implementation");
    let mut help = own("add `extract_msrv_attr!(");
    help.append(context);
    help.append(")` to the `");
    help.append(pass);
    help.append("` implementation");
    let mut sugg = match &p.head_snippet {
        Some(s) => own(s.as_str()),
        None => own(".."),
    };
    sugg.append("\n    extract_msrv_attr!(");
    sugg.append(context);
    sugg.append(");");
    Some(suggest(LintId::MissingMsrvAttrImpl, p.head_span, message.as_str(), None, help.as_str(), sugg, true))
}

/// Applying the MSRV rewrite and checking again finds nothing more: the
/// rewritten impl `q` is `p` with the `extract_msrv_attr!` call, which
/// defines `enter_lint_attrs`, added to its items.
pub proof fn lemma_msrv_rewrite_settles(p: PassImpl, q: PassImpl)
    requires
        msrv_report(p) is Some,
        q.trait_path == p.trait_path,
        q.self_is_struct == p.self_is_struct,
        q.field_types == p.field_types,
        strs(q.item_names@) == strs(p.item_names@).push("enter_lint_attrs"@),
    ensures
        msrv_report(q) is None,
{
    assert(strs(q.item_names@)[strs(p.item_names@).len() as int] == "enter_lint_attrs"@);
}

} // verus!
