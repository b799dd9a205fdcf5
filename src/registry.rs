use vstd::prelude::*;
use vstd::string::*;
use crate::text::{str_eq, own, strs, contains_str};
use crate::diag::{Span, LintId, Finding, Report, finding, reports, opt_seq};
use crate::resolve::DefKind;
use crate::version::{Attribute, attrs_verdict, verdict_report, check_invalid_clippy_version_attribute};

verus! {

/// A written type: a reference, a path that resolved to a definition of
/// some kind with the given def path, or anything else.
#[derive(Debug)]
pub enum HirTy {
    Ref { mutable: bool, inner: Box<HirTy> },
    Path(DefKind, Vec<String>),
    Other,
}

/// The initializer of a static, as far as the check reads it.
#[derive(Debug)]
pub enum InitExpr {
    AddrOf(Box<InitExpr>),
    Struct(Vec<FieldInit>),
    Other,
}

/// A field of a struct expression: its name, and its value when that is a
/// string literal.
#[derive(Clone, Debug)]
pub struct FieldInit {
    pub name: String,
    pub str_lit: Option<String>,
}

/// An associated item of an impl, with the paths its body mentions, in the
/// order they are visited (nested bodies included).
#[derive(Clone, Debug)]
pub struct ImplItem {
    pub name: String,
    pub body_paths: Vec<Vec<String>>,
}

/// The kinds of item the registry check reads.
#[derive(Debug)]
pub enum ItemKind {
    /// A static, with its written type, whether that type is the deprecated
    /// lint type, and its initializer.
    Static { mutable: bool, ty: HirTy, deprecated_ty: bool, init: InitExpr },
    /// An impl: whether it implements a trait, and its items.
    Impl { of_trait: bool, items: Vec<ImplItem> },
    Other,
}

/// An item: its name, its extent, the call site of the macro that produced
/// it, its attributes, the name of the outermost macro it was expanded
/// from (if any), and its kind.
#[derive(Debug)]
pub struct Item {
    pub name: String,
    pub span: Span,
    pub call_site: Span,
    pub attrs: Vec<Attribute>,
    pub root_macro: Option<String>,
    pub kind: ItemKind,
}

/// The type is `&rustc_lint_defs::Lint`.
pub open spec fn is_lint_ref(ty: HirTy) -> bool {
    match ty {
        HirTy::Ref { mutable, inner } => !mutable && match *inner {
            HirTy::Path(kind, p) => kind == DefKind::Struct && strs(p@) == seq![
                "rustc_lint_defs"@,
                "Lint"@,
            ],
            _ => false,
        },
        _ => false,
    }
}

/// The item declares a lint: an immutable static of the lint reference
/// type or of the deprecated lint type.
pub open spec fn lint_shaped(item: Item) -> bool {
    match item.kind {
        ItemKind::Static { mutable, ty, deprecated_ty, .. } => !mutable && (is_lint_ref(ty)
            || deprecated_ty),
        _ => false,
    }
}

/// The item is an immutable static.
pub open spec fn is_immutable_static(item: Item) -> bool {
    match item.kind {
        ItemKind::Static { mutable, .. } => !mutable,
        _ => false,
    }
}

/// The item declares a (non-deprecated) lint.
pub open spec fn declares_lint_ref(item: Item) -> bool {
    match item.kind {
        ItemKind::Static { mutable, ty, .. } => !mutable && is_lint_ref(ty),
        _ => false,
    }
}

/// The fields of a lint declaration's initializer: `&Lint { .. }` for a
/// lint, `Deprecated { .. }` for a deprecated one.
pub open spec fn lint_fields(item: Item) -> Option<Seq<FieldInit>> {
    match item.kind {
        ItemKind::Static { ty, init, .. } => if is_lint_ref(ty) {
            match init {
                InitExpr::AddrOf(b) => match *b {
                    InitExpr::Struct(f) => Some(f@),
                    _ => None,
                },
                _ => None,
            }
        } else {
            match init {
                InitExpr::Struct(f) => Some(f@),
                _ => None,
            }
        },
        _ => None,
    }
}

/// The first field named `desc`.
pub open spec fn desc_of(fields: Seq<FieldInit>) -> Option<FieldInit>
    decreases fields.len(),
{
    if fields.len() == 0 {
        None
    } else if fields[0].name@ == "desc"@ {
        Some(fields[0])
    } else {
        desc_of(fields.drop_first())
    }
}

/// The items of an inherent impl produced by `impl_lint_pass!` or
/// `declare_lint_pass!`, for an item that is not an immutable static.
pub open spec fn registration_items(item: Item) -> Option<Seq<ImplItem>> {
    if is_immutable_static(item) {
        None
    } else {
        match item.root_macro {
            Some(m) => if m@ == "impl_lint_pass"@ || m@ == "declare_lint_pass"@ {
                match item.kind {
                    ItemKind::Impl { of_trait, items } => if !of_trait {
                        Some(items@)
                    } else {
                        None
                    },
                    _ => None,
                }
            } else {
                None
            },
            None => None,
        }
    }
}

/// The first impl item named `get_lints`.
pub open spec fn get_lints_of(items: Seq<ImplItem>) -> Option<ImplItem>
    decreases items.len(),
{
    if items.len() == 0 {
        None
    } else if items[0].name@ == "get_lints"@ {
        Some(items[0])
    } else {
        get_lints_of(items.drop_first())
    }
}

/// What the declaration macros guarantee: a lint's initializer has a
/// `desc` field, and a lint pass implements `get_lints`.
pub open spec fn item_ok(item: Item) -> bool {
    &&& (lint_shaped(item) && lint_fields(item) is Some) ==> desc_of(lint_fields(item)->0) is Some
    &&& registration_items(item) is Some ==> get_lints_of(registration_items(item)->0) is Some
}

/// The string literal of a lint declaration's description, if it is one.
pub open spec fn desc_lit(item: Item) -> Option<Seq<char>> {
    if lint_shaped(item) && lint_fields(item) is Some {
        match desc_of(lint_fields(item)->0) {
            Some(f) => match f.str_lit {
                Some(s) => Some(s@),
                None => None,
            },
            None => None,
        }
    } else {
        None
    }
}

/// The finding on a description left at its placeholder text.
pub open spec fn placeholder_report(item: Item) -> Option<Report> {
    match desc_lit(item) {
        Some(d) => if declares_lint_ref(item) {
            if d == "default lint description"@ {
                Some(
                    Report {
                        lint: LintId::DefaultLint,
                        span: item.span,
                        message: "the lint `"@ + item.name@ + "` has the default lint description"@,
                        help: None,
                        help_span: None,
                        label: None,
                        suggestion: None,
                        applicable: false,
                    },
                )
            } else {
                None
            }
        } else if d == "default deprecation note"@ {
            Some(
                Report {
                    lint: LintId::DefaultDeprecationReason,
                    span: item.span,
                    message: "the lint `"@ + item.name@ + "` has the default deprecation reason"@,
                    help: None,
                    help_span: None,
                    label: None,
                    suggestion: None,
                    applicable: false,
                },
            )
        } else {
            None
        },
        None => None,
    }
}

/// What the registry check reports on an item (nothing when the checks
/// are allowed there): the version attribute's verdict for a lint
/// declaration, then a placeholder description.
pub open spec fn item_reports(item: Item, allowed: bool) -> Seq<Report> {
    if allowed || !lint_shaped(item) {
        seq![]
    } else {
        opt_seq(verdict_report(attrs_verdict(item.attrs@), item.span)) + opt_seq(
            placeholder_report(item),
        )
    }
}

/// The lint an item declares, with where to report it: a lint declaration
/// whose description is a string literal.
pub open spec fn item_declares(item: Item, allowed: bool) -> Option<(Seq<char>, Span)> {
    if !allowed && declares_lint_ref(item) && desc_lit(item) is Some {
        Some((item.name@, item.call_site))
    } else {
        None
    }
}

/// The single-segment names among some paths.
pub open spec fn single_names(paths: Seq<Vec<String>>) -> Set<Seq<char>> {
    Set::new(|k: Seq<char>| exists|i: int| 0 <= i < paths.len() && paths[i]@.len() == 1 && (
    #[trigger] paths[i])@[0]@ == k)
}

/// The lint names an item registers: those its `get_lints` mentions by a
/// single-segment path.
pub open spec fn item_registers(item: Item, allowed: bool) -> Set<Seq<char>> {
    if !allowed && registration_items(item) is Some && get_lints_of(registration_items(item)->0) is Some {
        single_names(get_lints_of(registration_items(item)->0)->0.body_paths@)
    } else {
        Set::empty()
    }
}

/// Declared lints in order of first declaration, with where to report
/// each; a later declaration of a name replaces its place of report.
pub open spec fn declare(d: Seq<(Seq<char>, Span)>, name: Seq<char>, at: Span) -> Seq<(Seq<char>, Span)> {
    if exists|i: int| 0 <= i < d.len() && d[i].0 == name {
        d.update(choose|i: int| 0 <= i < d.len() && d[i].0 == name, (name, at))
    } else {
        d.push((name, at))
    }
}

/// No name is declared twice.
pub open spec fn unique_names(d: Seq<(Seq<char>, Span)>) -> bool {
    forall|i: int, j: int| 0 <= i < d.len() && 0 <= j < d.len() && i != j ==> d[i].0 != d[j].0
}

/// The registry over plain values.
pub struct RegistryView {
    pub declared: Seq<(Seq<char>, Span)>,
    pub registered: Set<Seq<char>>,
}

/// Collects declared lints and the lints registered with some lint pass,
/// and reports at the end those never registered.
#[derive(Clone, Debug)]
pub struct LintWithoutLintPass {
    declared: Vec<(String, Span)>,
    registered: Vec<String>,
}

impl View for LintWithoutLintPass {
    type V = RegistryView;

    closed spec fn view(&self) -> RegistryView {
        RegistryView {
            declared: self.declared@.map_values(|p: (String, Span)| (p.0@, p.1)),
            registered: Set::new(|k: Seq<char>| strs(self.registered@).contains(k)),
        }
    }
}

/// The declared lints that are not registered, in order.
pub open spec fn unregistered(d: Seq<(Seq<char>, Span)>, reg: Set<Seq<char>>) -> Seq<(Seq<char>, Span)>
    decreases d.len(),
{
    if d.len() == 0 {
        seq![]
    } else {
        let rest = unregistered(d.drop_last(), reg);
        if reg.contains(d.last().0) {
            rest
        } else {
            rest.push(d.last())
        }
    }
}

/// The finding on a lint that no lint pass registers.
pub open spec fn unregistered_report(e: (Seq<char>, Span)) -> Report {
    Report {
        lint: LintId::LintWithoutLintPass,
        span: e.1,
        message: "the lint `"@ + e.0 + "` is not added to any `LintPass`"@,
        help: None,
        help_span: None,
        label: None,
        suggestion: None,
        applicable: false,
    }
}

/// What the end-of-run reconciliation reports.
pub open spec fn unregistered_reports(v: RegistryView) -> Seq<Report> {
    unregistered(v.declared, v.registered).map_values(|e: (Seq<char>, Span)| unregistered_report(e))
}

fn is_lint_ref_type(ty: &HirTy) -> (r: bool)
    ensures
        r == is_lint_ref(*ty),
{
    match ty {
        HirTy::Ref { mutable, inner } => {
            if *mutable {
                return false;
            }
            match &**inner {
                HirTy::Path(kind, p) => {
                    let ghost want = seq!["rustc_lint_defs"@, "Lint"@];
                    if *kind == DefKind::Struct && p.len() == 2 && str_eq(
                        p[0].as_str(),
                        "rustc_lint_defs",
                    ) && str_eq(p[1].as_str(), "Lint") {
                        proof {
                            assert(strs(p@) =~= want);
                        }
                        true
                    } else {
                        proof {
                            if strs(p@) == want {
                                assert(strs(p@).len() == 2);
                                assert(strs(p@)[0] == p@[0]@);
                                assert(strs(p@)[1] == p@[1]@);
                            }
                        }
                        false
                    }
                },
                _ => false,
            }
        },
        _ => false,
    }
}

fn find_desc(fields: &Vec<FieldInit>) -> (r: Option<usize>)
    ensures
        match r {
            Some(i) => i < fields@.len() && desc_of(fields@) == Some(fields@[i as int]),
            None => desc_of(fields@) is None,
        },
{
    let mut i: usize = 0;
    proof {
        assert(fields@.subrange(0, fields@.len() as int) =~= fields@);
    }
    while i < fields.len()
        invariant
            i <= fields.len(),
            desc_of(fields@) == desc_of(fields@.subrange(i as int, fields@.len() as int)),
        decreases fields.len() - i,
    {
        proof {
            let rest = fields@.subrange(i as int, fields@.len() as int);
            assert(rest[0] == fields@[i as int]);
            assert(rest.drop_first() =~= fields@.subrange(i + 1, fields@.len() as int));
        }
        if str_eq(fields[i].name.as_str(), "desc") {
            return Some(i);
        }
        i = i + 1;
    }
    None
}

fn find_get_lints(items: &Vec<ImplItem>) -> (r: Option<usize>)
    ensures
        match r {
            Some(i) => i < items@.len() && get_lints_of(items@) == Some(items@[i as int]),
            None => get_lints_of(items@) is None,
        },
{
    let mut i: usize = 0;
    proof {
        assert(items@.subrange(0, items@.len() as int) =~= items@);
    }
    while i < items.len()
        invariant
            i <= items.len(),
            get_lints_of(items@) == get_lints_of(items@.subrange(i as int, items@.len() as int)),
        decreases items.len() - i,
    {
        proof {
            let rest = items@.subrange(i as int, items@.len() as int);
            assert(rest[0] == items@[i as int]);
            assert(rest.drop_first() =~= items@.subrange(i + 1, items@.len() as int));
        }
        if str_eq(items[i].name.as_str(), "get_lints") {
            return Some(i);
        }
        i = i + 1;
    }
    None
}

fn lint_message(name: &str, tail: &str) -> (r: String)
    ensures
        r@ == "the lint `"@ + name@ + tail@,
{
    let mut s = own("the lint `");
    s.append(name);
    s.append(tail);
    s
}

/// Whether an item holds what the declaration macros guarantee: a lint's
/// initializer has a `desc` field, and a lint pass implements `get_lints`.
pub fn item_well_formed(item: &Item) -> (r: bool)
    ensures
        r == item_ok(*item),
{
    match &item.kind {
        ItemKind::Static { mutable, ty, deprecated_ty, init } => {
            if *mutable {
                return true;
            }
            let lint_ref = is_lint_ref_type(ty);
            if !(*deprecated_ty || lint_ref) {
                return true;
            }
            let fields = if lint_ref {
                match init {
                    InitExpr::AddrOf(b) => match &**b {
                        InitExpr::Struct(f) => f,
                        _ => return true,
                    },
                    _ => return true,
                }
            } else {
                match init {
                    InitExpr::Struct(f) => f,
                    _ => return true,
                }
            };
            find_desc(fields).is_some()
        },
        ItemKind::Impl { of_trait, items } => {
            let from_pass_macro = match &item.root_macro {
                Some(m) => str_eq(m.as_str(), "impl_lint_pass") || str_eq(m.as_str(), "declare_lint_pass"),
                None => false,
            };
            if !from_pass_macro || *of_trait {
                return true;
            }
            find_get_lints(items).is_some()
        },
        ItemKind::Other => true,
    }
}

impl LintWithoutLintPass {
    /// An empty registry.
    pub fn new() -> (r: Self)
        ensures
            r@.declared == Seq::<(Seq<char>, Span)>::empty(),
            r@.registered == Set::<Seq<char>>::empty(),
    {
        let r = LintWithoutLintPass { declared: Vec::new(), registered: Vec::new() };
        proof {
            assert(r@.declared =~= Seq::<(Seq<char>, Span)>::empty());
            assert(r@.registered =~= Set::<Seq<char>>::empty());
        }
        r
    }

    fn declare_lint(&mut self, name: &str, at: Span)
        requires
            unique_names(old(self)@.declared),
        ensures
            final(self)@.declared == declare(old(self)@.declared, name@, at),
            final(self)@.registered == old(self)@.registered,
            unique_names(final(self)@.declared),
    {
        let ghost d = self@.declared;
        let mut i: usize = 0;
        while i < self.declared.len()
            invariant
                self@ == old(self)@,
                d == self@.declared,
                i <= self.declared@.len(),
                unique_names(d),
                forall|j: int| 0 <= j < i ==> d[j].0 != name@,
            decreases self.declared.len() - i,
        {
            if str_eq(self.declared[i].0.as_str(), name) {
                proof {
                    assert(d[i as int].0 == name@);
                    let k = choose|k: int| 0 <= k < d.len() && d[k].0 == name@;
                    assert(k == i);
                }
                self.declared.set(i, (own(name), at));
                proof {
                    assert(self@.declared =~= d.update(i as int, (name@, at)));
                    assert(self@.registered =~= old(self)@.registered);
                }
                return;
            }
            i = i + 1;
        }
        self.declared.push((own(name), at));
        proof {
            assert(self@.declared =~= d.push((name@, at)));
            assert(self@.registered =~= old(self)@.registered);
        }
    }

    fn register(&mut self, paths: &Vec<Vec<String>>)
        ensures
            final(self)@.declared == old(self)@.declared,
            final(self)@.registered == old(self)@.registered.union(single_names(paths@)),
    {
        let mut i: usize = 0;
        while i < paths.len()
            invariant
                i <= paths@.len(),
                self@.declared == old(self)@.declared,
                forall|k: Seq<char>| #[trigger] self@.registered.contains(k) <==> (old(self)@.registered.contains(k)
                    || exists|j: int| 0 <= j < i && paths@[j]@.len() == 1 && (#[trigger] paths@[j])@[0]@ == k),
            decreases paths.len() - i,
        {
            let p = &paths[i];
            if p.len() == 1 && !contains_str(&self.registered, p[0].as_str()) {
                let ghost before = self@;
                let ghost old_seq = strs(self.registered@);
                self.registered.push(own(p[0].as_str()));
                proof {
                    let new_seq = strs(self.registered@);
                    assert(new_seq =~= old_seq.push(p@[0]@));
                    assert(self@.declared =~= before.declared);
                    assert forall|k: Seq<char>| #[trigger] self@.registered.contains(k) <==> (before.registered.contains(k) || k == p@[0]@) by {
                        if k == p@[0]@ {
                            assert(new_seq[old_seq.len() as int] == k);
                        }
                        if new_seq.contains(k) {
                            let m = choose|m: int| 0 <= m < new_seq.len() && new_seq[m] == k;
                            if m < old_seq.len() {
                                assert(old_seq[m] == k);
                            }
                        }
                        if old_seq.contains(k) {
                            let m = choose|m: int| 0 <= m < old_seq.len() && old_seq[m] == k;
                            assert(new_seq[m] == k);
                        }
                    }
                }
            }
            i = i + 1;
        }
        proof {
            assert(self@.registered =~= old(self)@.registered.union(single_names(paths@)));
        }
    }
    /// Reads one item: reports a lint declaration's missing or invalid
    /// version attribute and placeholder description, records the lints it
    /// declares and those a lint pass registers. Nothing happens where the
    /// checks are `allowed` at the item.
    pub fn check_item(&mut self, item: &Item, allowed: bool) -> (r: Vec<Finding>)
        requires
            unique_names(old(self)@.declared),
            !allowed ==> item_ok(*item),
        ensures
            reports(r@) == item_reports(*item, allowed),
            final(self)@.declared == match item_declares(*item, allowed) {
                Some((n, at)) => declare(old(self)@.declared, n, at),
                None => old(self)@.declared,
            },
            final(self)@.registered == old(self)@.registered.union(item_registers(*item, allowed)),
            unique_names(final(self)@.declared),
    {
        let mut out: Vec<Finding> = Vec::new();
        if allowed {
            proof {
                assert(reports(out@) =~= seq![]);
                assert(self@.registered =~= old(self)@.registered.union(Set::empty()));
            }
            return out;
        }
        match &item.kind {
            ItemKind::Static { mutable, ty, deprecated_ty, init } => {
                if *mutable {
                    return self.check_registration(item);
                }
                let lint_ref = is_lint_ref_type(ty);
                if !(*deprecated_ty || lint_ref) {
                    proof {
                        assert(reports(out@) =~= seq![]);
                        assert(self@.registered =~= old(self)@.registered.union(Set::empty()));
                    }
                    return out;
                }
                let ghost v = verdict_report(attrs_verdict(item.attrs@), item.span);
                match check_invalid_clippy_version_attribute(&item.attrs, item.span) {
                    Some(f) => out.push(f),
                    None => {},
                }
                proof {
                    assert(reports(out@) =~= opt_seq(v));
                    assert(self@.registered =~= old(self)@.registered.union(Set::empty()));
                }
                let fields = if lint_ref {
                    match init {
                        InitExpr::AddrOf(b) => match &**b {
                            InitExpr::Struct(f) => f,
                            _ => {
                                proof {
                                    assert(opt_seq(v) + opt_seq(None) =~= opt_seq(v));
                                }
                                return out;
                            },
                        },
                        _ => {
                            proof {
                                assert(opt_seq(v) + opt_seq(None) =~= opt_seq(v));
                            }
                            return out;
                        },
                    }
                } else {
                    match init {
                        InitExpr::Struct(f) => f,
                        _ => {
                            proof {
                                assert(opt_seq(v) + opt_seq(None) =~= opt_seq(v));
                            }
                            return out;
                        },
                    }
                };
                assert(lint_fields(*item) == Some(fields@));
                let di = match find_desc(fields) {
                    Some(i) => i,
                    None => return out,
                };
                match &fields[di].str_lit {
                    Some(d) => {
                        if lint_ref {
                            if str_eq(d.as_str(), "default lint description") {
                                let m = lint_message(item.name.as_str(), "` has the default lint description");
                                out.push(finding(LintId::DefaultLint, item.span, m.as_str(), None, None, false));
                            }
                            self.declare_lint(item.name.as_str(), item.call_site);
                        } else if str_eq(d.as_str(), "default deprecation note") {
                            let m = lint_message(item.name.as_str(), "` has the default deprecation reason");
                            out.push(
                                finding(LintId::DefaultDeprecationReason, item.span, m.as_str(), None, None, false),
                            );
                        }
                    },
                    None => {},
                }
                proof {
                    assert(reports(out@) =~= opt_seq(v) + opt_seq(placeholder_report(*item)));
                    assert(self@.registered =~= old(self)@.registered.union(Set::empty()));
                }
                out
            },
            _ => self.check_registration(item),
        }
    }

    fn check_registration(&mut self, item: &Item) -> (r: Vec<Finding>)
        requires
            unique_names(old(self)@.declared),
            item_ok(*item),
            !is_immutable_static(*item),
        ensures
            r@.len() == 0,
            final(self)@.declared == old(self)@.declared,
            final(self)@.registered == old(self)@.registered.union(item_registers(*item, false)),
    {
        let out: Vec<Finding> = Vec::new();
        let ok = match &item.root_macro {
            Some(m) => str_eq(m.as_str(), "impl_lint_pass") || str_eq(m.as_str(), "declare_lint_pass"),
            None => false,
        };
        if ok {
            match &item.kind {
                ItemKind::Impl { of_trait, items } => {
                    if !*of_trait {
                        match find_get_lints(items) {
                            Some(i) => {
                                self.register(&items[i].body_paths);
                                return out;
                            },
                            None => {},
                        }
                    }
                },
                _ => {},
            }
        }
        proof {
            assert(self@.registered =~= old(self)@.registered.union(Set::empty()));
        }
        out
    }

    /// Reports, once traversal is over, every declared lint that no lint
    /// pass registers (nothing where the check is `allowed` for the crate).
    pub fn check_crate_post(&self, allowed: bool) -> (r: Vec<Finding>)
        ensures
            reports(r@) == if allowed {
                Seq::<Report>::empty()
            } else {
                unregistered_reports(self@)
            },
    {
        let mut out: Vec<Finding> = Vec::new();
        if allowed {
            proof {
                assert(reports(out@) =~= Seq::<Report>::empty());
            }
            return out;
        }
        let ghost d = self@.declared;
        let ghost reg = self@.registered;
        let mut i: usize = 0;
        proof {
            assert(d.subrange(0, 0) =~= Seq::<(Seq<char>, Span)>::empty());
            assert(reports(out@) =~= unregistered(d.subrange(0, 0), reg).map_values(
                |e: (Seq<char>, Span)| unregistered_report(e),
            ));
        }
        while i < self.declared.len()
            invariant
                d == self@.declared,
                reg == self@.registered,
                i <= self.declared@.len(),
                reports(out@) == unregistered(d.subrange(0, i as int), reg).map_values(
                    |e: (Seq<char>, Span)| unregistered_report(e),
                ),
            decreases self.declared.len() - i,
        {
            let (name, at) = &self.declared[i];
            proof {
                assert(d.subrange(0, i + 1).drop_last() =~= d.subrange(0, i as int));
                assert(d.subrange(0, i + 1).last() == (name@, *at));
            }
            if !contains_str(&self.registered, name.as_str()) {
                let m = lint_message(name.as_str(), "` is not added to any `LintPass`");
                let ghost before = out@;
                let f = finding(LintId::LintWithoutLintPass, *at, m.as_str(), None, None, false);
                proof {
                    assert(!reg.contains(name@));
                    assert(f@ == unregistered_report((name@, *at)));
                }
                out.push(f);
                proof {
                    assert(reports(out@) =~= reports(before).push(f@));
                    assert(reports(out@) =~= unregistered(d.subrange(0, i + 1), reg).map_values(
                        |e: (Seq<char>, Span)| unregistered_report(e),
                    ));
                }
            }
            i = i + 1;
        }
        proof {
            assert(d.subrange(0, d.len() as int) =~= d);
        }
        out
    }
}

} // verus!