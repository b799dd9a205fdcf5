use vstd::prelude::*;
use vstd::string::*;
use vstd::utf8::*;
use crate::text::{strs, own};
use crate::diag::{Span, LintId, Finding, Report, suggest, opt_report};
use crate::resolve::{SymbolTable, Canonical, DefKind, resolve, resolved};

verus! {

/// A type as the reader of constant memory sees it. `Ref` is a shared
/// reference; a mutable reference is `Other`.
#[derive(Debug)]
pub enum ConstTy {
    Ref(Box<ConstTy>),
    Array(Box<ConstTy>),
    Slice(Box<ConstTy>),
    Str,
    Other,
}

/// What a pointer stored in constant memory points to.
#[derive(Debug)]
pub enum Pointee {
    Memory(Allocation),
    Other,
}

/// Evaluated constant memory: its bytes and, in order, the pointers stored
/// in it.
#[derive(Debug)]
pub struct Allocation {
    pub bytes: Vec<u8>,
    pub pointers: Vec<Pointee>,
}

/// The argument that should hold a def path, with reference operators
/// already peeled off.
#[derive(Debug)]
pub enum PathArg {
    /// A literal array: for each element, the text of a string literal, or
    /// `None` for an element of any other form.
    Array(Vec<Option<String>>),
    /// A local variable, with the initializer of the `let` that binds it, if
    /// it is bound by one.
    Local(Option<Box<PathArg>>),
    /// A static, or a constant that evaluated to memory at offset zero:
    /// that memory (`None` when evaluation failed) and the declared type.
    Evaluated(Option<Allocation>, ConstTy),
    /// Anything else.
    Other,
}

/// The strings a literal array spells, if every element is a string literal.
pub open spec fn literal_strs(elems: Seq<Option<String>>) -> Option<Seq<Seq<char>>> {
    if forall|i: int| 0 <= i < elems.len() ==> (#[trigger] elems[i]) is Some {
        Some(Seq::new(elems.len(), |i: int| elems[i]->0@))
    } else {
        None
    }
}

/// The string a pointer designates: memory holding valid UTF-8.
pub open spec fn pointee_str(p: Pointee) -> Option<Seq<char>> {
    match p {
        Pointee::Memory(a) => if valid_utf8(a.bytes@) {
            Some(decode_utf8(a.bytes@))
        } else {
            None
        },
        Pointee::Other => None,
    }
}

/// The strings the pointers designate, if each designates one.
pub open spec fn pointee_strs(ps: Seq<Pointee>) -> Option<Seq<Seq<char>>> {
    if forall|i: int| 0 <= i < ps.len() ==> (#[trigger] pointee_str(ps[i])) is Some {
        Some(Seq::new(ps.len(), |i: int| pointee_str(ps[i])->0))
    } else {
        None
    }
}

/// An array or slice of `&str`.
pub open spec fn is_str_list_ty(ty: ConstTy) -> bool {
    match ty {
        ConstTy::Array(e) | ConstTy::Slice(e) => match *e {
            ConstTy::Ref(s) => *s is Str,
            _ => false,
        },
        _ => false,
    }
}

/// The path held in constant memory of type `ty`: behind one shared
/// reference, first followed to the memory its first pointer designates.
pub open spec fn alloc_path(alloc: Allocation, ty: ConstTy) -> Option<Seq<Seq<char>>> {
    match ty {
        ConstTy::Ref(inner) => if alloc.pointers@.len() > 0 {
            match alloc.pointers@[0] {
                Pointee::Memory(a) => if is_str_list_ty(*inner) {
                    pointee_strs(a.pointers@)
                } else {
                    None
                },
                Pointee::Other => None,
            }
        } else {
            None
        },
        _ => if is_str_list_ty(ty) {
            pointee_strs(alloc.pointers@)
        } else {
            None
        },
    }
}

/// The def path an argument designates, if it can be read without guessing.
pub open spec fn arg_path(arg: PathArg) -> Option<Seq<Seq<char>>>
    decreases arg,
{
    match arg {
        PathArg::Array(elems) => literal_strs(elems@),
        PathArg::Local(Some(init)) => arg_path(*init),
        PathArg::Local(None) => None,
        PathArg::Evaluated(Some(alloc), ty) => alloc_path(alloc, ty),
        PathArg::Evaluated(None, _) => None,
        PathArg::Other => None,
    }
}

/// Relies on `std::str::from_utf8`: it succeeds exactly on valid UTF-8, and
/// the string then holds the characters those bytes encode.
#[verifier::external_body]
fn decode_str(bytes: &Vec<u8>) -> (r: Option<String>)
    ensures
        r is Some == valid_utf8(bytes@),
        r is Some ==> r->0@ == decode_utf8(bytes@),
{
    std::str::from_utf8(bytes.as_slice()).ok().map(|s| s.to_owned())
}

fn is_str_list(ty: &ConstTy) -> (r: bool)
    ensures
        r == is_str_list_ty(*ty),
{
    match ty {
        ConstTy::Array(e) | ConstTy::Slice(e) => match &**e {
            ConstTy::Ref(s) => matches!(**s, ConstTy::Str),
            _ => false,
        },
        _ => false,
    }
}

fn read_pointee_strs(ps: &Vec<Pointee>) -> (r: Option<Vec<String>>)
    ensures
        match r {
            Some(v) => pointee_strs(ps@) == Some(strs(v@)),
            None => pointee_strs(ps@) is None,
        },
{
    let mut out: Vec<String> = Vec::new();
    let mut i: usize = 0;
    while i < ps.len()
        invariant
            i <= ps.len(),
            out@.len() == i,
            forall|j: int| 0 <= j < i ==> pointee_str(ps@[j]) == Some(#[trigger] out@[j]@),
        decreases ps.len() - i,
    {
        let s = match &ps[i] {
            Pointee::Memory(a) => decode_str(&a.bytes),
            Pointee::Other => None,
        };
        match s {
            Some(s) => out.push(s),
            None => {
                proof {
                    assert(pointee_str(ps@[i as int]) is None);
                }
                return None;
            },
        }
        i = i + 1;
    }
    proof {
        assert forall|k: int| 0 <= k < ps@.len() implies (#[trigger] pointee_str(ps@[k])) is Some by {
            assert(pointee_str(ps@[k]) == Some(out@[k]@));
        }
        assert(strs(out@) =~= Seq::new(ps@.len(), |k: int| pointee_str(ps@[k])->0));
    }
    Some(out)
}

/// Reads the path that evaluated constant memory of type `ty` holds.
pub fn read_mir_alloc_def_path(alloc: &Allocation, ty: &ConstTy) -> (r: Option<Vec<String>>)
    ensures
        match r {
            Some(v) => alloc_path(*alloc, *ty) == Some(strs(v@)),
            None => alloc_path(*alloc, *ty) is None,
        },
{
    match ty {
        ConstTy::Ref(inner) => {
            if alloc.pointers.len() == 0 {
                return None;
            }
            match &alloc.pointers[0] {
                Pointee::Memory(a) => if is_str_list(&**inner) {
                    read_pointee_strs(&a.pointers)
                } else {
                    None
                },
                Pointee::Other => None,
            }
        },
        _ => if is_str_list(ty) {
            read_pointee_strs(&alloc.pointers)
        } else {
            None
        },
    }
}

fn read_literal_strs(elems: &Vec<Option<String>>) -> (r: Option<Vec<String>>)
    ensures
        match r {
            Some(v) => literal_strs(elems@) == Some(strs(v@)),
            None => literal_strs(elems@) is None,
        },
{
    let mut out: Vec<String> = Vec::new();
    let mut i: usize = 0;
    while i < elems.len()
        invariant
            i <= elems.len(),
            out@.len() == i,
            forall|j: int| 0 <= j < i ==> (#[trigger] elems@[j]) is Some && elems@[j]->0@ == out@[j]@,
        decreases elems.len() - i,
    {
        match &elems[i] {
            Some(s) => out.push(own(s.as_str())),
            None => {
                proof {
                    assert(elems@[i as int] is None);
                }
                return None;
            },
        }
        i = i + 1;
    }
    proof {
        assert(strs(out@) =~= Seq::new(elems@.len(), |k: int| elems@[k]->0@));
    }
    Some(out)
}

/// Extracts the def path an argument designates: a literal array of string
/// literals, a local bound to one, or evaluated constant memory holding one.
/// Anything else yields `None`.
pub fn path_to_matched_type(arg: &PathArg) -> (r: Option<Vec<String>>)
    ensures
        match r {
            Some(v) => arg_path(*arg) == Some(strs(v@)),
            None => arg_path(*arg) is None,
        },
    decreases arg,
{
    match arg {
        PathArg::Array(elems) => read_literal_strs(elems),
        PathArg::Local(Some(init)) => path_to_matched_type(&**init),
        PathArg::Local(None) => None,
        PathArg::Evaluated(Some(alloc), ty) => read_mir_alloc_def_path(alloc, ty),
        PathArg::Evaluated(None, _) => None,
        PathArg::Other => None,
    }
}

/// The four helpers that take a def path as their third argument.
#[derive(Clone, Copy, Debug, PartialEq, Eq, Structural)]
pub enum PathHelper {
    MatchDefPath,
    MatchTraitMethod,
    MatchType,
    IsExprPathDefPath,
}

/// A call to one of the def-path helpers.
#[derive(Debug)]
pub struct DefPathCall {
    pub helper: PathHelper,
    /// The extent of the whole call.
    pub span: Span,
    /// The source text of the first (context) argument, if available.
    pub cx_snippet: Option<String>,
    /// The source text of the second argument, if available.
    pub def_snippet: Option<String>,
    /// The third argument, which should hold the def path.
    pub path_arg: PathArg,
}

/// A snippet, or `..` where the source text is not available.
pub open spec fn snip(s: Option<String>) -> Seq<char> {
    match s {
        Some(x) => x@,
        None => ".."@,
    }
}

/// The entity a resolved path is taken to mean: a field is replaced by the
/// inherent method of the same name on its parent, when there is one.
pub open spec fn target_entity(t: SymbolTable, id: int) -> int {
    let e = t.entities@[id];
    if e.kind == DefKind::Field && e.inherent_method is Some && e.inherent_method->0
        < t.entities@.len() {
        e.inherent_method->0 as int
    } else {
        id
    }
}

/// A struct or variant that can be built by its constructor from outside.
pub open spec fn has_ctor(t: SymbolTable, id: int) -> bool {
    let e = t.entities@[id];
    (e.kind == DefKind::Struct || e.kind == DefKind::Variant) && e.ctor && e.fields_public
}

/// The rewrite of a helper call whose path designates an entity with the
/// handle `item` (a diagnostic item when `diag`, else a lang item): its
/// text, and whether the note on constructor ids goes with it. `None` where
/// the helper has no counterpart for that kind of handle.
pub open spec fn def_path_rewrite(
    h: PathHelper,
    diag: bool,
    item: Seq<char>,
    ctor: bool,
    cx: Seq<char>,
    def: Seq<char>,
) -> Option<(Seq<char>, bool)> {
    match h {
        PathHelper::MatchDefPath => if diag {
            Some((cx + ".tcx.is_diagnostic_item(sym::"@ + item + ", "@ + def + ")"@, ctor))
        } else {
            Some(
                (cx + ".tcx.lang_items().require(LangItem::"@ + item + ").ok() == Some("@ + def
                    + ")"@, ctor),
            )
        },
        PathHelper::MatchTraitMethod => if diag {
            Some(("is_trait_method("@ + cx + ", "@ + def + ", sym::"@ + item + ")"@, false))
        } else {
            None
        },
        PathHelper::MatchType => if diag {
            Some(("is_type_diagnostic_item("@ + cx + ", "@ + def + ", sym::"@ + item + ")"@, false))
        } else {
            Some(("is_type_lang_item("@ + cx + ", "@ + def + ", LangItem::"@ + item + ")"@, false))
        },
        PathHelper::IsExprPathDefPath => if ctor {
            if diag {
                Some(
                    ("is_res_diag_ctor("@ + cx + ", path_res("@ + cx + ", "@ + def + "), sym::"@
                        + item + ")"@, false),
                )
            } else {
                Some(
                    ("is_res_lang_ctor("@ + cx + ", path_res("@ + cx + ", "@ + def
                        + "), LangItem::"@ + item + ")"@, false),
                )
            }
        } else if diag {
            Some(("is_path_diagnostic_item("@ + cx + ", "@ + def + ", sym::"@ + item + ")"@, false))
        } else {
            Some(
                ("path_res("@ + cx + ", "@ + def + ").opt_def_id().map_or(false, |id| "@ + cx
                    + ".tcx.lang_items().require(LangItem::"@ + item + ").ok() == Some(id))"@, false),
            )
        },
    }
}

/// What the def-path check reports on a call: nothing unless the path
/// argument reads as a path, resolves, designates an entity with a
/// canonical handle, and the helper has a counterpart for that handle.
pub open spec fn def_path_report(t: SymbolTable, c: DefPathCall) -> Option<Report> {
    match arg_path(c.path_arg) {
        None => None,
        Some(segs) => match resolved(t, segs) {
            None => None,
            Some(id0) => {
                let id = target_entity(t, id0);
                let (diag, item) = match t.entities@[id].canonical {
                    Canonical::Diagnostic(n) => (true, Some(n@)),
                    Canonical::Lang(n) => (false, Some(n@)),
                    Canonical::Plain => (false, None),
                };
                match item {
                    None => None,
                    Some(item) => match def_path_rewrite(
                        c.helper,
                        diag,
                        item,
                        has_ctor(t, id),
                        snip(c.cx_snippet),
                        snip(c.def_snippet),
                    ) {
                        None => None,
                        Some((sugg, note)) => Some(
                            Report {
                                lint: LintId::UnnecessaryDefPath,
                                span: c.span,
                                message: if diag {
                                    "use of a def path to a diagnostic item"@
                                } else {
                                    "use of a def path to a `LangItem`"@
                                },
                                help: if note {
                                    Some("if this `DefId` came from a constructor expression or pattern then the parent `DefId` should be used instead"@)
                                } else {
                                    None
                                },
                                help_span: None,
                                label: Some("try"@),
                                suggestion: Some(sugg),
                                applicable: c.cx_snippet is Some && c.def_snippet is Some,
                            },
                        ),
                    },
                }
            },
        },
    }
}

fn snippet_or_dots(s: &Option<String>) -> (r: String)
    ensures
        r@ == snip(*s),
{
    match s {
        Some(x) => own(x.as_str()),
        None => own(".."),
    }
}

fn build_rewrite(
    h: PathHelper,
    diag: bool,
    item: &str,
    ctor: bool,
    cx: &str,
    def: &str,
) -> (r: Option<(String, bool)>)
    ensures
        match r {
            Some((s, n)) => def_path_rewrite(h, diag, item@, ctor, cx@, def@) == Some((s@, n)),
            None => def_path_rewrite(h, diag, item@, ctor, cx@, def@) is None,
        },
{
    match h {
        PathHelper::MatchDefPath => {
            let mut s = own(cx);
            if diag {
                s.append(".tcx.is_diagnostic_item(sym::");
                s.append(item);
                s.append(", ");
                s.append(def);
                s.append(")");
            } else {
                s.append(".tcx.lang_items().require(LangItem::");
                s.append(item);
                s.append(").ok() == Some(");
                s.append(def);
                s.append(")");
            }
            Some((s, ctor))
        },
        PathHelper::MatchTraitMethod => {
            if !diag {
                return None;
            }
            let mut s = own("is_trait_method(");
            s.append(cx);
            s.append(", ");
            s.append(def);
            s.append(", sym::");
            s.append(item);
            s.append(")");
            Some((s, false))
        },
        PathHelper::MatchType => {
            let mut s = if diag {
                own("is_type_diagnostic_item(")
            } else {
                own("is_type_lang_item(")
            };
            s.append(cx);
            s.append(", ");
            s.append(def);
            if diag {
                s.append(", sym::");
            } else {
                s.append(", LangItem::");
            }
            s.append(item);
            s.append(")");
            Some((s, false))
        },
        PathHelper::IsExprPathDefPath => {
            if ctor {
                let mut s = if diag {
                    own("is_res_diag_ctor(")
                } else {
                    own("is_res_lang_ctor(")
                };
                s.append(cx);
                s.append(", path_res(");
                s.append(cx);
                s.append(", ");
                s.append(def);
                if diag {
                    s.append("), sym::");
                } else {
                    s.append("), LangItem::");
                }
                s.append(item);
                s.append(")");
                Some((s, false))
            } else if diag {
                let mut s = own("is_path_diagnostic_item(");
                s.append(cx);
                s.append(", ");
                s.append(def);
                s.append(", sym::");
                s.append(item);
                s.append(")");
                Some((s, false))
            } else {
                let mut s = own("path_res(");
                s.append(cx);
                s.append(", ");
                s.append(def);
                s.append(").opt_def_id().map_or(false, |id| ");
                s.append(cx);
                s.append(".tcx.lang_items().require(LangItem::");
                s.append(item);
                s.append(").ok() == Some(id))");
                Some((s, false))
            }
        },
    }
}

/// Checks a call to a def-path helper: where a shorter, stable handle
/// exists for the entity its path designates, reports the call with a
/// rewrite that uses the handle.
pub fn check_def_path_call(t: &SymbolTable, c: &DefPathCall) -> (r: Option<Finding>)
    ensures
        opt_report(r) == def_path_report(*t, *c),
{
    let segs = match path_to_matched_type(&c.path_arg) {
        Some(segs) => segs,
        None => return None,
    };
    let id0 = match resolve(t, &segs) {
        Some(i) => i,
        None => return None,
    };
    let e0 = &t.entities[id0];
    let id = match e0.inherent_method {
        Some(m) => if e0.kind == DefKind::Field && m < t.entities.len() {
            m
        } else {
            id0
        },
        None => id0,
    };
    let e = &t.entities[id];
    let (diag, item) = match &e.canonical {
        Canonical::Diagnostic(n) => (true, n),
        Canonical::Lang(n) => (false, n),
        Canonical::Plain => return None,
    };
    let ctor = (e.kind == DefKind::Struct || e.kind == DefKind::Variant) && e.ctor
        && e.fields_public;
    let cx = snippet_or_dots(&c.cx_snippet);
    let def = snippet_or_dots(&c.def_snippet);
    let (sugg, note) = match build_rewrite(c.helper, diag, item.as_str(), ctor, cx.as_str(), def.as_str()) {
        Some(x) => x,
        None => return None,
    };
    let message = if diag {
        "use of a def path to a diagnostic item"
    } else {
        "use of a def path to a `LangItem`"
    };
    let help = if note {
        Some(own("if this `DefId` came from a constructor expression or pattern then the parent `DefId` should be used instead"))
    } else {
        None
    };
    let applicable = c.cx_snippet.is_some() && c.def_snippet.is_some();
    Some(suggest(LintId::UnnecessaryDefPath, c.span, message, help, "try", sugg, applicable))
}

/// The name of one of the four def-path helpers.
pub open spec fn is_def_path_helper(name: Seq<char>) -> bool {
    name == "match_def_path"@ || name == "match_trait_method"@ || name == "match_type"@ || name
        == "is_expr_path_def_path"@
}

/// The rewrite of a def-path call calls no def-path helper: for
/// `match_def_path` it works on the context's `tcx`; otherwise it calls a
/// function of another name. Checking the rewritten code finds nothing more.
pub proof fn lemma_def_path_rewrite_settles(
    h: PathHelper,
    diag: bool,
    item: Seq<char>,
    ctor: bool,
    cx: Seq<char>,
    def: Seq<char>,
)
    ensures
        def_path_rewrite(h, diag, item, ctor, cx, def) matches Some((t, _)) ==> if h
            == PathHelper::MatchDefPath {
            exists|rest: Seq<char>| t == cx + ".tcx."@ + rest
        } else {
            exists|name: Seq<char>, rest: Seq<char>| t == name + "("@ + rest && !is_def_path_helper(name)
        },
{
    reveal_strlit("match_def_path");
    reveal_strlit("match_trait_method");
    reveal_strlit("match_type");
    reveal_strlit("is_expr_path_def_path");
    reveal_strlit(".tcx.");
    reveal_strlit("(");
    match def_path_rewrite(h, diag, item, ctor, cx, def) {
        None => {},
        Some((t, _)) => {
            match h {
                PathHelper::MatchDefPath => if diag {
                    reveal_strlit(".tcx.is_diagnostic_item(sym::");
                    reveal_strlit("is_diagnostic_item(sym::");
                    let rest = "is_diagnostic_item(sym::"@ + item + ", "@ + def + ")"@;
                    assert(".tcx.is_diagnostic_item(sym::"@ =~= ".tcx."@ + "is_diagnostic_item(sym::"@);
                    assert(t =~= cx + ".tcx."@ + rest);
                } else {
                    reveal_strlit(".tcx.lang_items().require(LangItem::");
                    reveal_strlit("lang_items().require(LangItem::");
                    let rest = "lang_items().require(LangItem::"@ + item + ").ok() == Some("@ + def + ")"@;
                    assert(".tcx.lang_items().require(LangItem::"@ =~= ".tcx."@
                        + "lang_items().require(LangItem::"@);
                    assert(t =~= cx + ".tcx."@ + rest);
                },
                PathHelper::MatchTraitMethod => {
                    reveal_strlit("is_trait_method(");
                    reveal_strlit("is_trait_method");
                    let name = "is_trait_method"@;
                    let rest = cx + ", "@ + def + ", sym::"@ + item + ")"@;
                    assert("is_trait_method("@ =~= name + "("@);
                    assert(t =~= name + "("@ + rest);
                    assert(name.len() != 14 && name.len() != 18 && name.len() != 10 && name.len() != 21);
                },
                PathHelper::MatchType => {
                    let sym = if diag {
                        ", sym::"@
                    } else {
                        ", LangItem::"@
                    };
                    let rest = cx + ", "@ + def + sym + item + ")"@;
                    if diag {
                        reveal_strlit("is_type_diagnostic_item(");
                        reveal_strlit("is_type_diagnostic_item");
                        let name = "is_type_diagnostic_item"@;
                        assert("is_type_diagnostic_item("@ =~= name + "("@);
                        assert(t =~= name + "("@ + rest);
                        assert(name.len() == 23);
                    } else {
                        reveal_strlit("is_type_lang_item(");
                        reveal_strlit("is_type_lang_item");
                        let name = "is_type_lang_item"@;
                        assert("is_type_lang_item("@ =~= name + "("@);
                        assert(t =~= name + "("@ + rest);
                        assert(name.len() == 17);
                    }
                },
                PathHelper::IsExprPathDefPath => if ctor {
                    let sym = if diag {
                        "), sym::"@
                    } else {
                        "), LangItem::"@
                    };
                    let rest = cx + ", path_res("@ + cx + ", "@ + def + sym + item + ")"@;
                    if diag {
                        reveal_strlit("is_res_diag_ctor(");
                        reveal_strlit("is_res_diag_ctor");
                        let name = "is_res_diag_ctor"@;
                        assert("is_res_diag_ctor("@ =~= name + "("@);
                        assert(t =~= name + "("@ + rest);
                        assert(name.len() == 16);
                    } else {
                        reveal_strlit("is_res_lang_ctor(");
                        reveal_strlit("is_res_lang_ctor");
                        let name = "is_res_lang_ctor"@;
                        assert("is_res_lang_ctor("@ =~= name + "("@);
                        assert(t =~= name + "("@ + rest);
                        assert(name.len() == 16);
                    }
                } else if diag {
                    reveal_strlit("is_path_diagnostic_item(");
                    reveal_strlit("is_path_diagnostic_item");
                    let name = "is_path_diagnostic_item"@;
                    let rest = cx + ", "@ + def + ", sym::"@ + item + ")"@;
                    assert("is_path_diagnostic_item("@ =~= name + "("@);
                    assert(t =~= name + "("@ + rest);
                    assert(name.len() == 23);
                } else {
                    reveal_strlit("path_res(");
                    reveal_strlit("path_res");
                    let name = "path_res"@;
                    let rest = cx + ", "@ + def + ").opt_def_id().map_or(false, |id| "@ + cx
                        + ".tcx.lang_items().require(LangItem::"@ + item + ").ok() == Some(id))"@;
                    assert("path_res("@ =~= name + "("@);
                    assert(t =~= name + "("@ + rest);
                    assert(name.len() == 8);
                },
            }
        },
    }
}

} // verus!
