use clippy_lints::def_path::{
    check_def_path_call, path_to_matched_type, read_mir_alloc_def_path, Allocation, ConstTy,
    DefPathCall, PathArg, PathHelper, Pointee,
};
use clippy_lints::diag::{LintId, Span};
use clippy_lints::paths::{check_path_const, PathConst};
use clippy_lints::resolve::{check_path, resolve, Canonical, DefKind, Entity, SymbolTable};

fn s(x: &str) -> String {
    x.to_string()
}

fn path(p: &[&str]) -> Vec<String> {
    p.iter().map(|x| x.to_string()).collect()
}

fn entity(p: &[&str], kind: DefKind, canonical: Canonical, ctor: bool) -> Entity {
    Entity {
        path: path(p),
        kind,
        canonical,
        ctor,
        fields_public: true,
        inherent_method: None,
        module_children: vec![],
        assoc_items: vec![],
    }
}

/// 0: a diagnostic item without constructor; 1: a lang item variant with a
/// constructor; 2: a diagnostic item struct with a constructor; 3: a lang
/// item struct without constructor; 4: an entity with no handle.
fn table() -> SymbolTable {
    SymbolTable {
        entities: vec![
            entity(&["alloc", "vec", "Vec"], DefKind::Struct, Canonical::Diagnostic(s("Vec")), false),
            entity(&["core", "option", "Option", "Some"], DefKind::Variant, Canonical::Lang(s("OptionSome")), true),
            entity(&["core", "ops", "range", "Range"], DefKind::Struct, Canonical::Diagnostic(s("Range")), true),
            entity(&["alloc", "string", "String"], DefKind::Struct, Canonical::Lang(s("String")), false),
            entity(&["my_crate", "Thing"], DefKind::Struct, Canonical::Plain, false),
        ],
        builtins: vec![],
    }
}

fn lit_array(p: &[&str]) -> PathArg {
    PathArg::Array(p.iter().map(|x| Some(x.to_string())).collect())
}

fn call(helper: PathHelper, def: &str, p: &[&str]) -> DefPathCall {
    DefPathCall {
        helper,
        span: Span { lo: 10, hi: 50 },
        cx_snippet: Some(s("cx")),
        def_snippet: Some(s(def)),
        path_arg: lit_array(p),
    }
}

const VEC: &[&str] = &["alloc", "vec", "Vec"];
const SOME: &[&str] = &["core", "option", "Option", "Some"];
const RANGE: &[&str] = &["core", "ops", "range", "Range"];
const STRING: &[&str] = &["alloc", "string", "String"];
const CTOR_NOTE: &str =
    "if this `DefId` came from a constructor expression or pattern then the parent `DefId` should be used instead";

fn sugg(t: &SymbolTable, c: &DefPathCall) -> Option<String> {
    check_def_path_call(t, c).and_then(|f| f.suggestion)
}

#[test]
fn match_def_path_diagnostic_item_rewrite() {
    let t = table();
    let f = check_def_path_call(&t, &call(PathHelper::MatchDefPath, "did", VEC)).unwrap();
    assert_eq!(f.lint, LintId::UnnecessaryDefPath);
    assert_eq!(f.span, Span { lo: 10, hi: 50 });
    assert_eq!(f.message, "use of a def path to a diagnostic item");
    assert_eq!(f.suggestion.unwrap(), "cx.tcx.is_diagnostic_item(sym::Vec, did)");
    assert_eq!(f.help, None);
    assert_eq!(f.label.as_deref(), Some("try"));
    assert!(f.applicable);
}

#[test]
fn match_def_path_lang_item_rewrite_with_ctor_note() {
    let t = table();
    let f = check_def_path_call(&t, &call(PathHelper::MatchDefPath, "did", SOME)).unwrap();
    assert_eq!(f.message, "use of a def path to a `LangItem`");
    assert_eq!(
        f.suggestion.unwrap(),
        "cx.tcx.lang_items().require(LangItem::OptionSome).ok() == Some(did)"
    );
    assert_eq!(f.help.unwrap(), CTOR_NOTE);
}

#[test]
fn match_trait_method_rewrites() {
    let t = table();
    assert_eq!(
        sugg(&t, &call(PathHelper::MatchTraitMethod, "expr", VEC)).unwrap(),
        "is_trait_method(cx, expr, sym::Vec)"
    );
    assert!(check_def_path_call(&t, &call(PathHelper::MatchTraitMethod, "expr", SOME)).is_none());
}

#[test]
fn match_type_rewrites() {
    let t = table();
    assert_eq!(
        sugg(&t, &call(PathHelper::MatchType, "ty", VEC)).unwrap(),
        "is_type_diagnostic_item(cx, ty, sym::Vec)"
    );
    assert_eq!(
        sugg(&t, &call(PathHelper::MatchType, "ty", STRING)).unwrap(),
        "is_type_lang_item(cx, ty, LangItem::String)"
    );
}

#[test]
fn is_expr_path_def_path_rewrites() {
    let t = table();
    assert_eq!(
        sugg(&t, &call(PathHelper::IsExprPathDefPath, "expr", RANGE)).unwrap(),
        "is_res_diag_ctor(cx, path_res(cx, expr), sym::Range)"
    );
    assert_eq!(
        sugg(&t, &call(PathHelper::IsExprPathDefPath, "expr", SOME)).unwrap(),
        "is_res_lang_ctor(cx, path_res(cx, expr), LangItem::OptionSome)"
    );
    assert_eq!(
        sugg(&t, &call(PathHelper::IsExprPathDefPath, "expr", VEC)).unwrap(),
        "is_path_diagnostic_item(cx, expr, sym::Vec)"
    );
    assert_eq!(
        sugg(&t, &call(PathHelper::IsExprPathDefPath, "expr", STRING)).unwrap(),
        "path_res(cx, expr).opt_def_id().map_or(false, |id| cx.tcx.lang_items().require(LangItem::String).ok() == Some(id))"
    );
    let f = check_def_path_call(&t, &call(PathHelper::IsExprPathDefPath, "expr", SOME)).unwrap();
    assert_eq!(f.help, None);
}

#[test]
fn constructor_without_public_fields_uses_plain_rewrite() {
    let mut t = table();
    t.entities[2].fields_public = false;
    assert_eq!(
        sugg(&t, &call(PathHelper::IsExprPathDefPath, "expr", RANGE)).unwrap(),
        "is_path_diagnostic_item(cx, expr, sym::Range)"
    );
}

#[test]
fn no_finding_without_canonical_handle_or_resolution() {
    let t = table();
    assert!(check_def_path_call(&t, &call(PathHelper::MatchDefPath, "did", &["my_crate", "Thing"])).is_none());
    assert!(check_def_path_call(&t, &call(PathHelper::MatchDefPath, "did", &["no", "such"])).is_none());
}

#[test]
fn missing_snippets_become_placeholders() {
    let t = table();
    let mut c = call(PathHelper::MatchDefPath, "did", VEC);
    c.cx_snippet = None;
    let f = check_def_path_call(&t, &c).unwrap();
    assert_eq!(f.suggestion.unwrap(), "...tcx.is_diagnostic_item(sym::Vec, did)");
    assert!(!f.applicable);
}

#[test]
fn field_is_redirected_to_inherent_method() {
    let mut t = table();
    t.entities.push(entity(&["my_crate", "Thing", "len"], DefKind::Field, Canonical::Plain, false));
    t.entities.push(entity(&["my_crate", "Thing", "impl", "len"], DefKind::Other, Canonical::Diagnostic(s("thing_len")), false));
    t.entities[5].inherent_method = Some(6);
    assert_eq!(
        sugg(&t, &call(PathHelper::MatchDefPath, "did", &["my_crate", "Thing", "len"])).unwrap(),
        "cx.tcx.is_diagnostic_item(sym::thing_len, did)"
    );
}

#[test]
fn path_through_local_and_non_literal_elements() {
    let local = PathArg::Local(Some(Box::new(lit_array(VEC))));
    assert_eq!(path_to_matched_type(&local).unwrap(), path(VEC));
    assert!(path_to_matched_type(&PathArg::Local(None)).is_none());
    let mixed = PathArg::Array(vec![Some(s("alloc")), None]);
    assert!(path_to_matched_type(&mixed).is_none());
    assert!(path_to_matched_type(&PathArg::Other).is_none());
}

fn mem(bytes: &[u8]) -> Pointee {
    Pointee::Memory(Allocation { bytes: bytes.to_vec(), pointers: vec![] })
}

fn str_slice_ty() -> ConstTy {
    ConstTy::Slice(Box::new(ConstTy::Ref(Box::new(ConstTy::Str))))
}

#[test]
fn path_read_from_constant_memory() {
    let arr = Allocation { bytes: vec![], pointers: vec![mem(b"alloc"), mem(b"vec"), mem(b"Vec")] };
    assert_eq!(read_mir_alloc_def_path(&arr, &str_slice_ty()).unwrap(), path(VEC));
    let outer = Allocation { bytes: vec![], pointers: vec![Pointee::Memory(arr)] };
    let by_ref = ConstTy::Ref(Box::new(str_slice_ty()));
    assert_eq!(read_mir_alloc_def_path(&outer, &by_ref).unwrap(), path(VEC));
    let t = table();
    let c = DefPathCall {
        helper: PathHelper::MatchType,
        span: Span { lo: 0, hi: 1 },
        cx_snippet: Some(s("cx")),
        def_snippet: Some(s("ty")),
        path_arg: PathArg::Evaluated(Some(outer), by_ref),
    };
    assert_eq!(sugg(&t, &c).unwrap(), "is_type_diagnostic_item(cx, ty, sym::Vec)");
}

#[test]
fn constant_memory_that_is_not_a_path() {
    let bad = Allocation { bytes: vec![], pointers: vec![mem(&[0xff, 0xfe])] };
    assert!(read_mir_alloc_def_path(&bad, &str_slice_ty()).is_none());
    let other = Allocation { bytes: vec![], pointers: vec![Pointee::Other] };
    assert!(read_mir_alloc_def_path(&other, &str_slice_ty()).is_none());
    let ok = Allocation { bytes: vec![], pointers: vec![mem("é".as_bytes())] };
    assert!(read_mir_alloc_def_path(&ok, &ConstTy::Other).is_none());
    assert_eq!(read_mir_alloc_def_path(&ok, &str_slice_ty()).unwrap(), vec![s("é")]);
    let empty = Allocation { bytes: vec![], pointers: vec![] };
    assert!(read_mir_alloc_def_path(&empty, &ConstTy::Ref(Box::new(str_slice_ty()))).is_none());
}

#[test]
fn resolve_picks_first_entity_with_path() {
    let mut t = table();
    t.entities.push(entity(VEC, DefKind::Other, Canonical::Plain, false));
    assert_eq!(resolve(&t, &path(VEC)), Some(0));
    assert_eq!(resolve(&t, &path(&["x"])), None);
}

fn builtin_table() -> SymbolTable {
    let mut t = table();
    let mut f64_impl = entity(&["core", "f64"], DefKind::Other, Canonical::Plain, false);
    f64_impl.assoc_items = vec![s("abs"), s("sqrt")];
    let mut io = entity(&["std", "io"], DefKind::Mod, Canonical::Plain, false);
    io.module_children = vec![s("stdout")];
    io.assoc_items = vec![s("not_a_child")];
    t.entities.push(f64_impl);
    t.entities.push(io);
    t.builtins = vec![5, 6, 99];
    t
}

#[test]
fn check_path_accepts_resolved_and_builtin_children() {
    let t = builtin_table();
    assert!(check_path(&t, &path(VEC)));
    assert!(check_path(&t, &path(&["core", "f64", "abs"])));
    assert!(check_path(&t, &path(&["std", "io", "stdout"])));
    assert!(!check_path(&t, &path(&["std", "io", "not_a_child"])));
    assert!(!check_path(&t, &path(&["core", "f64", "abs", "more"])));
    assert!(!check_path(&t, &path(&[])));
}

#[test]
fn invalid_paths_constant_is_reported() {
    let t = builtin_table();
    let bogus = PathConst {
        module: s("paths"),
        span: Span { lo: 3, hi: 9 },
        is_str_array: true,
        value: Some(path(&["nonexistent", "bogus", "path"])),
    };
    let f = check_path_const(&t, &bogus).unwrap();
    assert_eq!(f.lint, LintId::InvalidPaths);
    assert_eq!(f.message, "invalid path");
    assert_eq!(f.span, Span { lo: 3, hi: 9 });
    let good = PathConst { value: Some(path(&["core", "f64", "sqrt"])), ..bogus };
    assert!(check_path_const(&t, &good).is_none());
    let elsewhere = PathConst {
        module: s("other"),
        span: Span { lo: 3, hi: 9 },
        is_str_array: true,
        value: Some(path(&["nonexistent", "bogus", "path"])),
    };
    assert!(check_path_const(&t, &elsewhere).is_none());
}
