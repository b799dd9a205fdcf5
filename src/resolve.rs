use vstd::prelude::*;
use vstd::string::*;
use crate::text::{strs, strs_eq, strs_prefix, contains_str};

verus! {

/// The kind of a program entity, as far as the checks tell kinds apart.
#[derive(Clone, Copy, Debug, PartialEq, Eq, Structural)]
pub enum DefKind {
    Struct,
    Variant,
    Field,
    Mod,
    Enum,
    Trait,
    Other,
}

/// The short, stable handle an entity has, if any: a diagnostic item name
/// or a lang item name.
#[derive(Clone, Debug)]
pub enum Canonical {
    Diagnostic(String),
    Lang(String),
    Plain,
}

/// One entity of the target program, as the host resolved it.
#[derive(Clone, Debug)]
pub struct Entity {
    /// Its full def path.
    pub path: Vec<String>,
    pub kind: DefKind,
    pub canonical: Canonical,
    /// It has a constructor.
    pub ctor: bool,
    /// Every one of its fields is public.
    pub fields_public: bool,
    /// For a field: the inherent method of the same name on its parent, as
    /// an index into the table.
    pub inherent_method: Option<usize>,
    /// The names of its module children (for a module, enum or trait).
    pub module_children: Vec<String>,
    /// The names of its associated items (for anything else).
    pub assoc_items: Vec<String>,
}

/// A snapshot of the entities a run needs, built once by the host.
/// `builtins` lists, by index, the lang items followed by the inherent impls
/// of the primitive types `f32`, `f64`, slices and `str`.
#[derive(Clone, Debug)]
pub struct SymbolTable {
    pub entities: Vec<Entity>,
    pub builtins: Vec<usize>,
}

/// Entity `i` has the def path `segs`.
pub open spec fn resolves_at(t: SymbolTable, segs: Seq<Seq<char>>, i: int) -> bool {
    0 <= i < t.entities@.len() && strs(t.entities@[i].path@) == segs
}

/// `segs` names some entity.
pub open spec fn resolvable(t: SymbolTable, segs: Seq<Seq<char>>) -> bool {
    exists|i: int| resolves_at(t, segs, i)
}

/// Entity `i` is the first that `segs` names.
pub open spec fn first_match(t: SymbolTable, segs: Seq<Seq<char>>, i: int) -> bool {
    resolves_at(t, segs, i) && forall|j: int| 0 <= j < i ==> !resolves_at(t, segs, j)
}

/// The entity `segs` resolves to: the first that has that def path.
pub open spec fn resolved(t: SymbolTable, segs: Seq<Seq<char>>) -> Option<int> {
    if resolvable(t, segs) {
        Some(choose|i: int| first_match(t, segs, i))
    } else {
        None
    }
}

proof fn lemma_resolved(t: SymbolTable, segs: Seq<Seq<char>>, i: int)
    requires
        first_match(t, segs, i),
    ensures
        resolved(t, segs) == Some(i),
{
    let k = choose|k: int| first_match(t, segs, k);
    assert(first_match(t, segs, k));
    if k < i {
        assert(!resolves_at(t, segs, k));
    } else if i < k {
        assert(!resolves_at(t, segs, i));
    }
}

/// Resolves a def path to the first entity that has it.
pub fn resolve(t: &SymbolTable, segs: &Vec<String>) -> (r: Option<usize>)
    ensures
        match r {
            Some(i) => resolved(*t, strs(segs@)) == Some(i as int) && i < t.entities@.len(),
            None => resolved(*t, strs(segs@)) is None,
        },
{
    let mut i: usize = 0;
    while i < t.entities.len()
        invariant
            i <= t.entities@.len(),
            forall|j: int| 0 <= j < i ==> !resolves_at(*t, strs(segs@), j),
        decreases t.entities.len() - i,
    {
        if strs_eq(&t.entities[i].path, segs) {
            proof {
                lemma_resolved(*t, strs(segs@), i as int);
            }
            return Some(i);
        }
        i = i + 1;
    }
    None
}

/// The entity has a child of this name: among its module children for a
/// module, enum or trait, else among its associated items.
pub open spec fn has_child(e: Entity, name: Seq<char>) -> bool {
    if e.kind == DefKind::Mod || e.kind == DefKind::Enum || e.kind == DefKind::Trait {
        strs(e.module_children@).contains(name)
    } else {
        strs(e.assoc_items@).contains(name)
    }
}

/// `path` is the def path of `e` followed by the name of one of its children.
pub open spec fn child_path(e: Entity, path: Seq<Seq<char>>) -> bool {
    let p = strs(e.path@);
    &&& path.len() == p.len() + 1
    &&& path.subrange(0, p.len() as int) == p
    &&& has_child(e, path.last())
}

/// `path` is the child path of the built-in entity listed at `k`.
pub open spec fn builtin_child_path(t: SymbolTable, path: Seq<Seq<char>>, k: int) -> bool {
    0 <= k < t.builtins@.len() && t.builtins@[k] < t.entities@.len() && child_path(
        t.entities@[t.builtins@[k] as int],
        path,
    )
}

/// A path is valid when it resolves, or when it names a child of a
/// built-in entity (inherent methods of primitive types are not found by
/// ordinary resolution).
pub open spec fn valid_path(t: SymbolTable, path: Seq<Seq<char>>) -> bool {
    resolvable(t, path) || exists|k: int| builtin_child_path(t, path, k)
}

fn has_child_exec(e: &Entity, name: &str) -> (r: bool)
    ensures
        r == has_child(*e, name@),
{
    if e.kind == DefKind::Mod || e.kind == DefKind::Enum || e.kind == DefKind::Trait {
        contains_str(&e.module_children, name)
    } else {
        contains_str(&e.assoc_items, name)
    }
}

/// Whether `path` is a valid path of the table: it resolves, or it is a
/// built-in entity's path followed by one of that entity's children.
pub fn check_path(t: &SymbolTable, path: &Vec<String>) -> (r: bool)
    ensures
        r == valid_path(*t, strs(path@)),
{
    if resolve(t, path).is_some() {
        return true;
    }
    let mut k: usize = 0;
    while k < t.builtins.len()
        invariant
            k <= t.builtins@.len(),
            !resolvable(*t, strs(path@)),
            forall|j: int| 0 <= j < k ==> !builtin_child_path(*t, strs(path@), j),
        decreases t.builtins.len() - k,
    {
        let id = t.builtins[k];
        if id < t.entities.len() {
            let e = &t.entities[id];
            if path.len() > 0 && e.path.len() == path.len() - 1 && strs_prefix(&e.path, path) {
                let last = path.len() - 1;
                if has_child_exec(e, path[last].as_str()) {
                    proof {
                        assert(strs(path@).last() == path@[last as int]@);
                        assert(builtin_child_path(*t, strs(path@), k as int));
                    }
                    return true;
                }
                proof {
                    assert(strs(path@).last() == path@[last as int]@);
                }
            }
        }
        k = k + 1;
    }
    false
}

} // verus!
