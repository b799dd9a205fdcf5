use vstd::prelude::*;
use vstd::string::*;
use crate::text::own;
use crate::diag::{Span, LintId, Finding, Report, suggest, opt_report, opt_view};
use crate::def_path::snip;

verus! {

/// A child of one of the two modules of pre-interned symbol constants:
/// whether it is a constant of the exact symbol type, its value as a
/// symbol index when it evaluates to one, and its def path as text.
#[derive(Clone, Debug)]
pub struct SymbolConst {
    pub is_symbol_const: bool,
    pub value: Option<u32>,
    pub path: String,
}

/// The symbol index of some entries: for each value, the path of the last
/// entry that holds it.
pub open spec fn lookup(entries: Seq<(u32, Seq<char>)>, k: u32) -> Option<Seq<char>>
    decreases entries.len(),
{
    if entries.len() == 0 {
        None
    } else if entries.last().0 == k {
        Some(entries.last().1)
    } else {
        lookup(entries.drop_last(), k)
    }
}

/// The map the entries make, later entries replacing earlier ones.
pub open spec fn entries_map(entries: Seq<(u32, Seq<char>)>) -> Map<u32, Seq<char>> {
    Map::new(|k: u32| lookup(entries, k) is Some, |k: u32| lookup(entries, k)->0)
}

/// The index entries the candidates give: the symbol constants that
/// evaluate, in order.
pub open spec fn candidate_entries(c: Seq<SymbolConst>) -> Seq<(u32, Seq<char>)>
    decreases c.len(),
{
    if c.len() == 0 {
        seq![]
    } else {
        let rest = candidate_entries(c.drop_last());
        let x = c.last();
        if x.is_symbol_const && x.value is Some {
            rest.push((x.value->0, x.path@))
        } else {
            rest
        }
    }
}

/// A call of `Symbol::intern`: its extent, the extent of the `sym!`
/// invocation it was expanded from (if any), and the symbol value of its
/// argument when that is a constant string.
#[derive(Clone, Debug)]
pub struct InternCall {
    pub span: Span,
    pub sym_macro: Option<Span>,
    pub arg_symbol: Option<u32>,
}

/// The finding on interning a string that a constant already pre-declares.
pub open spec fn intern_report(m: Map<u32, Seq<char>>, c: InternCall) -> Option<Report> {
    match c.arg_symbol {
        Some(v) => if m.contains_key(v) {
            Some(
                Report {
                    lint: LintId::InterningDefinedSymbol,
                    span: match c.sym_macro {
                        Some(s) => s,
                        None => c.span,
                    },
                    message: "interning a defined symbol"@,
                    help: None,
                    help_span: None,
                    label: Some("try"@),
                    suggestion: Some(m[v]),
                    applicable: true,
                },
            )
        } else {
            None
        },
        None => None,
    }
}

/// The method of a method call without arguments, as resolved by the host.
#[derive(Clone, Copy, Debug, PartialEq, Eq, Structural)]
pub enum StrMethod {
    SymbolAsStr,
    SymbolToIdentString,
    IdentAsStr,
    ToString,
    Other,
}

/// The type of a method call's receiver.
#[derive(Clone, Copy, Debug, PartialEq, Eq, Structural)]
pub enum RecvTy {
    Symbol,
    Ident,
    Other,
}

/// An operand of `==` or `!=`, with a leading `&*` already removed.
#[derive(Clone, Debug)]
pub enum Operand {
    /// A method call without arguments: the method, the receiver's type, and
    /// the receiver's source text at its call site, if available.
    MethodCall { method: StrMethod, recv: RecvTy, recv_snippet: Option<String> },
    /// A constant string, with its symbol value.
    ConstStr(u32),
    Other,
}

/// A comparison operator.
#[derive(Clone, Copy, Debug, PartialEq, Eq, Structural)]
pub enum CmpOp {
    Eq,
    Ne,
    Other,
}

/// A binary expression: its extent, operator, and operands with their
/// extents.
#[derive(Clone, Debug)]
pub struct Comparison {
    pub span: Span,
    pub op: CmpOp,
    pub left: Operand,
    pub left_span: Span,
    pub right: Operand,
    pub right_span: Span,
}

/// The method turns a receiver of this type into a string.
pub open spec fn converts(recv: RecvTy, m: StrMethod) -> bool {
    match recv {
        RecvTy::Symbol => m == StrMethod::SymbolAsStr || m == StrMethod::SymbolToIdentString || m
            == StrMethod::ToString,
        RecvTy::Ident => m == StrMethod::IdentAsStr || m == StrMethod::ToString,
        RecvTy::Other => false,
    }
}

/// The method allocates an owned string.
pub open spec fn allocates(m: StrMethod) -> bool {
    m == StrMethod::SymbolToIdentString || m == StrMethod::ToString
}

/// An operand that is a symbol as a string: the text of an expression that
/// gives the symbol itself, and whether the operand allocates. `None` for
/// any other operand.
pub open spec fn symbol_str(m: Map<u32, Seq<char>>, o: Operand) -> Option<(Seq<char>, bool)> {
    match o {
        Operand::MethodCall { method, recv, recv_snippet } => if converts(recv, method) {
            Some(
                (
                    if recv == RecvTy::Ident {
                        snip(recv_snippet) + ".name"@
                    } else {
                        snip(recv_snippet)
                    },
                    allocates(method),
                ),
            )
        } else {
            None
        },
        Operand::ConstStr(v) => if m.contains_key(v) {
            Some((m[v], false))
        } else {
            None
        },
        Operand::Other => None,
    }
}

/// The operator's text.
pub open spec fn op_text(op: CmpOp) -> Seq<char> {
    if op == CmpOp::Eq {
        "=="@
    } else {
        "!="@
    }
}

/// The finding on a comparison of symbols as strings: where both operands
/// are symbols as strings, compare the symbols; where one is and it
/// allocates, compare against a borrowed string instead.
pub open spec fn comparison_report(m: Map<u32, Seq<char>>, c: Comparison) -> Option<Report> {
    if c.op == CmpOp::Other {
        None
    } else {
        match (symbol_str(m, c.left), symbol_str(m, c.right)) {
            (Some((l, _)), Some((r, _))) => Some(
                Report {
                    lint: LintId::UnnecessarySymbolStr,
                    span: c.span,
                    message: "unnecessary `Symbol` to string conversion"@,
                    help: None,
                    help_span: None,
                    label: Some("try"@),
                    suggestion: Some(l + " "@ + op_text(c.op) + " "@ + r),
                    applicable: true,
                },
            ),
            (Some((l, owned)), None) => if owned {
                Some(
                    Report {
                        lint: LintId::UnnecessarySymbolStr,
                        span: c.left_span,
                        message: "unnecessary string allocation"@,
                        help: None,
                        help_span: None,
                        label: Some("try"@),
                        suggestion: Some(l + ".as_str()"@),
                        applicable: true,
                    },
                )
            } else {
                None
            },
            (None, Some((r, owned))) => if owned {
                Some(
                    Report {
                        lint: LintId::UnnecessarySymbolStr,
                        span: c.right_span,
                        message: "unnecessary string allocation"@,
                        help: None,
                        help_span: None,
                        label: Some("try"@),
                        suggestion: Some(r + ".as_str()"@),
                        applicable: true,
                    },
                )
            } else {
                None
            },
            (None, None) => None,
        }
    }
}

/// The index of a pre-interned symbol constants, from symbol value to the
/// constant's path, with the check on interning and on symbol-to-string
/// comparisons that uses it.
#[derive(Clone, Debug)]
pub struct InterningDefinedSymbol {
    symbol_map: Vec<(u32, String)>,
}

impl View for InterningDefinedSymbol {
    type V = Map<u32, Seq<char>>;

    closed spec fn view(&self) -> Map<u32, Seq<char>> {
        entries_map(self.symbol_map@.map_values(|e: (u32, String)| (e.0, e.1@)))
    }
}

proof fn lemma_nonempty_map(entries: Seq<(u32, Seq<char>)>)
    requires
        entries.len() > 0,
    ensures
        entries_map(entries) != Map::<u32, Seq<char>>::empty(),
{
    assert(entries_map(entries).contains_key(entries.last().0));
}

impl InterningDefinedSymbol {
    /// An empty index.
    pub fn new() -> (r: Self)
        ensures
            r@ == Map::<u32, Seq<char>>::empty(),
    {
        let r = InterningDefinedSymbol { symbol_map: Vec::new() };
        proof {
            assert(r@ =~= Map::<u32, Seq<char>>::empty());
        }
        r
    }

    /// Builds the index from the children of the symbol-constant modules,
    /// once: an index that already holds entries is left as it is.
    pub fn check_crate(&mut self, candidates: &Vec<SymbolConst>)
        ensures
            final(self)@ == if old(self)@ == Map::<u32, Seq<char>>::empty() {
                entries_map(candidate_entries(candidates@))
            } else {
                old(self)@
            },
    {
        if self.symbol_map.len() > 0 {
            proof {
                lemma_nonempty_map(self.symbol_map@.map_values(|e: (u32, String)| (e.0, e.1@)));
            }
            return;
        }
        proof {
            assert(self.symbol_map@.map_values(|e: (u32, String)| (e.0, e.1@)) =~= candidate_entries(
                candidates@.subrange(0, 0),
            ));
            assert(old(self)@ =~= Map::<u32, Seq<char>>::empty());
        }
        let mut i: usize = 0;
        while i < candidates.len()
            invariant
                i <= candidates@.len(),
                self.symbol_map@.map_values(|e: (u32, String)| (e.0, e.1@)) == candidate_entries(
                    candidates@.subrange(0, i as int),
                ),
            decreases candidates.len() - i,
        {
            let c = &candidates[i];
            proof {
                assert(candidates@.subrange(0, i + 1).drop_last() =~= candidates@.subrange(0, i as int));
                assert(candidates@.subrange(0, i + 1).last() == *c);
            }
            if c.is_symbol_const {
                match c.value {
                    Some(v) => {
                        self.symbol_map.push((v, own(c.path.as_str())));
                        proof {
                            assert(self.symbol_map@.map_values(|e: (u32, String)| (e.0, e.1@))
                                =~= candidate_entries(candidates@.subrange(0, i + 1)));
                        }
                    },
                    None => {},
                }
            }
            i = i + 1;
        }
        proof {
            assert(candidates@.subrange(0, candidates@.len() as int) =~= candidates@);
        }
    }

    /// The path of the constant that pre-declares the symbol `value`.
    pub fn constant_for(&self, value: u32) -> (r: Option<String>)
        ensures
            opt_view(r) == if self@.contains_key(value) {
                Some(self@[value])
            } else {
                None
            },
    {
        let ghost e = self.symbol_map@.map_values(|e: (u32, String)| (e.0, e.1@));
        let mut i: usize = self.symbol_map.len();
        proof {
            assert(e.subrange(0, i as int) =~= e);
        }
        while i > 0
            invariant
                i <= self.symbol_map@.len(),
                e == self.symbol_map@.map_values(|e: (u32, String)| (e.0, e.1@)),
                lookup(e, value) == lookup(e.subrange(0, i as int), value),
            decreases i,
        {
            proof {
                assert(e.subrange(0, i as int).drop_last() =~= e.subrange(0, i - 1));
            }
            if self.symbol_map[i - 1].0 == value {
                return Some(own(self.symbol_map[i - 1].1.as_str()));
            }
            i = i - 1;
        }
        None
    }
    /// Reports interning a constant string that a symbol constant already
    /// pre-declares, with a rewrite to that constant's path.
    pub fn check_intern_call(&self, c: &InternCall) -> (r: Option<Finding>)
        ensures
            opt_report(r) == intern_report(self@, *c),
    {
        let v = match c.arg_symbol {
            Some(v) => v,
            None => return None,
        };
        let path = match self.constant_for(v) {
            Some(p) => p,
            None => return None,
        };
        let span = match c.sym_macro {
            Some(s) => s,
            None => c.span,
        };
        Some(suggest(LintId::InterningDefinedSymbol, span, "interning a defined symbol", None, "try", path, true))
    }

    /// Classifies an operand as a symbol as a string: the text of an
    /// expression giving the symbol, and whether the operand allocates.
    pub fn symbol_str_expr(&self, o: &Operand) -> (r: Option<(String, bool)>)
        ensures
            match r {
                Some((t, owned)) => symbol_str(self@, *o) == Some((t@, owned)),
                None => symbol_str(self@, *o) is None,
            },
    {
        match o {
            Operand::MethodCall { method, recv, recv_snippet } => {
                let ok = match recv {
                    RecvTy::Symbol => *method == StrMethod::SymbolAsStr || *method
                        == StrMethod::SymbolToIdentString || *method == StrMethod::ToString,
                    RecvTy::Ident => *method == StrMethod::IdentAsStr || *method == StrMethod::ToString,
                    RecvTy::Other => false,
                };
                if !ok {
                    return None;
                }
                let mut t = match recv_snippet {
                    Some(x) => own(x.as_str()),
                    None => own(".."),
                };
                if *recv == RecvTy::Ident {
                    t.append(".name");
                }
                let owned = *method == StrMethod::SymbolToIdentString || *method == StrMethod::ToString;
                Some((t, owned))
            },
            Operand::ConstStr(v) => match self.constant_for(*v) {
                Some(p) => Some((p, false)),
                None => None,
            },
            Operand::Other => None,
        }
    }

    /// Reports a comparison that converts symbols to strings needlessly.
    pub fn check_comparison(&self, c: &Comparison) -> (r: Option<Finding>)
        ensures
            opt_report(r) == comparison_report(self@, *c),
    {
        if c.op == CmpOp::Other {
            return None;
        }
        let left = self.symbol_str_expr(&c.left);
        let right = self.symbol_str_expr(&c.right);
        match (left, right) {
            (Some((l, _)), Some((r, _))) => {
                let mut s = l;
                s.append(" ");
                if c.op == CmpOp::Eq {
                    s.append("==");
                } else {
                    s.append("!=");
                }
                s.append(" ");
                s.append(r.as_str());
                Some(
                    suggest(
                        LintId::UnnecessarySymbolStr,
                        c.span,
                        "unnecessary `Symbol` to string conversion",
                        None,
                        "try",
                        s,
                        true,
                    ),
                )
            },
            (Some((l, owned)), None) => if owned {
                let mut s = l;
                s.append(".as_str()");
                Some(suggest(LintId::UnnecessarySymbolStr, c.left_span, "unnecessary string allocation", None, "try", s, true))
            } else {
                None
            },
            (None, Some((r, owned))) => if owned {
                let mut s = r;
                s.append(".as_str()");
                Some(suggest(LintId::UnnecessarySymbolStr, c.right_span, "unnecessary string allocation", None, "try", s, true))
            } else {
                None
            },
            (None, None) => None,
        }
    }
}

/// The operand is a non-allocating `as_str` on a symbol whose text is
/// `text`: the allocation rewrite of an operand whose symbol text that is
/// (for an identifier, its `name`).
pub open spec fn borrows_symbol(o: Operand, text: Seq<char>) -> bool {
    match o {
        Operand::MethodCall { method, recv, recv_snippet } => method == StrMethod::SymbolAsStr && recv
            == RecvTy::Symbol && opt_view(recv_snippet) == Some(text),
        _ => false,
    }
}

/// `c2` is the comparison `c` once its rewrite is applied: operands that
/// both were symbols as strings become the symbols themselves (no string
/// at all); a lone allocating operand becomes a borrowed view of its
/// symbol; anything else stays.
pub open spec fn is_rewrite_of(m: Map<u32, Seq<char>>, c: Comparison, c2: Comparison) -> bool {
    &&& c2.op == c.op
    &&& match (symbol_str(m, c.left), symbol_str(m, c.right)) {
        (Some(_), Some(_)) => c2.left is Other && c2.right is Other,
        (Some((l, true)), None) => borrows_symbol(c2.left, l) && c2.right == c.right,
        (None, Some((r, true))) => c2.left == c.left && borrows_symbol(c2.right, r),
        _ => c2 == c,
    }
}

/// Applying the rewrite of a comparison finding and checking again finds
/// nothing more.
pub proof fn lemma_comparison_rewrite_settles(m: Map<u32, Seq<char>>, c: Comparison, c2: Comparison)
    requires
        comparison_report(m, c) is Some,
        is_rewrite_of(m, c, c2),
    ensures
        comparison_report(m, c2) is None,
{
}

/// The rewrite of an interning finding is the path of the constant that
/// pre-declares the symbol, taken from the index: a path, not a call of
/// `Symbol::intern`, so checking the rewritten code finds nothing more.
pub proof fn lemma_intern_rewrite_is_constant_path(m: Map<u32, Seq<char>>, c: InternCall)
    ensures
        intern_report(m, c) matches Some(r) ==> c.arg_symbol matches Some(v) && m.contains_key(v)
            && r.suggestion == Some(m[v]),
{
}

} // verus!
