use vstd::prelude::*;
use vstd::string::*;

verus! {

/// A source extent, as byte offsets.
#[derive(Clone, Copy, Debug, PartialEq, Eq, Structural)]
pub struct Span {
    pub lo: u32,
    pub hi: u32,
}

impl Span {
    /// The extent from the start of `self` to the end of `other`.
    pub fn to(self, other: Span) -> (r: Span)
        ensures
            r == (Span { lo: self.lo, hi: other.hi }),
    {
        Span { lo: self.lo, hi: other.hi }
    }
}

/// The checks that report findings.
#[derive(Clone, Copy, Debug, PartialEq, Eq, Structural)]
pub enum LintId {
    ClippyLintsInternal,
    LintWithoutLintPass,
    CompilerLintFunctions,
    OuterExpnExpnData,
    DefaultLint,
    CollapsibleSpanLintCalls,
    UnnecessaryDefPath,
    InvalidPaths,
    InterningDefinedSymbol,
    UnnecessarySymbolStr,
    IfChainStyle,
    InvalidClippyVersionAttribute,
    MissingClippyVersionAttribute,
    MissingMsrvAttrImpl,
    DefaultDeprecationReason,
}

/// One reported finding: the check, where, its message, and optionally a
/// help text (itself optionally at a span of its own) and a rewrite of the
/// text at `span` with the label shown beside it. `applicable` tells whether
/// the rewrite can be applied mechanically; it is false where there is no
/// rewrite.
#[derive(Clone, Debug)]
pub struct Finding {
    pub lint: LintId,
    pub span: Span,
    pub message: String,
    pub help: Option<String>,
    pub help_span: Option<Span>,
    pub label: Option<String>,
    pub suggestion: Option<String>,
    pub applicable: bool,
}

/// The view of an optional string.
pub open spec fn opt_view(o: Option<String>) -> Option<Seq<char>> {
    match o {
        Some(s) => Some(s@),
        None => None,
    }
}

/// A finding over plain values.
pub struct Report {
    pub lint: LintId,
    pub span: Span,
    pub message: Seq<char>,
    pub help: Option<Seq<char>>,
    pub help_span: Option<Span>,
    pub label: Option<Seq<char>>,
    pub suggestion: Option<Seq<char>>,
    pub applicable: bool,
}

impl View for Finding {
    type V = Report;

    open spec fn view(&self) -> Report {
        Report {
            lint: self.lint,
            span: self.span,
            message: self.message@,
            help: opt_view(self.help),
            help_span: self.help_span,
            label: opt_view(self.label),
            suggestion: opt_view(self.suggestion),
            applicable: self.applicable,
        }
    }
}

/// The view of an optional finding.
pub open spec fn opt_report(o: Option<Finding>) -> Option<Report> {
    match o {
        Some(f) => Some(f@),
        None => None,
    }
}

/// The optional report as a sequence of zero or one.
pub open spec fn opt_seq(o: Option<Report>) -> Seq<Report> {
    match o {
        Some(r) => seq![r],
        None => seq![],
    }
}

/// The views of a list of findings.
pub open spec fn reports(v: Seq<Finding>) -> Seq<Report> {
    v.map_values(|f: Finding| f@)
}

/// Builds a finding from its parts.
pub fn finding(
    lint: LintId,
    span: Span,
    message: &str,
    help: Option<String>,
    suggestion: Option<String>,
    applicable: bool,
) -> (r: Finding)
    ensures
        r@ == (Report {
            lint,
            span,
            message: message@,
            help: opt_view(help),
            help_span: None,
            label: None,
            suggestion: opt_view(suggestion),
            applicable,
        }),
{
    Finding {
        lint,
        span,
        message: String::from_str(message),
        help,
        help_span: None,
        label: None,
        suggestion,
        applicable,
    }
}

/// Builds a finding that offers a rewrite, shown under `label`.
pub fn suggest(
    lint: LintId,
    span: Span,
    message: &str,
    help: Option<String>,
    label: &str,
    suggestion: String,
    applicable: bool,
) -> (r: Finding)
    ensures
        r@ == (Report {
            lint,
            span,
            message: message@,
            help: opt_view(help),
            help_span: None,
            label: Some(label@),
            suggestion: Some(suggestion@),
            applicable,
        }),
{
    Finding {
        lint,
        span,
        message: String::from_str(message),
        help,
        help_span: None,
        label: Some(String::from_str(label)),
        suggestion: Some(suggestion),
        applicable,
    }
}

} // verus!
