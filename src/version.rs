use vstd::prelude::*;
use vstd::string::*;
use crate::text::{str_eq, own, strs};
use crate::diag::{Span, LintId, Finding, Report, finding, opt_report};

verus! {

/// Whether `RustcVersion::parse` accepts a string.
pub uninterp spec fn rustc_version_parses(s: Seq<char>) -> bool;

/// Relies on `rustc_semver::RustcVersion::parse`: whether it accepts the
/// string. Its documentation names the empty string as rejected.
#[verifier::external_body]
fn parses_as_rustc_version(s: &str) -> (r: bool)
    ensures
        r == rustc_version_parses(s@),
        s@.len() == 0 ==> !r,
{
    rustc_semver::RustcVersion::parse(s).is_ok()
}

/// An attribute on an item: whether it is a normal attribute (not a doc
/// comment), its path segments, and its `= "..."` string value if any.
#[derive(Clone, Debug)]
pub struct Attribute {
    pub is_normal: bool,
    pub path: Vec<String>,
    pub value: Option<String>,
}

/// The attribute is `#[clippy::version = "..."]`.
pub open spec fn is_version_attr(a: Attribute) -> bool {
    &&& a.is_normal
    &&& a.path@.len() == 2
    &&& a.path@[0]@ == "clippy"@
    &&& a.path@[1]@ == "version"@
    &&& a.value is Some
}

/// The value of the first `clippy::version` attribute, if any.
pub open spec fn version_value(attrs: Seq<Attribute>) -> Option<Seq<char>>
    decreases attrs.len(),
{
    if attrs.len() == 0 {
        None
    } else if is_version_attr(attrs[0]) {
        Some(attrs[0].value->0@)
    } else {
        version_value(attrs.drop_first())
    }
}

/// The value of the first `clippy::version` attribute among `attrs`.
pub fn extract_clippy_version_value(attrs: &Vec<Attribute>) -> (r: Option<String>)
    ensures
        match r {
            Some(v) => version_value(attrs@) == Some(v@),
            None => version_value(attrs@) is None,
        },
{
    let mut i: usize = 0;
    proof {
        assert(attrs@.subrange(0, attrs@.len() as int) =~= attrs@);
    }
    while i < attrs.len()
        invariant
            i <= attrs.len(),
            version_value(attrs@) == version_value(attrs@.subrange(i as int, attrs@.len() as int)),
        decreases attrs.len() - i,
    {
        let a = &attrs[i];
        proof {
            let rest = attrs@.subrange(i as int, attrs@.len() as int);
            assert(rest[0] == attrs@[i as int]);
            assert(rest.drop_first() =~= attrs@.subrange(i + 1, attrs@.len() as int));
        }
        if a.is_normal && a.path.len() == 2 && str_eq(a.path[0].as_str(), "clippy") && str_eq(
            a.path[1].as_str(),
            "version",
        ) {
            match &a.value {
                Some(v) => return Some(own(v.as_str())),
                None => {},
            }
        }
        i = i + 1;
    }
    None
}

/// How a lint's version attribute is judged.
#[derive(Clone, Copy, Debug, PartialEq, Eq, Structural)]
pub enum VersionVerdict {
    Valid,
    Invalid,
    Missing,
}

/// The verdict on a version value, given whether it parses as a compiler
/// version: a missing value is missing; `pre 1.29.0` is accepted as it is;
/// any other value must parse.
pub open spec fn version_verdict(value: Option<Seq<char>>, parses: bool) -> VersionVerdict {
    match value {
        None => VersionVerdict::Missing,
        Some(v) => if v == "pre 1.29.0"@ || parses {
            VersionVerdict::Valid
        } else {
            VersionVerdict::Invalid
        },
    }
}

/// Judges a version value, given whether it parses as a compiler version.
pub fn judge_version(value: Option<&str>, parses: bool) -> (r: VersionVerdict)
    ensures
        r == version_verdict(
            match value {
                Some(v) => Some(v@),
                None => None,
            },
            parses,
        ),
{
    match value {
        None => VersionVerdict::Missing,
        Some(v) => if str_eq(v, "pre 1.29.0") || parses {
            VersionVerdict::Valid
        } else {
            VersionVerdict::Invalid
        },
    }
}

/// The verdict on an item's attributes.
pub open spec fn attrs_verdict(attrs: Seq<Attribute>) -> VersionVerdict {
    let v = version_value(attrs);
    version_verdict(
        v,
        match v {
            Some(s) => rustc_version_parses(s),
            None => false,
        },
    )
}

/// The finding a verdict gives at `span`.
pub open spec fn verdict_report(v: VersionVerdict, span: Span) -> Option<Report> {
    match v {
        VersionVerdict::Valid => None,
        VersionVerdict::Invalid => Some(
            Report {
                lint: LintId::InvalidClippyVersionAttribute,
                span,
                message: "this item has an invalid `clippy::version` attribute"@,
                help: Some("please use a valid semantic version, see `doc/adding_lints.md`"@),
                help_span: None,
                label: None,
                suggestion: None,
                applicable: false,
            },
        ),
        VersionVerdict::Missing => Some(
            Report {
                lint: LintId::MissingClippyVersionAttribute,
                span,
                message: "this lint is missing the `clippy::version` attribute or version value"@,
                help: Some("please use a `clippy::version` attribute, see `doc/adding_lints.md`"@),
                help_span: None,
                label: None,
                suggestion: None,
                applicable: false,
            },
        ),
    }
}

/// Reports a lint declaration at `span` whose version attribute is missing
/// or does not hold a valid version.
pub fn check_invalid_clippy_version_attribute(attrs: &Vec<Attribute>, span: Span) -> (r: Option<
    Finding,
>)
    ensures
        opt_report(r) == verdict_report(attrs_verdict(attrs@), span),
{
    let value = extract_clippy_version_value(attrs);
    let verdict = match &value {
        None => judge_version(None, false),
        Some(v) => {
            let parses = if str_eq(v.as_str(), "pre 1.29.0") {
                true
            } else {
                parses_as_rustc_version(v.as_str())
            };
            judge_version(Some(v.as_str()), parses)
        },
    };
    match verdict {
        VersionVerdict::Valid => None,
        VersionVerdict::Invalid => Some(
            finding(
                LintId::InvalidClippyVersionAttribute,
                span,
                "this item has an invalid `clippy::version` attribute",
                Some(own("please use a valid semantic version, see `doc/adding_lints.md`")),
                None,
                false,
            ),
        ),
        VersionVerdict::Missing => Some(
            finding(
                LintId::MissingClippyVersionAttribute,
                span,
                "this lint is missing the `clippy::version` attribute or version value",
                Some(own("please use a `clippy::version` attribute, see `doc/adding_lints.md`")),
                None,
                false,
            ),
        ),
    }
}

} // verus!
