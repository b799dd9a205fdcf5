//! Consistency and idiom checks over a lint-declaration codebase.
//!
//! The host compiler hands each check plain-value models of the syntax it
//! reads (spans, expression shapes, resolved def paths, evaluated constants);
//! the checks decide what to report and synthesise the rewrites.
//!
//! - `resolve`: the snapshot of program entities and the path resolver.
//! - `def_path`: def paths that have a canonical handle, and their rewrites.
//! - `paths`: ordering and validity of the `paths` module's constants.
//! - `registry`: declared lints against lints registered with a lint pass.
//! - `version`: the version attribute of lint declarations.
//! - `symbols`: pre-interned symbols and symbol-to-string comparisons.
//! - `collapsible`: builder-closure diagnostic calls that collapse.
//! - `if_chain_style`: `if_chain!` idioms and mergeable nested chains.
//! - `passes`: compiler lint methods, expansion data, minimum-version impls.

pub mod text;
pub mod diag;
pub mod resolve;
pub mod def_path;
pub mod version;
pub mod registry;
pub mod paths;
pub mod symbols;
pub mod collapsible;
pub mod passes;
pub mod if_chain_style;
