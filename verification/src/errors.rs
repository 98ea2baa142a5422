//! The closed set of diagnostics that a publish-time analysis run can end
//! with. Every error is fatal for the run that produced it: the pipeline
//! either returns a full artifact or one of these values.

use vstd::prelude::*;

verus! {

/// A 1-based line/column pair as displayed to the user. The file-level
/// diagnostics (a banned file extension) use line 0, column 0.
#[derive(Clone, Copy, PartialEq, Eq, Structural, Debug)]
pub struct SrcPos {
    pub line: usize,
    pub column: usize,
}

/// A diagnostic of the analysis pipeline. Each variant carries the specifier
/// or path it concerns as a plain string, and a source position where one is
/// derivable.
#[derive(Debug)]
pub enum PublishError {
    /// A path derived from the export map failed path validation.
    InvalidPath { path: String },
    /// An export map entry references a path absent from the file set.
    ConfigFileExportsInvalid { config_file: String, export_key: String, target: String },
    /// The module graph engine reported an unresolved or invalid graph.
    GraphError { message: String },
    /// Banned CommonJS-family syntax or file extension.
    CommonJs { specifier: String, pos: SrcPos },
    /// Ambient/global type-space pollution.
    GlobalTypeAugmentation { specifier: String, pos: SrcPos },
    /// Deprecated import-assertion syntax.
    BannedImportAssertion { specifier: String, pos: SrcPos },
    /// Banned triple-slash reference directive in a leading comment.
    BannedTripleSlashDirectives { specifier: String, pos: SrcPos },
    /// An npm dependency requirement uses the unconstrained wildcard version.
    NpmMissingConstraint { specifier: String },
    /// A jsr dependency requirement uses the unconstrained wildcard version.
    JsrMissingConstraint { specifier: String },
    /// A malformed npm requirement reference.
    InvalidNpmSpecifier { message: String },
    /// A malformed jsr requirement reference.
    InvalidJsrSpecifier { message: String },
    /// A network-scheme import, or an unrecognized scheme.
    InvalidExternalImport { specifier: String, info: String },
}

} // verus!
