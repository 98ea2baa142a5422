//! Resolution of self-referential imports: a package may import itself by
//! its published registry name, and such a specifier resolves against the
//! package's own export map without a network round-trip. Everything else is
//! delegated to default import resolution.

use vstd::prelude::*;

use deno_semver::Version;
use deno_semver::VersionReq;

use crate::deps::ReqParts;
use crate::deps::jsr_req_parse;
use crate::deps::parse_jsr_req;
use crate::exports::ExportsMap;
use crate::exports::main_export_key;
use crate::text::assoc_get;
use crate::text::str_eq;

verus! {

/// The package's own identity as the graph sees it: registry name
/// (`@scope/name`), version text, and export map.
pub struct WorkspaceMemberModel {
    pub name: String,
    pub version: String,
    pub exports: ExportsMap,
}

/// What the resolver decides for one specifier.
pub enum ResolveDecision {
    /// A self-referential import naming an existing export: resolve to the
    /// export's value against the package base.
    SelfExport { export_value: String },
    /// A self-referential import naming no export: fail with a missing
    /// export error.
    MissingExport { export_name: String },
    /// Not a self-referential import: delegate to default resolution
    /// relative to the referrer.
    Delegate,
}

/// Whether a version-constraint text admits a version text: `Some(b)` when
/// both parse and the constraint is a range, `None` when either does not
/// parse or the constraint is a tag.
pub uninterp spec fn version_req_match(req: Seq<char>, version: Seq<char>) -> Option<bool>;

/// Relies on `deno_semver::VersionReq::parse_from_specifier`,
/// `deno_semver::Version::parse_standard` and `VersionReq::matches`: whether
/// the constraint admits the version. `matches` accepts no tag constraint,
/// so a tag yields `None`, as does a text that does not parse; the outcome
/// depends on the two texts alone.
#[verifier::external_body]
fn req_matches_version(req: &str, version: &str) -> (r: Option<bool>)
    ensures
        r == version_req_match(req@, version@),
{
    let req = match VersionReq::parse_from_specifier(req) {
        Ok(r) => r,
        Err(_) => return None,
    };
    if req.tag().is_some() {
        return None;
    }
    match Version::parse_standard(version) {
        Ok(v) => Some(req.matches(&v)),
        Err(_) => None,
    }
}

/// Resolves a specifier against the workspace member's own identity.
///
/// A specifier that parses as a registry requirement reference whose name is
/// the member's own and whose constraint admits the member's version is
/// looked up in the export map, under its sub path or under `.`; it
/// resolves to that export's value, or fails as a missing export. Any other
/// specifier — including one whose constraint is a tag or does not admit
/// the version — is delegated to default resolution.
pub fn resolve_self_import(member: &WorkspaceMemberModel, specifier_text: &str) -> (r:
    ResolveDecision)
    ensures
        jsr_req_parse(specifier_text@) is None ==> r is Delegate,
        jsr_req_parse(specifier_text@) matches Some(p) ==> {
            if p.0 == member.name@ && version_req_match(p.1, member.version@) == Some(true) {
                let key = match p.2 {
                    Some(k) => k,
                    None => main_export_key(),
                };
                match assoc_get(member.exports@, key) {
                    Some(v) => r matches ResolveDecision::SelfExport { export_value }
                        && export_value@ == v,
                    None => r matches ResolveDecision::MissingExport { export_name }
                        && export_name@ == key,
                }
            } else {
                r is Delegate
            }
        },
{
    let parts: ReqParts = match parse_jsr_req(specifier_text) {
        Ok(p) => p,
        Err(_) => {
            return ResolveDecision::Delegate;
        },
    };
    if !str_eq(parts.name.as_str(), member.name.as_str()) {
        return ResolveDecision::Delegate;
    }
    let matched = req_matches_version(parts.version_req.as_str(), member.version.as_str());
    let version_ok = match matched {
        Some(true) => true,
        _ => false,
    };
    if !version_ok {
        return ResolveDecision::Delegate;
    }
    proof {
        reveal_strlit(".");
        assert("."@ =~= main_export_key());
    }
    let key: &str = match &parts.sub_path {
        Some(k) => k.as_str(),
        None => ".",
    };
    match member.exports.get(key) {
        Some(v) => ResolveDecision::SelfExport { export_value: v.clone() },
        None => ResolveDecision::MissingExport { export_name: key.to_owned() },
    }
}

} // verus!
