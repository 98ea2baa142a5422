//! Dependency collection over graph specifiers, with the real requirement
//! parser linked.

use registry_analysis::deps::DependencyKind;
use registry_analysis::deps::DependencyRecord;
use registry_analysis::deps::collect_dependencies;
use registry_analysis::errors::PublishError;

fn specs(xs: &[&str]) -> Vec<String> {
    xs.iter().map(|s| (*s).to_string()).collect()
}

fn sorted_keys(deps: &[DependencyRecord]) -> Vec<(bool, String, String, Option<String>)> {
    let mut keys: Vec<(bool, String, String, Option<String>)> = deps
        .iter()
        .map(|d| {
            (
                matches!(d.kind, DependencyKind::Jsr),
                d.name.clone(),
                d.version_req.clone(),
                d.sub_path.clone(),
            )
        })
        .collect();
    keys.sort();
    keys
}

#[test]
fn collects_registry_dependencies() {
    let deps = collect_dependencies(&specs(&[
        "file:///mod.ts",
        "npm:chalk@^5.0.0",
        "jsr:@std/path@1",
        "node:fs",
        "data:text/typescript,export%20{}",
        "bun:sqlite",
        "virtual:custom",
        "cloudflare:workers",
    ]))
    .unwrap();
    assert_eq!(deps.len(), 2);
    assert!(matches!(deps[0].kind, DependencyKind::Npm));
    assert_eq!(deps[0].name, "chalk");
    assert_eq!(deps[0].version_req, "^5.0.0");
    assert_eq!(deps[0].sub_path, None);
    assert!(matches!(deps[1].kind, DependencyKind::Jsr));
    assert_eq!(deps[1].name, "@std/path");
    assert_eq!(deps[1].version_req, "1");
}

#[test]
fn keeps_sub_paths_and_collapses_duplicates() {
    let deps = collect_dependencies(&specs(&[
        "npm:chalk@5",
        "npm:chalk@5",
        "jsr:@std/path@1/join",
        "jsr:@std/path@1/join",
        "jsr:@std/path@1",
    ]))
    .unwrap();
    assert_eq!(deps.len(), 3);
    assert_eq!(deps[1].sub_path, Some("join".to_string()));
}

#[test]
fn wildcard_constraints_are_rejected() {
    // A requirement without a constraint is the unconstrained wildcard.
    let err = collect_dependencies(&specs(&["npm:chalk"])).unwrap_err();
    match err {
        PublishError::NpmMissingConstraint { specifier } => {
            assert_eq!(specifier, "npm:chalk")
        }
        other => panic!("{other:?}"),
    }

    let err = collect_dependencies(&specs(&["npm:chalk@*"])).unwrap_err();
    assert!(matches!(err, PublishError::NpmMissingConstraint { .. }), "{err:?}");

    let err = collect_dependencies(&specs(&["jsr:@std/path"])).unwrap_err();
    assert!(matches!(err, PublishError::JsrMissingConstraint { .. }), "{err:?}");
}

#[test]
fn malformed_references_are_rejected() {
    let err = collect_dependencies(&specs(&["npm:"])).unwrap_err();
    assert!(matches!(err, PublishError::InvalidNpmSpecifier { .. }), "{err:?}");

    let err = collect_dependencies(&specs(&["jsr:"])).unwrap_err();
    assert!(matches!(err, PublishError::InvalidJsrSpecifier { .. }), "{err:?}");
}

#[test]
fn network_and_unknown_schemes_are_fatal() {
    let err = collect_dependencies(&specs(&["https://example.com/mod.ts"])).unwrap_err();
    match err {
        PublishError::InvalidExternalImport { specifier, info } => {
            assert_eq!(specifier, "https://example.com/mod.ts");
            assert_eq!(info, "http(s) import");
        }
        other => panic!("{other:?}"),
    }

    let err = collect_dependencies(&specs(&["ftp://example.com/mod.ts"])).unwrap_err();
    match err {
        PublishError::InvalidExternalImport { info, .. } => {
            assert_eq!(info, "unsupported scheme")
        }
        other => panic!("{other:?}"),
    }
}

#[test]
fn collection_is_idempotent_as_a_set() {
    // Two runs on byte-identical inputs give the same dependency set.
    let input = specs(&[
        "npm:chalk@5",
        "jsr:@std/path@1",
        "npm:chalk@5",
        "file:///mod.ts",
    ]);
    let a = collect_dependencies(&input).unwrap();
    let b = collect_dependencies(&input).unwrap();
    assert_eq!(sorted_keys(&a), sorted_keys(&b));
}
