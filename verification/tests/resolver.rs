//! Self-referential import resolution, with the real requirement parser and
//! version matcher linked.

use registry_analysis::exports::ExportsMap;
use registry_analysis::resolve::ResolveDecision;
use registry_analysis::resolve::WorkspaceMemberModel;
use registry_analysis::resolve::resolve_self_import;

fn member() -> WorkspaceMemberModel {
    let exports = ExportsMap::from_entries(vec![
        (".".to_string(), "./mod.ts".to_string()),
        ("sub".to_string(), "./sub.ts".to_string()),
    ])
    .unwrap();
    WorkspaceMemberModel {
        name: "@scope/pkg".to_string(),
        version: "1.2.3".to_string(),
        exports,
    }
}

#[test]
fn self_import_resolves_to_export_value() {
    let m = member();
    match resolve_self_import(&m, "jsr:@scope/pkg@^1.0.0") {
        ResolveDecision::SelfExport { export_value } => {
            assert_eq!(export_value, "./mod.ts")
        }
        ResolveDecision::MissingExport { .. } | ResolveDecision::Delegate => {
            panic!("expected a self export")
        }
    }
}

#[test]
fn self_import_with_sub_path() {
    let m = member();
    match resolve_self_import(&m, "jsr:@scope/pkg@1/sub") {
        ResolveDecision::SelfExport { export_value } => {
            assert_eq!(export_value, "./sub.ts")
        }
        _ => panic!("expected a self export"),
    }
}

#[test]
fn missing_export_is_reported() {
    let m = member();
    match resolve_self_import(&m, "jsr:@scope/pkg@1/nope") {
        ResolveDecision::MissingExport { export_name } => {
            assert_eq!(export_name, "nope")
        }
        _ => panic!("expected a missing export"),
    }
}

#[test]
fn other_names_and_versions_are_delegated() {
    let m = member();
    assert!(matches!(
        resolve_self_import(&m, "jsr:@other/pkg@1"),
        ResolveDecision::Delegate
    ));
    assert!(matches!(
        resolve_self_import(&m, "jsr:@scope/pkg@^2.0.0"),
        ResolveDecision::Delegate
    ));
    assert!(matches!(
        resolve_self_import(&m, "./relative.ts"),
        ResolveDecision::Delegate
    ));
    assert!(matches!(
        resolve_self_import(&m, "npm:@scope/pkg@1"),
        ResolveDecision::Delegate
    ));
}

#[test]
fn tag_constraints_are_delegated() {
    // A tag never pins the member's own concrete version, so a tagged
    // self-reference goes to default resolution.
    let m = member();
    assert!(matches!(
        resolve_self_import(&m, "jsr:@scope/pkg@latest"),
        ResolveDecision::Delegate
    ));
}
