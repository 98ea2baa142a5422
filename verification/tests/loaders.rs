//! Load decisions of the two content sources, and the pipeline's remaining
//! per-specifier decisions.

use registry_analysis::loader::LoadDecision;
use registry_analysis::loader::RemoteLoadDecision;
use registry_analysis::loader::local_load_decision;
use registry_analysis::loader::remote_load_decision;
use registry_analysis::paths::FileSet;
use registry_analysis::paths::PackagePath;
use registry_analysis::paths::PathSet;
use registry_analysis::pipeline::ModuleCheckInfo;
use registry_analysis::pipeline::all_roots_fast_checked;
use registry_analysis::pipeline::snapshot_retains;

fn files() -> FileSet {
    let mut files = FileSet::new();
    files.insert(
        PackagePath::new("/mod.ts".to_string()).unwrap(),
        b"export {};".to_vec(),
    );
    files
}

fn declared() -> PathSet {
    let mut set = PathSet::new();
    set.push(PackagePath::new("/mod.ts".to_string()).unwrap());
    set
}

#[test]
fn local_loader_serves_known_files() {
    match local_load_decision(&files(), "file:///mod.ts") {
        LoadDecision::Module { content } => assert_eq!(content, b"export {};".to_vec()),
        _ => panic!("expected module content"),
    }
    assert!(matches!(
        local_load_decision(&files(), "file:///missing.ts"),
        LoadDecision::NotFound
    ));
    // A malformed path means the module does not exist, not a failure.
    assert!(matches!(
        local_load_decision(&files(), "file:///a//b.ts"),
        LoadDecision::NotFound
    ));
    assert!(matches!(
        local_load_decision(&files(), "file:///../mod.ts"),
        LoadDecision::NotFound
    ));
}

#[test]
fn local_loader_scheme_classes() {
    for s in [
        "http://x/y",
        "https://x/y",
        "node:fs",
        "npm:chalk@5",
        "jsr:@std/path@1",
        "bun:sqlite",
        "virtual:custom",
        "cloudflare:workers",
    ] {
        assert!(
            matches!(local_load_decision(&files(), s), LoadDecision::External),
            "{s}"
        );
    }
    assert!(matches!(
        local_load_decision(&files(), "data:text/typescript,export%20{}"),
        LoadDecision::DataUrl
    ));
    assert!(matches!(
        local_load_decision(&files(), "ftp://x/y"),
        LoadDecision::NotFound
    ));
}

#[test]
fn remote_loader_checks_declared_paths() {
    assert!(matches!(
        remote_load_decision(&declared(), "file:///mod.ts"),
        RemoteLoadDecision::Fetch
    ));
    // Content that was not declared part of the package is never fetched.
    assert!(matches!(
        remote_load_decision(&declared(), "file:///secret.ts"),
        RemoteLoadDecision::NotFound
    ));
    assert!(matches!(
        remote_load_decision(&declared(), "npm:chalk@5"),
        RemoteLoadDecision::External
    ));
    assert!(matches!(
        remote_load_decision(&declared(), "data:text/typescript,x"),
        RemoteLoadDecision::DataUrl
    ));
    // The remote source has no virtual schemes.
    assert!(matches!(
        remote_load_decision(&declared(), "virtual:custom"),
        RemoteLoadDecision::NotFound
    ));
    assert!(matches!(
        remote_load_decision(&declared(), "cloudflare:workers"),
        RemoteLoadDecision::NotFound
    ));
}

fn info(specifier: &str, is_js: bool, types: bool, fast: bool) -> ModuleCheckInfo {
    ModuleCheckInfo {
        specifier: specifier.to_string(),
        is_js,
        has_types_dependency: types,
        has_fast_check: fast,
    }
}

#[test]
fn fast_check_verdict() {
    let roots = vec!["file:///mod.ts".to_string()];

    // A root script module with neither types nor a fast-check module fails.
    let mods = vec![info("file:///mod.ts", true, false, false)];
    assert!(!all_roots_fast_checked(&roots, &mods));

    // Fast-checked or externally typed roots pass.
    let mods = vec![info("file:///mod.ts", true, false, true)];
    assert!(all_roots_fast_checked(&roots, &mods));
    let mods = vec![info("file:///mod.ts", true, true, false)];
    assert!(all_roots_fast_checked(&roots, &mods));

    // Non-root and non-script modules do not count.
    let mods = vec![
        info("file:///mod.ts", true, true, false),
        info("file:///helper.ts", true, false, false),
        info("npm:chalk@5", false, false, false),
    ];
    assert!(all_roots_fast_checked(&roots, &mods));
}

#[test]
fn snapshot_keeps_file_entries_only() {
    assert!(snapshot_retains("file:///mod.ts"));
    assert!(!snapshot_retains("npm:chalk@5"));
    assert!(!snapshot_retains("data:text/typescript,x"));
    assert!(!snapshot_retains("filex://nope"));
}
