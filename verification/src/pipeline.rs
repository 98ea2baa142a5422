//! The per-run inputs of the analysis pipeline and the decisions its
//! orchestration makes around the external graph engine: which export roots
//! to hand it, whether every root came out fast-checked, and which graph
//! entries the externally stored module snapshot retains.

use vstd::prelude::*;

use crate::deps::file_word;
use crate::deps::scheme_of;
use crate::loader::file_url_path;
use crate::exports::ExportsMap;
use crate::paths::FileSet;
use crate::text::chars_vec;
use crate::text::find_char;
use crate::text::lemma_find_from;
use crate::text::match_at;
use crate::text::str_eq;

verus! {

/// The inputs of one analysis run: the export map and the package's file
/// contents. Both are created fresh per run and returned unchanged with the
/// run's output for downstream storage.
pub struct PackageAnalysisData {
    pub exports: ExportsMap,
    pub files: FileSet,
}

/// A registry-URL provider for a graph engine that is told to pass registry
/// specifiers through unresolved: with passthrough enabled the engine never
/// asks it to map a package to a URL, so it answers no such query.
pub struct PassthroughJsrUrlProvider;

/// What the fast-check pass reports of one graph module.
pub struct ModuleCheckInfo {
    /// The module's canonical specifier.
    pub specifier: String,
    /// The module is a script module (as opposed to external or data).
    pub is_js: bool,
    /// The module declares a types dependency, so it is externally typed.
    pub has_types_dependency: bool,
    /// The fast-check pass produced a module for it.
    pub has_fast_check: bool,
}

/// The specifier is one of the roots.
pub open spec fn in_roots(roots: Seq<String>, s: Seq<char>) -> bool {
    exists|j: int| 0 <= j < roots.len() && (#[trigger] roots[j])@ == s
}

/// Every root script module is externally typed or fast-checked.
pub open spec fn all_fast_check_spec(roots: Seq<String>, mods: Seq<ModuleCheckInfo>) -> bool {
    forall|k: int|
        0 <= k < mods.len() ==> ((in_roots(roots, (#[trigger] mods[k]).specifier@) && mods[k].is_js)
            ==> (mods[k].has_types_dependency || mods[k].has_fast_check))
}

/// Is the specifier among the roots?
fn roots_contain(roots: &Vec<String>, s: &str) -> (r: bool)
    ensures
        r == in_roots(roots@, s@),
{
    let n = roots.len();
    let mut j: usize = 0;
    while j < n
        invariant
            n == roots.len(),
            0 <= j <= n,
            forall|m: int| 0 <= m < j ==> (#[trigger] roots@[m])@ != s@,
        decreases n - j,
    {
        if str_eq(roots[j].as_str(), s) {
            assert(roots@[j as int]@ == s@);
            return true;
        }
        j += 1;
    }
    false
}

/// True when every root module that is a script module either declares a
/// types dependency or has a fast-check module; the quality score records
/// this value.
pub fn all_roots_fast_checked(roots: &Vec<String>, modules: &Vec<ModuleCheckInfo>) -> (r: bool)
    ensures
        r == all_fast_check_spec(roots@, modules@),
{
    let n = modules.len();
    let mut k: usize = 0;
    while k < n
        invariant
            n == modules.len(),
            0 <= k <= n,
            forall|m: int|
                0 <= m < k ==> ((in_roots(roots@, (#[trigger] modules@[m]).specifier@)
                    && modules@[m].is_js) ==> (modules@[m].has_types_dependency
                    || modules@[m].has_fast_check)),
        decreases n - k,
    {
        let md = &modules[k];
        if md.is_js && !(md.has_types_dependency || md.has_fast_check) {
            if roots_contain(roots, md.specifier.as_str()) {
                return false;
            }
        }
        k += 1;
    }
    true
}

/// The key set of the stored module snapshot for a list of graph
/// specifiers: the path components of its `file`-scheme members.
pub open spec fn snapshot_key_set(specs: Seq<Seq<char>>) -> Set<Seq<char>> {
    Set::new(
        |p: Seq<char>|
            exists|i: int|
                0 <= i < specs.len() && scheme_of(#[trigger] specs[i]) == file_word() && p
                    == file_url_path(specs[i]),
    )
}

/// Running the pipeline twice on byte-identical inputs yields a
/// byte-identical snapshot key set: which graph entries the snapshot
/// retains, and under which path each is keyed, is a function of the
/// graph's specifiers alone, so two runs over one specifier list agree.
pub proof fn lemma_snapshot_keys_idempotent(a: Seq<Seq<char>>, b: Seq<Seq<char>>)
    requires
        a == b,
    ensures
        snapshot_key_set(a) == snapshot_key_set(b),
{
}

/// Does the externally stored module snapshot retain this graph entry? Only
/// `file`-scheme specifiers — the package's own modules — are kept.
pub fn snapshot_retains(specifier: &str) -> (r: bool)
    ensures
        r == (scheme_of(specifier@) == file_word()),
{
    let chars = chars_vec(specifier);
    let f = find_char(&chars, 0, ':');
    proof {
        lemma_find_from(chars@, 0, ':');
    }
    if f != 4 {
        proof {
            assert(scheme_of(chars@).len() == f);
        }
        return false;
    }
    let m = match_at(&chars, 0, &['f', 'i', 'l', 'e']);
    proof {
        if m {
            assert(scheme_of(chars@) =~= file_word());
        } else {
            assert(scheme_of(chars@) == chars@.subrange(0, 4));
        }
    }
    m
}

} // verus!
