//! The export map — the package's public entrypoint table — and the assembly
//! of the graph's root specifiers from it.
//!
//! Every export value is a `.`-prefixed package-relative path. Assembly
//! strips the leading dot, validates the remainder as a package path,
//! requires it to name a file of the file set, and forms the canonical
//! `file://` module specifier. The export keyed `.` is the main entrypoint.

use vstd::prelude::*;
use vstd::string::StringExecFns;

use crate::errors::PublishError;
use crate::paths::FileSet;
use crate::paths::PackagePath;
use crate::paths::is_valid_package_path;
use crate::text::assoc_get;
use crate::text::lemma_assoc_get_distinct;
use crate::text::str_eq;
use crate::text::strip_dot_prefix;

verus! {

/// The view of a vector of export entries.
pub open spec fn entries_view(s: Seq<(String, String)>) -> Seq<(Seq<char>, Seq<char>)> {
    s.map(|i: int, e: (String, String)| (e.0@, e.1@))
}

/// Keys are pairwise distinct.
pub open spec fn distinct_export_keys(s: Seq<(Seq<char>, Seq<char>)>) -> bool {
    forall|i: int, j: int| 0 <= i < j < s.len() ==> (#[trigger] s[i].0) != (#[trigger] s[j].0)
}

/// Every value starts with `.`.
pub open spec fn dotted_export_values(s: Seq<(Seq<char>, Seq<char>)>) -> bool {
    forall|i: int|
        0 <= i < s.len() ==> (#[trigger] s[i].1).len() >= 1 && s[i].1[0] == '.'
}

/// The export map: export key to `.`-prefixed package-relative path, in
/// insertion order with pairwise-distinct keys.
pub struct ExportsMap {
    entries: Vec<(String, String)>,
}

impl View for ExportsMap {
    type V = Seq<(Seq<char>, Seq<char>)>;

    closed spec fn view(&self) -> Seq<(Seq<char>, Seq<char>)> {
        entries_view(self.entries@)
    }
}

/// The invariant of every constructed export map.
#[verifier::type_invariant]
pub open spec fn exports_map_wf(e: &ExportsMap) -> bool {
    distinct_export_keys(e@) && dotted_export_values(e@)
}

impl ExportsMap {
    /// Builds an export map from key/value entries; `None` exactly when a
    /// key repeats or a value does not start with `.`.
    pub fn from_entries(entries: Vec<(String, String)>) -> (r: Option<ExportsMap>)
        ensures
            r is Some <==> distinct_export_keys(entries_view(entries@)) && dotted_export_values(
                entries_view(entries@),
            ),
            r matches Some(m) ==> m@ == entries_view(entries@),
    {
        let ghost ev = entries_view(entries@);
        let n = entries.len();
        let mut i: usize = 0;
        while i < n
            invariant
                n == entries.len(),
                ev == entries_view(entries@),
                0 <= i <= n,
                forall|j: int| 0 <= j < i ==> (#[trigger] ev[j].1).len() >= 1 && ev[j].1[0] == '.',
                forall|a: int, b: int| 0 <= a < b < i ==> (#[trigger] ev[a].0) != (#[trigger] ev[b].0),
            decreases n - i,
        {
            if strip_dot_prefix(entries[i].1.as_str()).is_none() {
                proof {
                    assert(!((ev[i as int].1).len() >= 1 && ev[i as int].1[0] == '.'));
                    assert(!dotted_export_values(ev));
                }
                return None;
            }
            let mut j: usize = 0;
            while j < i
                invariant
                    n == entries.len(),
                    ev == entries_view(entries@),
                    0 <= j <= i < n,
                    forall|a: int| 0 <= a < j ==> (#[trigger] ev[a].0) != ev[i as int].0,
                decreases i - j,
            {
                if str_eq(entries[j].0.as_str(), entries[i].0.as_str()) {
                    proof {
                        assert((ev[j as int].0) == (ev[i as int].0));
                        assert(!distinct_export_keys(ev));
                    }
                    return None;
                }
                j += 1;
            }
            i += 1;
        }
        Some(ExportsMap { entries })
    }

    /// Number of exports.
    pub fn len(&self) -> (r: usize)
        ensures
            r == self@.len(),
    {
        self.entries.len()
    }

    /// The export key at `i`.
    pub fn key_at(&self, i: usize) -> (r: &String)
        requires
            i < self@.len(),
        ensures
            r@ == self@[i as int].0,
    {
        &self.entries[i].0
    }

    /// The export value at `i`.
    pub fn value_at(&self, i: usize) -> (r: &String)
        requires
            i < self@.len(),
        ensures
            r@ == self@[i as int].1,
    {
        &self.entries[i].1
    }

    /// Looks an export key up; `Some` exactly when the key is present.
    pub fn get(&self, key: &str) -> (r: Option<&String>)
        ensures
            r is Some <==> assoc_get(self@, key@) is Some,
            r matches Some(v) ==> assoc_get(self@, key@) == Some(v@),
    {
        let mut i: usize = 0;
        let n = self.entries.len();
        proof {
            assert(self@.skip(0) =~= self@);
        }
        while i < n
            invariant
                n == self.entries.len(),
                n == self@.len(),
                0 <= i <= n,
                assoc_get(self@, key@) == assoc_get(self@.skip(i as int), key@),
            decreases n - i,
        {
            assert(self@.skip(i as int)[0] == self@[i as int]);
            if str_eq(self.entries[i].0.as_str(), key) {
                assert(assoc_get(self@.skip(i as int), key@) == Some(self@[i as int].1));
                return Some(&self.entries[i].1);
            }
            proof {
                assert(self@.skip(i as int).drop_first() =~= self@.skip(i as int + 1));
            }
            i += 1;
        }
        assert(self@.skip(n as int) =~= Seq::<(Seq<char>, Seq<char>)>::empty());
        None
    }
}

/// The characters of the `file://` scheme prefix of an in-package module
/// specifier.
pub open spec fn file_scheme_prefix() -> Seq<char> {
    seq!['f', 'i', 'l', 'e', ':', '/', '/']
}

/// The canonical module specifier of an in-package file: `file://` followed
/// by the package path.
pub open spec fn file_specifier(path: Seq<char>) -> Seq<char> {
    file_scheme_prefix() + path
}

/// The export key of the main entrypoint: `.`.
pub open spec fn main_export_key() -> Seq<char> {
    seq!['.']
}

/// An export value is usable as a graph root: stripped of its leading dot it
/// is a valid package path that names a file of the set.
pub open spec fn export_entry_ok(files: Seq<(Seq<char>, Seq<u8>)>, value: Seq<char>) -> bool {
    &&& is_valid_package_path(value.drop_first())
    &&& assoc_get(files, value.drop_first()) is Some
}

/// The root specifiers assembled from an export map, with the specifier of
/// the `.` export singled out as the main entrypoint.
#[derive(Debug)]
pub struct RootsInfo {
    /// One canonical `file://` specifier per export, in export-map order.
    pub roots: Vec<String>,
    /// The specifier of the export keyed `.`, when that key exists.
    pub main_entrypoint: Option<String>,
}

/// Builds the canonical `file://` specifier of a validated package path.
fn specifier_for(path: &PackagePath) -> (r: String)
    ensures
        r@ == file_specifier(path@),
{
    let prefix = String::from_str("file://");
    proof {
        reveal_strlit("file://");
        assert(prefix@ =~= file_scheme_prefix());
    }
    let r = prefix.concat(path.as_str());
    proof {
        assert(r@ =~= file_specifier(path@));
    }
    r
}

/// Assembles the graph roots from the export map.
///
/// Exports are visited in order; the first offending one decides the error:
/// a value whose stripped text is not a valid package path is an invalid
/// path, and a valid path absent from the file set makes the exports
/// invalid. On success there is one root per export, in order, and the main
/// entrypoint is the specifier of the export keyed `.`.
pub fn assemble_roots(config_file: &PackagePath, exports: &ExportsMap, files: &FileSet) -> (r:
    Result<RootsInfo, PublishError>)
    ensures
        r is Ok <==> (forall|i: int|
            0 <= i < exports@.len() ==> export_entry_ok(files@, #[trigger] exports@[i].1)),
        r matches Ok(ri) ==> {
            &&& ri.roots@.len() == exports@.len()
            &&& (forall|i: int|
                0 <= i < exports@.len() ==> (#[trigger] ri.roots@[i])@ == file_specifier(
                    exports@[i].1.drop_first(),
                ))
            &&& (assoc_get(exports@, main_export_key()) matches Some(v) ==> ri.main_entrypoint
                matches Some(m) && m@ == file_specifier(v.drop_first()))
            &&& (assoc_get(exports@, main_export_key()) is None ==> ri.main_entrypoint is None)
        },
        r matches Err(e) ==> exists|i: int|
            {
                &&& 0 <= i < exports@.len()
                &&& !export_entry_ok(files@, #[trigger] exports@[i].1)
                &&& (forall|j: int| 0 <= j < i ==> export_entry_ok(files@, #[trigger] exports@[j].1))
                &&& if !is_valid_package_path(exports@[i].1.drop_first()) {
                    e matches PublishError::InvalidPath { path } && path@ == exports@[
                        i
                    ].1.drop_first()
                } else {
                    e matches PublishError::ConfigFileExportsInvalid {
                        config_file: cf,
                        export_key,
                        target,
                    } && cf@ == config_file@ && export_key@ == exports@[i].0 && target@ == exports@[
                        i
                    ].1.drop_first()
                }
            },
{
    proof {
        use_type_invariant(exports);
    }
    let n = exports.len();
    let mut roots: Vec<String> = Vec::new();
    let mut main_entrypoint: Option<String> = None;
    let mut i: usize = 0;
    while i < n
        invariant
            n == exports@.len(),
            distinct_export_keys(exports@),
            dotted_export_values(exports@),
            0 <= i <= n,
            roots@.len() == i,
            forall|j: int| 0 <= j < i ==> export_entry_ok(files@, #[trigger] exports@[j].1),
            forall|j: int|
                0 <= j < i ==> (#[trigger] roots@[j])@ == file_specifier(
                    exports@[j].1.drop_first(),
                ),
            match main_entrypoint {
                Some(m) => exists|j: int|
                    0 <= j < i && (#[trigger] exports@[j].0) == main_export_key() && m@
                        == file_specifier(exports@[j].1.drop_first()),
                None => forall|j: int| 0 <= j < i ==> (#[trigger] exports@[j].0) != main_export_key(),
            },
        decreases n - i,
    {
        let value = exports.value_at(i);
        let stripped: &str = match strip_dot_prefix(value.as_str()) {
            Some(t) => t,
            None => {
                proof {
                    assert(exports@[i as int].1.len() >= 1 && exports@[i as int].1[0] == '.');
                }
                vstd::pervasive::unreached()
            },
        };
        let path = match PackagePath::new(stripped.to_owned()) {
            Some(p) => p,
            None => {
                return Err(PublishError::InvalidPath { path: stripped.to_owned() });
            },
        };
        if !files.contains(path.as_str()) {
            return Err(
                PublishError::ConfigFileExportsInvalid {
                    config_file: config_file.as_str().to_owned(),
                    export_key: exports.key_at(i).clone(),
                    target: path.as_str().to_owned(),
                },
            );
        }
        let specifier = specifier_for(&path);
        proof {
            reveal_strlit(".");
            assert("."@ =~= main_export_key());
        }
        if str_eq(exports.key_at(i).as_str(), ".") {
            main_entrypoint = Some(specifier.clone());
            proof {
                assert((exports@[i as int].0) == main_export_key());
            }
        }
        roots.push(specifier);
        i += 1;
    }
    proof {
        let ghost mo = main_entrypoint;
        match mo {
            Some(m) => {
                let j = choose|j: int|
                    0 <= j < n && (#[trigger] exports@[j].0) == main_export_key() && m@
                        == file_specifier(exports@[j].1.drop_first());
                lemma_assoc_get_distinct(exports@, j);
            },
            None => {
                crate::text::lemma_assoc_get(exports@, main_export_key());
            },
        }
    }
    Ok(RootsInfo { roots, main_entrypoint })
}

} // verus!
