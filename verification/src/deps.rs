//! The dependency collector: walks the graph's module specifiers, classifies
//! each by scheme, parses registry requirement references, and accumulates
//! the set of external package dependencies.
//!
//! A requirement whose version constraint is the unconstrained wildcard is
//! rejected, never inserted. Network-scheme imports and unrecognized schemes
//! are fatal. The result has set semantics: no duplicate records.

use vstd::prelude::*;
use vstd::string::StringExecFns;

use deno_semver::jsr::JsrPackageReqReference;
use deno_semver::npm::NpmPackageReqReference;

use crate::errors::PublishError;
use crate::text::chars_vec;
use crate::text::find_char;
use crate::text::find_from;
use crate::text::lemma_find_from;
use crate::text::match_at;
use crate::text::seq_at;
use crate::text::str_eq;

verus! {

/// Which registry a dependency record points into.
#[derive(Clone, Copy, PartialEq, Eq, Structural, Debug)]
pub enum DependencyKind {
    Npm,
    Jsr,
}

/// One external package dependency: registry kind, package name, version
/// constraint text, and the optional sub path of the reference.
#[derive(Debug, Clone, PartialEq, Eq)]
pub struct DependencyRecord {
    pub kind: DependencyKind,
    pub name: String,
    pub version_req: String,
    pub sub_path: Option<String>,
}

/// The mathematical value of a dependency record.
pub open spec fn rec_view(r: DependencyRecord) -> (
    DependencyKind,
    Seq<char>,
    Seq<char>,
    Option<Seq<char>>,
) {
    (
        r.kind,
        r.name@,
        r.version_req@,
        match r.sub_path {
            Some(s) => Some(s@),
            None => None,
        },
    )
}

/// The scheme of a specifier: its characters before the first `:` (the whole
/// text when it has none).
pub open spec fn scheme_of(s: Seq<char>) -> Seq<char> {
    s.subrange(0, find_from(s, 0, ':'))
}

/// The parsed pieces of a requirement reference: name, version constraint
/// text, optional sub path.
pub struct ReqParts {
    pub name: String,
    pub version_req: String,
    pub sub_path: Option<String>,
}

/// What `npm:` requirement parsing yields for a specifier text, if
/// anything: (name, version constraint text, sub path).
pub uninterp spec fn npm_req_parse(s: Seq<char>) -> Option<
    (Seq<char>, Seq<char>, Option<Seq<char>>),
>;

/// What `jsr:` requirement parsing yields for a specifier text, if
/// anything: (name, version constraint text, sub path).
pub uninterp spec fn jsr_req_parse(s: Seq<char>) -> Option<
    (Seq<char>, Seq<char>, Option<Seq<char>>),
>;

/// Relies on `deno_semver::npm::NpmPackageReqReference::from_str`: parses an
/// `npm:` requirement specifier into package name, version-constraint text
/// (`version_text` of the requirement) and optional sub path; the outcome
/// depends on the text alone. The error text is the parse error's display.
#[verifier::external_body]
fn parse_npm_req(s: &str) -> (r: Result<ReqParts, String>)
    ensures
        r is Ok <==> npm_req_parse(s@) is Some,
        r matches Ok(p) ==> npm_req_parse(s@) == Some(
            (
                p.name@,
                p.version_req@,
                match p.sub_path {
                    Some(sp) => Some(sp@),
                    None => None,
                },
            ),
        ),
{
    match NpmPackageReqReference::from_str(s) {
        Ok(r) => Ok(ReqParts {
            name: r.req().name.to_string(),
            version_req: r.req().version_req.version_text().to_string(),
            sub_path: r.sub_path().map(|p| p.to_string()),
        }),
        Err(e) => Err(format!("{e}")),
    }
}

/// Relies on `deno_semver::jsr::JsrPackageReqReference::from_str`: as the
/// `npm:` parse, for `jsr:` requirement specifiers.
#[verifier::external_body]
pub(crate) fn parse_jsr_req(s: &str) -> (r: Result<ReqParts, String>)
    ensures
        r is Ok <==> jsr_req_parse(s@) is Some,
        r matches Ok(p) ==> jsr_req_parse(s@) == Some(
            (
                p.name@,
                p.version_req@,
                match p.sub_path {
                    Some(sp) => Some(sp@),
                    None => None,
                },
            ),
        ),
{
    match JsrPackageReqReference::from_str(s) {
        Ok(r) => Ok(ReqParts {
            name: r.req().name.to_string(),
            version_req: r.req().version_req.version_text().to_string(),
            sub_path: r.sub_path().map(|p| p.to_string()),
        }),
        Err(e) => Err(format!("{e}")),
    }
}

/// The characters of the unconstrained wildcard constraint `*`.
pub open spec fn star_text() -> Seq<char> {
    seq!['*']
}

/// The characters of `npm`.
pub open spec fn npm_word() -> Seq<char> {
    seq!['n', 'p', 'm']
}

/// The characters of `jsr`.
pub open spec fn jsr_word() -> Seq<char> {
    seq!['j', 's', 'r']
}

/// The characters of `file`.
pub open spec fn file_word() -> Seq<char> {
    seq!['f', 'i', 'l', 'e']
}

/// The characters of `data`.
pub open spec fn data_word() -> Seq<char> {
    seq!['d', 'a', 't', 'a']
}

/// The characters of `node`.
pub open spec fn node_word() -> Seq<char> {
    seq!['n', 'o', 'd', 'e']
}

/// The characters of `bun`.
pub open spec fn bun_word() -> Seq<char> {
    seq!['b', 'u', 'n']
}

/// The characters of `virtual`.
pub open spec fn virtual_word() -> Seq<char> {
    seq!['v', 'i', 'r', 't', 'u', 'a', 'l']
}

/// The characters of `cloudflare`.
pub open spec fn cloudflare_word() -> Seq<char> {
    seq!['c', 'l', 'o', 'u', 'd', 'f', 'l', 'a', 'r', 'e']
}

/// The characters of `http`.
pub open spec fn http_word() -> Seq<char> {
    seq!['h', 't', 't', 'p']
}

/// The characters of `https`.
pub open spec fn https_word() -> Seq<char> {
    seq!['h', 't', 't', 'p', 's']
}

/// The characters of the diagnostic note `http(s) import`.
pub open spec fn http_import_info() -> Seq<char> {
    seq!['h', 't', 't', 'p', '(', 's', ')', ' ', 'i', 'm', 'p', 'o', 'r', 't']
}

/// The characters of the diagnostic note `unsupported scheme`.
pub open spec fn unsupported_scheme_info() -> Seq<char> {
    seq!['u', 'n', 's', 'u', 'p', 'p', 'o', 'r', 't', 'e', 'd', ' ', 's', 'c', 'h', 'e', 'm', 'e']
}

/// Schemes that are not dependencies and are simply skipped: in-package
/// files, data URLs, runtime built-ins and virtual schemes.
pub open spec fn ignored_scheme(sc: Seq<char>) -> bool {
    ||| sc == file_word()
    ||| sc == data_word()
    ||| sc == node_word()
    ||| sc == bun_word()
    ||| sc == virtual_word()
    ||| sc == cloudflare_word()
}

/// Network schemes, always fatal for a published package.
pub open spec fn network_scheme(sc: Seq<char>) -> bool {
    sc == http_word() || sc == https_word()
}

/// The specifier points into a registry.
pub open spec fn is_dep_scheme(s: Seq<char>) -> bool {
    scheme_of(s) == npm_word() || scheme_of(s) == jsr_word()
}

/// The specifier passes dependency collection: a registry reference that
/// parses with a constrained version, or an ignored scheme.
pub open spec fn dep_entry_ok(s: Seq<char>) -> bool {
    if scheme_of(s) == npm_word() {
        npm_req_parse(s) matches Some(p) && p.1 != star_text()
    } else if scheme_of(s) == jsr_word() {
        jsr_req_parse(s) matches Some(p) && p.1 != star_text()
    } else {
        ignored_scheme(scheme_of(s))
    }
}

/// The record that a registry specifier contributes.
pub open spec fn dep_of(s: Seq<char>) -> (
    DependencyKind,
    Seq<char>,
    Seq<char>,
    Option<Seq<char>>,
) {
    if scheme_of(s) == npm_word() {
        match npm_req_parse(s) {
            Some(p) => (DependencyKind::Npm, p.0, p.1, p.2),
            None => (DependencyKind::Npm, Seq::empty(), Seq::empty(), None),
        }
    } else {
        match jsr_req_parse(s) {
            Some(p) => (DependencyKind::Jsr, p.0, p.1, p.2),
            None => (DependencyKind::Jsr, Seq::empty(), Seq::empty(), None),
        }
    }
}

/// The error a failing specifier produces.
pub open spec fn dep_error(s: Seq<char>, e: PublishError) -> bool {
    if scheme_of(s) == npm_word() {
        if npm_req_parse(s) is None {
            e matches PublishError::InvalidNpmSpecifier { message: _ }
        } else {
            e matches PublishError::NpmMissingConstraint { specifier } && specifier@ == s
        }
    } else if scheme_of(s) == jsr_word() {
        if jsr_req_parse(s) is None {
            e matches PublishError::InvalidJsrSpecifier { message: _ }
        } else {
            e matches PublishError::JsrMissingConstraint { specifier } && specifier@ == s
        }
    } else if network_scheme(scheme_of(s)) {
        e matches PublishError::InvalidExternalImport { specifier, info } && specifier@ == s
            && info@ == http_import_info()
    } else {
        e matches PublishError::InvalidExternalImport { specifier, info } && specifier@ == s
            && info@ == unsupported_scheme_info()
    }
}

/// The set of records contributed by a list of specifiers.
pub open spec fn spec_dep_set(specs: Seq<Seq<char>>) -> Set<
    (DependencyKind, Seq<char>, Seq<char>, Option<Seq<char>>),
> {
    Set::new(
        |d: (DependencyKind, Seq<char>, Seq<char>, Option<Seq<char>>)|
            exists|i: int|
                0 <= i < specs.len() && is_dep_scheme(#[trigger] specs[i]) && d == dep_of(
                    specs[i],
                ),
    )
}

/// The set of records held by a vector of records.
pub open spec fn recs_set(s: Seq<DependencyRecord>) -> Set<
    (DependencyKind, Seq<char>, Seq<char>, Option<Seq<char>>),
> {
    Set::new(
        |d: (DependencyKind, Seq<char>, Seq<char>, Option<Seq<char>>)|
            exists|j: int| 0 <= j < s.len() && rec_view(#[trigger] s[j]) == d,
    )
}

/// The view of a vector of specifier strings.
pub open spec fn specs_view(s: Seq<String>) -> Seq<Seq<char>> {
    s.map(|i: int, x: String| x@)
}

/// Equality of two records' values.
fn record_eq(a: &DependencyRecord, b: &DependencyRecord) -> (r: bool)
    ensures
        r == (rec_view(*a) == rec_view(*b)),
{
    let kind_eq = match (a.kind, b.kind) {
        (DependencyKind::Npm, DependencyKind::Npm) => true,
        (DependencyKind::Jsr, DependencyKind::Jsr) => true,
        _ => false,
    };
    if !kind_eq {
        return false;
    }
    if !str_eq(a.name.as_str(), b.name.as_str()) {
        return false;
    }
    if !str_eq(a.version_req.as_str(), b.version_req.as_str()) {
        return false;
    }
    match (&a.sub_path, &b.sub_path) {
        (None, None) => true,
        (Some(x), Some(y)) => str_eq(x.as_str(), y.as_str()),
        _ => false,
    }
}

/// Compares the scheme of `chars` (whose first `:` is at `f`) with a word.
fn scheme_eq<const N: usize>(chars: &Vec<char>, f: usize, w: &[char; N]) -> (r: bool)
    requires
        f == find_from(chars@, 0, ':'),
        f <= chars.len(),
    ensures
        r == (scheme_of(chars@) == w@),
{
    if f != N {
        proof {
            assert(scheme_of(chars@).len() == f);
        }
        return false;
    }
    let m = match_at(chars, 0, w);
    proof {
        if m {
            assert(scheme_of(chars@) =~= w@);
        } else {
            assert(scheme_of(chars@) == chars@.subrange(0, N as int));
        }
    }
    m
}

/// Adds a record unless an equal one is already present.
fn insert_dep(deps: &mut Vec<DependencyRecord>, rec: DependencyRecord)
    ensures
        (exists|j: int| 0 <= j < old(deps)@.len() && rec_view(#[trigger] old(deps)@[j]) == rec_view(
            rec,
        )) ==> final(deps)@ == old(deps)@,
        !(exists|j: int|
            0 <= j < old(deps)@.len() && rec_view(#[trigger] old(deps)@[j]) == rec_view(rec))
            ==> final(deps)@ == old(deps)@.push(rec),
{
    let n = deps.len();
    let mut i: usize = 0;
    while i < n
        invariant
            n == deps.len(),
            0 <= i <= n,
            deps@ == old(deps)@,
            forall|j: int| 0 <= j < i ==> rec_view(#[trigger] deps@[j]) != rec_view(rec),
        decreases n - i,
    {
        if record_eq(&deps[i], &rec) {
            return ;
        }
        i += 1;
    }
    deps.push(rec);
}

/// Walks the module specifiers and collects the dependency set.
///
/// Specifiers are visited in order and the first offending one decides the
/// error. On success the returned records are pairwise distinct, none
/// carries the wildcard constraint, and their set is exactly the set
/// contributed by the registry-scheme specifiers.
pub fn collect_dependencies(specifiers: &Vec<String>) -> (r: Result<
    Vec<DependencyRecord>,
    PublishError,
>)
    ensures
        r is Ok <==> (forall|i: int|
            0 <= i < specifiers@.len() ==> dep_entry_ok(#[trigger] specs_view(specifiers@)[i])),
        r matches Ok(deps) ==> {
            &&& recs_set(deps@) == spec_dep_set(specs_view(specifiers@))
            &&& (forall|j1: int, j2: int|
                0 <= j1 < j2 < deps@.len() ==> rec_view(#[trigger] deps@[j1]) != rec_view(
                    #[trigger] deps@[j2],
                ))
            &&& (forall|j: int|
                0 <= j < deps@.len() ==> (#[trigger] deps@[j]).version_req@ != star_text())
        },
        r matches Err(e) ==> exists|i: int|
            {
                &&& 0 <= i < specifiers@.len()
                &&& !dep_entry_ok(#[trigger] specs_view(specifiers@)[i])
                &&& (forall|j: int|
                    0 <= j < i ==> dep_entry_ok(#[trigger] specs_view(specifiers@)[j]))
                &&& dep_error(specs_view(specifiers@)[i], e)
            },
{
    let ghost sv = specs_view(specifiers@);
    let n = specifiers.len();
    let mut deps: Vec<DependencyRecord> = Vec::new();
    let mut i: usize = 0;
    while i < n
        invariant
            n == specifiers@.len(),
            sv == specs_view(specifiers@),
            0 <= i <= n,
            forall|k: int| 0 <= k < i ==> dep_entry_ok(#[trigger] sv[k]),
            forall|j1: int, j2: int|
                0 <= j1 < j2 < deps@.len() ==> rec_view(#[trigger] deps@[j1]) != rec_view(
                    #[trigger] deps@[j2],
                ),
            forall|j: int|
                0 <= j < deps@.len() ==> (#[trigger] deps@[j]).version_req@ != star_text(),
            forall|k: int|
                0 <= k < i && is_dep_scheme(#[trigger] sv[k]) ==> exists|j: int|
                    0 <= j < deps@.len() && rec_view(#[trigger] deps@[j]) == dep_of(sv[k]),
            forall|j: int|
                0 <= j < deps@.len() ==> exists|k: int|
                    0 <= k < i && is_dep_scheme(#[trigger] sv[k]) && rec_view(
                        #[trigger] deps@[j],
                    ) == dep_of(sv[k]),
        decreases n - i,
    {
        let sp = &specifiers[i];
        let chars = chars_vec(sp.as_str());
        let f = find_char(&chars, 0, ':');
        proof {
            lemma_find_from(chars@, 0, ':');
            assert(sv[i as int] == sp@);
        }
        if scheme_eq(&chars, f, &['n', 'p', 'm']) {
            match parse_npm_req(sp.as_str()) {
                Ok(p) => {
                    proof {
                        reveal_strlit("*");
                        assert("*"@ =~= star_text());
                    }
                    if str_eq(p.version_req.as_str(), "*") {
                        return Err(PublishError::NpmMissingConstraint { specifier: sp.clone() });
                    }
                    let rec = DependencyRecord {
                        kind: DependencyKind::Npm,
                        name: p.name,
                        version_req: p.version_req,
                        sub_path: p.sub_path,
                    };
                    proof {
                        assert(rec_view(rec) == dep_of(sv[i as int]));
                    }
                    let ghost pre = deps@;
                    let ghost rv = rec_view(rec);
                    insert_dep(&mut deps, rec);
                    proof {
                        if deps@ == pre.push(rec) {
                            assert(forall|j: int| 0 <= j < pre.len() ==> deps@[j] == pre[j]);
                            assert(rec_view(deps@[pre.len() as int]) == dep_of(sv[i as int]));
                        } else {
                            assert(exists|j: int|
                                0 <= j < pre.len() && rec_view(#[trigger] pre[j]) == rv);
                        }
                    }
                },
                Err(message) => {
                    return Err(PublishError::InvalidNpmSpecifier { message });
                },
            }
        } else if scheme_eq(&chars, f, &['j', 's', 'r']) {
            match parse_jsr_req(sp.as_str()) {
                Ok(p) => {
                    proof {
                        reveal_strlit("*");
                        assert("*"@ =~= star_text());
                    }
                    if str_eq(p.version_req.as_str(), "*") {
                        return Err(PublishError::JsrMissingConstraint { specifier: sp.clone() });
                    }
                    let rec = DependencyRecord {
                        kind: DependencyKind::Jsr,
                        name: p.name,
                        version_req: p.version_req,
                        sub_path: p.sub_path,
                    };
                    proof {
                        assert(rec_view(rec) == dep_of(sv[i as int]));
                    }
                    let ghost pre = deps@;
                    let ghost rv = rec_view(rec);
                    insert_dep(&mut deps, rec);
                    proof {
                        if deps@ == pre.push(rec) {
                            assert(forall|j: int| 0 <= j < pre.len() ==> deps@[j] == pre[j]);
                            assert(rec_view(deps@[pre.len() as int]) == dep_of(sv[i as int]));
                        } else {
                            assert(exists|j: int|
                                0 <= j < pre.len() && rec_view(#[trigger] pre[j]) == rv);
                        }
                    }
                },
                Err(message) => {
                    return Err(PublishError::InvalidJsrSpecifier { message });
                },
            }
        } else if scheme_eq(&chars, f, &['f', 'i', 'l', 'e']) || scheme_eq(
            &chars,
            f,
            &['d', 'a', 't', 'a'],
        ) || scheme_eq(&chars, f, &['n', 'o', 'd', 'e']) || scheme_eq(&chars, f, &['b', 'u', 'n'])
            || scheme_eq(&chars, f, &['v', 'i', 'r', 't', 'u', 'a', 'l']) || scheme_eq(
            &chars,
            f,
            &['c', 'l', 'o', 'u', 'd', 'f', 'l', 'a', 'r', 'e'],
        ) {
            // not a dependency: nothing to record
        } else if scheme_eq(&chars, f, &['h', 't', 't', 'p']) || scheme_eq(
            &chars,
            f,
            &['h', 't', 't', 'p', 's'],
        ) {
            let info = String::from_str("http(s) import");
            proof {
                reveal_strlit("http(s) import");
                assert(info@ =~= http_import_info());
            }
            return Err(PublishError::InvalidExternalImport { specifier: sp.clone(), info });
        } else {
            let info = String::from_str("unsupported scheme");
            proof {
                reveal_strlit("unsupported scheme");
                assert(info@ =~= unsupported_scheme_info());
            }
            return Err(PublishError::InvalidExternalImport { specifier: sp.clone(), info });
        }
        i += 1;
    }
    proof {
        assert(recs_set(deps@) =~= spec_dep_set(sv));
    }
    Ok(deps)
}

/// Running the collector twice on byte-identical inputs yields the same
/// dependency set: the set of records is a function of the specifier list,
/// so any two results for one list agree as sets, whatever order their
/// entries are in.
pub proof fn lemma_dependency_set_idempotent(
    specs: Seq<Seq<char>>,
    a: Seq<DependencyRecord>,
    b: Seq<DependencyRecord>,
)
    requires
        recs_set(a) == spec_dep_set(specs),
        recs_set(b) == spec_dep_set(specs),
    ensures
        recs_set(a) == recs_set(b),
{
}

/// No collected dependency set holds a wildcard-constrained record: every
/// member of the specified set carries a version-constraint text other than
/// the unconstrained wildcard.
pub proof fn lemma_no_wildcard_in_dep_set(
    specs: Seq<Seq<char>>,
    d: (DependencyKind, Seq<char>, Seq<char>, Option<Seq<char>>),
)
    requires
        forall|i: int| 0 <= i < specs.len() ==> dep_entry_ok(#[trigger] specs[i]),
        spec_dep_set(specs).contains(d),
    ensures
        d.2 != star_text(),
{
    let i = choose|i: int|
        0 <= i < specs.len() && is_dep_scheme(#[trigger] specs[i]) && d == dep_of(specs[i]);
    assert(dep_entry_ok(specs[i]));
}

} // verus!
