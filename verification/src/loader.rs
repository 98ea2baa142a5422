//! Content-loading decisions for the two content sources.
//!
//! The in-memory source answers from the file set; the remote source first
//! checks a declared path set and then defers the actual download to its
//! caller. Both materialize only `file` and `data` specifiers; remote
//! registry schemes, runtime built-ins and virtual schemes are external to
//! the graph, and anything else does not exist. A malformed in-package path
//! means the module does not exist — it is not a policy violation.

use vstd::prelude::*;

use crate::deps::bun_word;
use crate::deps::cloudflare_word;
use crate::deps::data_word;
use crate::deps::file_word;
use crate::deps::http_word;
use crate::deps::https_word;
use crate::deps::jsr_word;
use crate::deps::node_word;
use crate::deps::npm_word;
use crate::deps::scheme_of;
use crate::deps::virtual_word;
use crate::paths::FileSet;
use crate::paths::PathSet;
use crate::paths::check_path_chars;
use crate::paths::is_valid_package_path;
use crate::text::assoc_get;
use crate::text::chars_vec;
use crate::text::clone_bytes;
use crate::text::find_char;
use crate::text::find_from;
use crate::text::lemma_find_from;
use crate::text::match_at;

verus! {

/// The path component of a `file://` specifier: the characters from the
/// first separator after the scheme-and-authority prefix up to the first
/// `?` or `#`.
pub open spec fn file_url_path(s: Seq<char>) -> Seq<char> {
    let p0 = find_from(s, 7, '/');
    let q = find_from(s, p0, '?');
    let h = find_from(s, p0, '#');
    s.subrange(p0, if q < h { q } else { h })
}

/// Extracts `file_url_path` of a specifier's characters.
pub fn file_url_path_chars(chars: &Vec<char>) -> (r: Vec<char>)
    ensures
        r@ == file_url_path(chars@),
{
    let p0: usize = if chars.len() < 7 {
        chars.len()
    } else {
        find_char(chars, 7, '/')
    };
    proof {
        if chars@.len() >= 7 {
            lemma_find_from(chars@, 7, '/');
        }
    }
    let q = find_char(chars, p0, '?');
    let h = find_char(chars, p0, '#');
    let end: usize = if q < h {
        q
    } else {
        h
    };
    proof {
        lemma_find_from(chars@, p0 as int, '?');
        lemma_find_from(chars@, p0 as int, '#');
    }
    let mut r: Vec<char> = Vec::new();
    let mut k: usize = p0;
    proof {
        assert(r@ =~= chars@.subrange(p0 as int, p0 as int));
    }
    while k < end
        invariant
            p0 <= k <= end <= chars.len(),
            r@ == chars@.subrange(p0 as int, k as int),
        decreases end - k,
    {
        r.push(chars[k]);
        proof {
            assert(r@ =~= chars@.subrange(p0 as int, k + 1));
        }
        k += 1;
    }
    r
}

/// Schemes the in-memory source treats as external: remote registries,
/// network URLs, runtime built-ins and virtual schemes.
pub open spec fn local_external_scheme(sc: Seq<char>) -> bool {
    ||| sc == http_word()
    ||| sc == https_word()
    ||| sc == node_word()
    ||| sc == npm_word()
    ||| sc == jsr_word()
    ||| sc == bun_word()
    ||| sc == virtual_word()
    ||| sc == cloudflare_word()
}

/// Schemes the remote-backed source treats as external.
pub open spec fn remote_external_scheme(sc: Seq<char>) -> bool {
    ||| sc == http_word()
    ||| sc == https_word()
    ||| sc == node_word()
    ||| sc == npm_word()
    ||| sc == jsr_word()
    ||| sc == bun_word()
}

/// What the in-memory content source answers for a specifier.
pub enum LoadDecision {
    /// An in-package module: its byte content.
    Module { content: Vec<u8> },
    /// A specifier whose content the graph must not fetch.
    External,
    /// A data URL, decoded by the caller.
    DataUrl,
    /// No such module.
    NotFound,
}

/// What the remote-backed content source decides for a specifier.
pub enum RemoteLoadDecision {
    /// A declared in-package module: fetch its content from the store.
    Fetch,
    /// A specifier whose content the graph must not fetch.
    External,
    /// A data URL, decoded by the caller.
    DataUrl,
    /// No such module, or one not declared as part of the package.
    NotFound,
}

/// Compares the scheme of `chars` (whose first `:` is at `f`) with a word.
fn scheme_is<const N: usize>(chars: &Vec<char>, f: usize, w: &[char; N]) -> (r: bool)
    requires
        f == find_from(chars@, 0, ':'),
        f <= chars.len(),
    ensures
        r == (scheme_of(chars@) == w@),
{
    if f != N {
        proof {
            assert(scheme_of(chars@).len() == f);
        }
        return false;
    }
    let m = match_at(chars, 0, w);
    proof {
        if m {
            assert(scheme_of(chars@) =~= w@);
        } else {
            assert(scheme_of(chars@) == chars@.subrange(0, N as int));
        }
    }
    m
}

/// Answers a load request from the in-memory file set.
///
/// A `file` specifier is materialized when its path component validates as
/// a package path and names a file of the set; a malformed or unknown path
/// does not exist. Registry, network, built-in and virtual schemes are
/// external; `data` is decoded by the caller; any other scheme does not
/// exist.
pub fn local_load_decision(files: &FileSet, specifier: &str) -> (r: LoadDecision)
    ensures
        scheme_of(specifier@) == file_word() ==> {
            let p = file_url_path(specifier@);
            if is_valid_package_path(p) {
                match assoc_get(files@, p) {
                    Some(b) => r matches LoadDecision::Module { content } && content@ == b,
                    None => r is NotFound,
                }
            } else {
                r is NotFound
            }
        },
        local_external_scheme(scheme_of(specifier@)) ==> r is External,
        scheme_of(specifier@) == data_word() ==> r is DataUrl,
        !(scheme_of(specifier@) == file_word() || local_external_scheme(scheme_of(specifier@))
            || scheme_of(specifier@) == data_word()) ==> r is NotFound,
{
    let chars = chars_vec(specifier);
    let f = find_char(&chars, 0, ':');
    proof {
        lemma_find_from(chars@, 0, ':');
    }
    if scheme_is(&chars, f, &['f', 'i', 'l', 'e']) {
        let path = file_url_path_chars(&chars);
        if !check_path_chars(&path) {
            return LoadDecision::NotFound;
        }
        match files.get_chars(&path) {
            Some(bytes) => LoadDecision::Module { content: clone_bytes(bytes) },
            None => LoadDecision::NotFound,
        }
    } else if scheme_is(&chars, f, &['h', 't', 't', 'p']) || scheme_is(
        &chars,
        f,
        &['h', 't', 't', 'p', 's'],
    ) || scheme_is(&chars, f, &['n', 'o', 'd', 'e']) || scheme_is(&chars, f, &['n', 'p', 'm'])
        || scheme_is(&chars, f, &['j', 's', 'r']) || scheme_is(&chars, f, &['b', 'u', 'n'])
        || scheme_is(&chars, f, &['v', 'i', 'r', 't', 'u', 'a', 'l']) || scheme_is(
        &chars,
        f,
        &['c', 'l', 'o', 'u', 'd', 'f', 'l', 'a', 'r', 'e'],
    ) {
        LoadDecision::External
    } else if scheme_is(&chars, f, &['d', 'a', 't', 'a']) {
        LoadDecision::DataUrl
    } else {
        LoadDecision::NotFound
    }
}

/// Decides a load request against the declared path set of the remote-backed
/// source.
///
/// A `file` specifier is fetched only when its path validates and is
/// declared part of the package: content that was not declared is never
/// requested from the store. The external schemes here do not include the
/// virtual ones, which the remote pipeline treats as nonexistent.
pub fn remote_load_decision(declared: &PathSet, specifier: &str) -> (r: RemoteLoadDecision)
    ensures
        scheme_of(specifier@) == file_word() ==> {
            let p = file_url_path(specifier@);
            if is_valid_package_path(p) && declared@.contains(p) {
                r is Fetch
            } else {
                r is NotFound
            }
        },
        remote_external_scheme(scheme_of(specifier@)) ==> r is External,
        scheme_of(specifier@) == data_word() ==> r is DataUrl,
        !(scheme_of(specifier@) == file_word() || remote_external_scheme(scheme_of(specifier@))
            || scheme_of(specifier@) == data_word()) ==> r is NotFound,
{
    let chars = chars_vec(specifier);
    let f = find_char(&chars, 0, ':');
    proof {
        lemma_find_from(chars@, 0, ':');
    }
    if scheme_is(&chars, f, &['f', 'i', 'l', 'e']) {
        let path = file_url_path_chars(&chars);
        if !check_path_chars(&path) {
            return RemoteLoadDecision::NotFound;
        }
        if declared.contains_chars(&path) {
            RemoteLoadDecision::Fetch
        } else {
            RemoteLoadDecision::NotFound
        }
    } else if scheme_is(&chars, f, &['h', 't', 't', 'p']) || scheme_is(
        &chars,
        f,
        &['h', 't', 't', 'p', 's'],
    ) || scheme_is(&chars, f, &['n', 'o', 'd', 'e']) || scheme_is(&chars, f, &['n', 'p', 'm'])
        || scheme_is(&chars, f, &['j', 's', 'r']) || scheme_is(&chars, f, &['b', 'u', 'n']) {
        RemoteLoadDecision::External
    } else if scheme_is(&chars, f, &['d', 'a', 't', 'a']) {
        RemoteLoadDecision::DataUrl
    } else {
        RemoteLoadDecision::NotFound
    }
}

} // verus!
