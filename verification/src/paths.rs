//! Validated package-relative paths and the immutable file set of one
//! analysis run.
//!
//! A package path is the key of the file set and the tail of every in-package
//! module specifier. Validation admits only a conservative character set, a
//! single leading separator, no empty and no `.`/`..` segments, so that a
//! validated path never traverses outside the package and embeds verbatim
//! into a `file://` specifier.

use vstd::prelude::*;

use crate::text::assoc_get;
use crate::text::chars_eq;
use crate::text::chars_vec;
use crate::text::eq_ignore_case;
use crate::text::seq_eq_ci;
use crate::text::str_eq;

verus! {

/// A character allowed inside a package path segment: ASCII alphanumerics
/// and `- _ . ~ +`.
pub open spec fn is_path_char(c: char) -> bool {
    ||| (0x61 <= c as u32 && c as u32 <= 0x7A)  // a-z
    ||| (0x41 <= c as u32 && c as u32 <= 0x5A)  // A-Z
    ||| (0x30 <= c as u32 && c as u32 <= 0x39)  // 0-9
    ||| c == '-'
    ||| c == '_'
    ||| c == '.'
    ||| c == '~'
    ||| c == '+'
}

/// The path has a `.` segment starting at the separator at index `k`.
pub open spec fn dot_segment_at(s: Seq<char>, k: int) -> bool {
    &&& 0 <= k && k + 1 < s.len()
    &&& s[k] == '/'
    &&& s[k + 1] == '.'
    &&& (k + 2 >= s.len() || s[k + 2] == '/')
}

/// The path has a `..` segment starting at the separator at index `k`.
pub open spec fn dot_dot_segment_at(s: Seq<char>, k: int) -> bool {
    &&& 0 <= k && k + 2 < s.len()
    &&& s[k] == '/'
    &&& s[k + 1] == '.'
    &&& s[k + 2] == '.'
    &&& (k + 3 >= s.len() || s[k + 3] == '/')
}

/// A valid package-relative path: starts with `/`, does not end with `/`,
/// has no empty segment, no `.` or `..` segment, and uses only the
/// conservative character set.
pub open spec fn is_valid_package_path(s: Seq<char>) -> bool {
    &&& s.len() >= 2
    &&& s[0] == '/'
    &&& s[s.len() - 1] != '/'
    &&& (forall|k: int| 0 <= k < s.len() ==> is_path_char(#[trigger] s[k]) || s[k] == '/')
    &&& (forall|k: int| 0 <= k < s.len() - 1 ==> !(#[trigger] s[k] == '/' && s[k + 1] == '/'))
    &&& (forall|k: int| !dot_segment_at(s, k) && !dot_dot_segment_at(s, k))
}

/// The characters of `readme.md`.
pub open spec fn readme_md_name() -> Seq<char> {
    seq!['r', 'e', 'a', 'd', 'm', 'e', '.', 'm', 'd']
}

/// The characters of `readme.txt`.
pub open spec fn readme_txt_name() -> Seq<char> {
    seq!['r', 'e', 'a', 'd', 'm', 'e', '.', 't', 'x', 't']
}

/// The characters of `readme`.
pub open spec fn readme_bare_name() -> Seq<char> {
    seq!['r', 'e', 'a', 'd', 'm', 'e']
}

/// The path names a readme: a root-level file whose name is `readme.md`,
/// `readme.txt` or `readme`, compared without regard to ASCII case.
pub open spec fn is_readme_path(s: Seq<char>) -> bool {
    &&& s.len() >= 1
    &&& s[0] == '/'
    &&& (forall|k: int| 1 <= k < s.len() ==> #[trigger] s[k] != '/')
    &&& {
        ||| seq_eq_ci(s.subrange(1, s.len() as int), readme_md_name())
        ||| seq_eq_ci(s.subrange(1, s.len() as int), readme_txt_name())
        ||| seq_eq_ci(s.subrange(1, s.len() as int), readme_bare_name())
    }
}

/// Decides `is_valid_package_path`.
pub fn check_path_chars(chars: &Vec<char>) -> (r: bool)
    ensures
        r == is_valid_package_path(chars@),
{
    let n = chars.len();
    if n < 2 || chars[0] != '/' || chars[n - 1] == '/' {
        return false;
    }
    let mut k: usize = 0;
    while k < n
        invariant
            n == chars.len(),
            n >= 2,
            forall|j: int| 0 <= j < k ==> is_path_char(#[trigger] chars@[j]) || chars@[j] == '/',
            forall|j: int| 0 <= j < k ==> j < n - 1 ==> !(#[trigger] chars@[j] == '/' && chars@[j + 1] == '/'),
            forall|j: int| 0 <= j < k ==> !dot_segment_at(chars@, j) && !dot_dot_segment_at(chars@, j),
        decreases n - k,
    {
        let c = chars[k];
        let u = c as u32;
        let ok = (0x61 <= u && u <= 0x7A) || (0x41 <= u && u <= 0x5A) || (0x30 <= u && u
            <= 0x39) || c == '-' || c == '_' || c == '.' || c == '~' || c == '+' || c == '/';
        if !ok {
            assert(!(is_path_char(chars@[k as int]) || chars@[k as int] == '/'));
            return false;
        }
        if c == '/' {
            if k + 1 < n && chars[k + 1] == '/' {
                return false;
            }
            if k + 1 < n && chars[k + 1] == '.' {
                if k + 2 >= n || chars[k + 2] == '/' {
                    assert(dot_segment_at(chars@, k as int));
                    return false;
                }
                if chars[k + 2] == '.' && (k + 3 >= n || chars[k + 3] == '/') {
                    assert(dot_dot_segment_at(chars@, k as int));
                    return false;
                }
            }
        }
        assert(!dot_segment_at(chars@, k as int));
        assert(!dot_dot_segment_at(chars@, k as int));
        k += 1;
    }
    assert(forall|j: int| (j < 0 || j >= n) ==> !dot_segment_at(chars@, j)
        && !dot_dot_segment_at(chars@, j));
    true
}

/// A validated package-relative path.
pub struct PackagePath {
    text: String,
}

impl View for PackagePath {
    type V = Seq<char>;

    closed spec fn view(&self) -> Seq<char> {
        self.text@
    }
}

/// The invariant of every constructed path: its text is valid.
#[verifier::type_invariant]
pub open spec fn package_path_wf(p: &PackagePath) -> bool {
    is_valid_package_path(p@)
}

impl PackagePath {
    /// Validates `text` as a package path; `None` exactly on invalid input.
    pub fn new(text: String) -> (r: Option<PackagePath>)
        ensures
            r is Some <==> is_valid_package_path(text@),
            r matches Some(p) ==> p@ == text@,
    {
        let chars = chars_vec(text.as_str());
        if check_path_chars(&chars) {
            Some(PackagePath { text })
        } else {
            None
        }
    }

    /// The path as a string slice.
    pub fn as_str(&self) -> (r: &str)
        ensures
            r@ == self@,
    {
        self.text.as_str()
    }

    /// The characters of the path.
    pub fn chars(&self) -> (r: Vec<char>)
        ensures
            r@ == self@,
    {
        chars_vec(self.text.as_str())
    }

    /// Equality of two paths' texts.
    pub fn path_eq(&self, other: &PackagePath) -> (r: bool)
        ensures
            r == (self@ == other@),
    {
        self.text == other.text
    }

    /// Does this path name a root-level readme file (case-insensitive)?
    pub fn is_readme(&self) -> (r: bool)
        ensures
            r == is_readme_path(self@),
    {
        proof {
            use_type_invariant(self);
        }
        let chars = self.chars();
        let n = chars.len();
        let mut k: usize = 1;
        while k < n
            invariant
                n == chars.len(),
                chars@ == self@,
                n >= 1,
                1 <= k,
                forall|j: int| 1 <= j < k ==> chars@[j] != '/',
            decreases n - k,
        {
            if chars[k] == '/' {
                return false;
            }
            k += 1;
        }
        eq_ignore_case(&chars, 1, n, &['r', 'e', 'a', 'd', 'm', 'e', '.', 'm', 'd'])
            || eq_ignore_case(&chars, 1, n, &['r', 'e', 'a', 'd', 'm', 'e', '.', 't', 'x', 't'])
            || eq_ignore_case(&chars, 1, n, &['r', 'e', 'a', 'd', 'm', 'e'])
    }
}

/// The immutable mapping from package path to byte content for one run.
/// Entries are kept in insertion order; lookup takes the first match, and
/// `insert` refuses a path that is already present, so a set built through
/// it keeps one entry per path.
pub struct FileSet {
    entries: Vec<(PackagePath, Vec<u8>)>,
}

impl View for FileSet {
    type V = Seq<(Seq<char>, Seq<u8>)>;

    closed spec fn view(&self) -> Seq<(Seq<char>, Seq<u8>)> {
        self.entries@.map(|i: int, e: (PackagePath, Vec<u8>)| (e.0@, e.1@))
    }
}

impl FileSet {
    /// The empty file set.
    pub fn new() -> (r: FileSet)
        ensures
            r@ == Seq::<(Seq<char>, Seq<u8>)>::empty(),
    {
        let r = FileSet { entries: Vec::new() };
        proof {
            assert(r@ =~= Seq::<(Seq<char>, Seq<u8>)>::empty());
        }
        r
    }

    /// Number of files.
    pub fn len(&self) -> (r: usize)
        ensures
            r == self@.len(),
    {
        self.entries.len()
    }

    /// The path of the entry at `i`.
    pub fn path_at(&self, i: usize) -> (r: &PackagePath)
        requires
            i < self@.len(),
        ensures
            r@ == self@[i as int].0,
    {
        &self.entries[i].0
    }

    /// The content of the entry at `i`.
    pub fn bytes_at(&self, i: usize) -> (r: &Vec<u8>)
        requires
            i < self@.len(),
        ensures
            r@ == self@[i as int].1,
    {
        &self.entries[i].1
    }

    /// Adds a file; refuses (and leaves the set unchanged) when the path is
    /// already present.
    pub fn insert(&mut self, path: PackagePath, bytes: Vec<u8>) -> (r: bool)
        ensures
            r == (assoc_get(old(self)@, path@) is None),
            r ==> final(self)@ == old(self)@.push((path@, bytes@)),
            !r ==> final(self)@ == old(self)@,
    {
        if self.get(path.as_str()).is_some() {
            return false;
        }
        let ghost p = path@;
        let ghost b = bytes@;
        self.entries.push((path, bytes));
        proof {
            assert(self@ =~= old(self)@.push((p, b)));
        }
        true
    }

    /// Looks a path up; `Some` exactly when an entry has that path.
    pub fn get(&self, path: &str) -> (r: Option<&Vec<u8>>)
        ensures
            r is Some <==> assoc_get(self@, path@) is Some,
            r matches Some(b) ==> assoc_get(self@, path@) == Some(b@),
    {
        let mut i: usize = 0;
        let n = self.entries.len();
        proof {
            assert(self@.skip(0) =~= self@);
        }
        while i < n
            invariant
                n == self.entries.len(),
                n == self@.len(),
                0 <= i <= n,
                assoc_get(self@, path@) == assoc_get(self@.skip(i as int), path@),
            decreases n - i,
        {
            assert(self@.skip(i as int)[0] == self@[i as int]);
            if str_eq(self.entries[i].0.as_str(), path) {
                assert(assoc_get(self@.skip(i as int), path@) == Some(self@[i as int].1));
                return Some(&self.entries[i].1);
            }
            proof {
                assert(self@.skip(i as int).drop_first() =~= self@.skip(i as int + 1));
            }
            i += 1;
        }
        assert(self@.skip(n as int) =~= Seq::<(Seq<char>, Seq<u8>)>::empty());
        None
    }

    /// Does the set contain the path?
    pub fn contains(&self, path: &str) -> (r: bool)
        ensures
            r == (assoc_get(self@, path@) is Some),
    {
        self.get(path).is_some()
    }

    /// The index of the first readme entry, or `None` when no path names a
    /// readme.
    pub fn find_readme(&self) -> (r: Option<usize>)
        ensures
            r matches Some(i) ==> i < self@.len() && is_readme_path(self@[i as int].0) && (forall|
                j: int,
            |
                0 <= j < i ==> !is_readme_path(#[trigger] self@[j].0)),
            r is None ==> forall|j: int| 0 <= j < self@.len() ==> !is_readme_path(
                #[trigger] self@[j].0,
            ),
    {
        let n = self.entries.len();
        let mut i: usize = 0;
        while i < n
            invariant
                n == self.entries.len(),
                n == self@.len(),
                0 <= i <= n,
                forall|j: int| 0 <= j < i ==> !is_readme_path(#[trigger] self@[j].0),
            decreases n - i,
        {
            if self.entries[i].0.is_readme() {
                return Some(i);
            }
            i += 1;
        }
        None
    }

    /// Looks a path up by its characters; `Some` exactly when an entry has
    /// that path.
    pub fn get_chars(&self, path: &Vec<char>) -> (r: Option<&Vec<u8>>)
        ensures
            r is Some <==> assoc_get(self@, path@) is Some,
            r matches Some(b) ==> assoc_get(self@, path@) == Some(b@),
    {
        let mut i: usize = 0;
        let n = self.entries.len();
        proof {
            assert(self@.skip(0) =~= self@);
        }
        while i < n
            invariant
                n == self.entries.len(),
                n == self@.len(),
                0 <= i <= n,
                assoc_get(self@, path@) == assoc_get(self@.skip(i as int), path@),
            decreases n - i,
        {
            assert(self@.skip(i as int)[0] == self@[i as int]);
            let entry_chars = self.entries[i].0.chars();
            if chars_eq(&entry_chars, path) {
                assert(assoc_get(self@.skip(i as int), path@) == Some(self@[i as int].1));
                return Some(&self.entries[i].1);
            }
            proof {
                assert(self@.skip(i as int).drop_first() =~= self@.skip(i as int + 1));
            }
            i += 1;
        }
        assert(self@.skip(n as int) =~= Seq::<(Seq<char>, Seq<u8>)>::empty());
        None
    }
}

/// A set of declared package paths, for the pipeline variant that knows the
/// paths of a version's files without holding their contents.
pub struct PathSet {
    entries: Vec<PackagePath>,
}

impl View for PathSet {
    type V = Seq<Seq<char>>;

    closed spec fn view(&self) -> Seq<Seq<char>> {
        self.entries@.map(|i: int, p: PackagePath| p@)
    }
}

impl PathSet {
    /// The empty path set.
    pub fn new() -> (r: PathSet)
        ensures
            r@ == Seq::<Seq<char>>::empty(),
    {
        let r = PathSet { entries: Vec::new() };
        proof {
            assert(r@ =~= Seq::<Seq<char>>::empty());
        }
        r
    }

    /// Adds a path.
    pub fn push(&mut self, path: PackagePath)
        ensures
            final(self)@ == old(self)@.push(path@),
    {
        let ghost p = path@;
        self.entries.push(path);
        proof {
            assert(self@ =~= old(self)@.push(p));
        }
    }

    /// Does the set hold the path given by its characters?
    pub fn contains_chars(&self, path: &Vec<char>) -> (r: bool)
        ensures
            r == self@.contains(path@),
    {
        let n = self.entries.len();
        let mut i: usize = 0;
        while i < n
            invariant
                n == self.entries.len(),
                n == self@.len(),
                0 <= i <= n,
                forall|j: int| 0 <= j < i ==> (#[trigger] self@[j]) != path@,
            decreases n - i,
        {
            let entry_chars = self.entries[i].chars();
            if chars_eq(&entry_chars, path) {
                assert(self@[i as int] == path@);
                return true;
            }
            i += 1;
        }
        assert(!self@.contains(path@));
        false
    }
}

} // verus!
