//! Character-level text utilities shared by the policy checks: Unicode
//! whitespace, substring search, and prefix matching over character vectors.

use vstd::prelude::*;

verus! {

/// Unicode white space (the `White_Space` property): the character class the
/// whitespace-tolerant directive matching admits between tokens.
pub open spec fn is_space(c: char) -> bool {
    ||| c as u32 == 0x20
    ||| (0x09 <= c as u32 && c as u32 <= 0x0D)
    ||| c as u32 == 0x85
    ||| c as u32 == 0xA0
    ||| c as u32 == 0x1680
    ||| (0x2000 <= c as u32 && c as u32 <= 0x200A)
    ||| c as u32 == 0x2028
    ||| c as u32 == 0x2029
    ||| c as u32 == 0x202F
    ||| c as u32 == 0x205F
    ||| c as u32 == 0x3000
}

/// Decides `is_space`.
pub fn is_space_char(c: char) -> (r: bool)
    ensures
        r == is_space(c),
{
    let u = c as u32;
    u == 0x20 || (0x09 <= u && u <= 0x0D) || u == 0x85 || u == 0xA0 || u == 0x1680 || (0x2000 <= u
        && u <= 0x200A) || u == 0x2028 || u == 0x2029 || u == 0x202F || u == 0x205F || u == 0x3000
}

/// The pattern `pat` occurs in `hay` starting at index `i`.
pub open spec fn seq_at(hay: Seq<char>, i: int, pat: Seq<char>) -> bool {
    0 <= i && i + pat.len() <= hay.len() && hay.subrange(i, i + pat.len()) == pat
}

/// The pattern occurs somewhere in `hay`.
pub open spec fn contains_seq(hay: Seq<char>, pat: Seq<char>) -> bool {
    exists|i: int| seq_at(hay, i, pat)
}

/// Does `hay[i..]` start with `pat`?
pub fn match_at<const N: usize>(hay: &Vec<char>, i: usize, pat: &[char; N]) -> (r: bool)
    ensures
        r == seq_at(hay@, i as int, pat@),
{
    if i > hay.len() || N > hay.len() - i {
        assert(!seq_at(hay@, i as int, pat@));
        return false;
    }
    let mut j: usize = 0;
    while j < N
        invariant
            0 <= j <= N,
            i + N <= hay.len(),
            pat@.len() == N,
            forall|k: int| 0 <= k < j ==> hay@[i + k] == pat@[k],
        decreases N - j,
    {
        if hay[i + j] != pat[j] {
            assert(hay@.subrange(i as int, i + N) != pat@) by {
                assert(hay@.subrange(i as int, i + N)[j as int] == hay@[i + j]);
            }
            return false;
        }
        j += 1;
    }
    assert(hay@.subrange(i as int, i + N) =~= pat@);
    true
}

/// Does `hay` contain `pat` anywhere?
pub fn contains_chars<const N: usize>(hay: &Vec<char>, pat: &[char; N]) -> (r: bool)
    ensures
        r == contains_seq(hay@, pat@),
{
    if N == 0 {
        assert(seq_at(hay@, 0, pat@)) by {
            assert(hay@.subrange(0, 0) =~= pat@);
        }
        return true;
    }
    if N > hay.len() {
        assert(forall|i: int| !seq_at(hay@, i, pat@));
        return false;
    }
    let mut i: usize = 0;
    while i <= hay.len() - N
        invariant
            1 <= N <= hay.len(),
            pat@.len() == N,
            0 <= i <= hay.len() - N + 1,
            forall|k: int| 0 <= k < i ==> !seq_at(hay@, k, pat@),
        decreases hay.len() - N - i + 1,
    {
        if match_at(hay, i, pat) {
            return true;
        }
        i += 1;
    }
    assert(forall|k: int| !seq_at(hay@, k, pat@)) by {
        assert(forall|k: int| k > hay@.len() - N ==> !seq_at(hay@, k, pat@));
    }
    false
}

/// The first index at or after `i` where `c` occurs, or the length of `s` if
/// it does not occur there.
pub open spec fn find_from(s: Seq<char>, i: int, c: char) -> int
    decreases s.len() - i,
{
    if i < 0 {
        find_from(s, 0, c)
    } else if i >= s.len() {
        s.len() as int
    } else if s[i] == c {
        i
    } else {
        find_from(s, i + 1, c)
    }
}

/// `find_from` stays between its start index and the length of the sequence,
/// finds `c` where it says it does, and skips no earlier occurrence.
pub proof fn lemma_find_from(s: Seq<char>, i: int, c: char)
    requires
        0 <= i <= s.len(),
    ensures
        i <= find_from(s, i, c) <= s.len(),
        find_from(s, i, c) < s.len() ==> s[find_from(s, i, c)] == c,
        forall|k: int| i <= k < find_from(s, i, c) ==> s[k] != c,
    decreases s.len() - i,
{
    if i < s.len() && s[i] != c {
        lemma_find_from(s, i + 1, c);
    }
}

/// Decides `find_from`.
pub fn find_char(s: &Vec<char>, i: usize, c: char) -> (r: usize)
    requires
        i <= s.len(),
    ensures
        r == find_from(s@, i as int, c),
{
    let mut j: usize = i;
    while j < s.len() && s[j] != c
        invariant
            i <= j <= s.len(),
            find_from(s@, i as int, c) == find_from(s@, j as int, c),
        decreases s.len() - j,
    {
        j += 1;
    }
    j
}

/// The first index at or after `i` holding a character that is not Unicode
/// white space, or the length of `s`.
pub open spec fn skip_spaces(s: Seq<char>, i: int) -> int
    decreases s.len() - i,
{
    if i < 0 {
        skip_spaces(s, 0)
    } else if i < s.len() && is_space(s[i]) {
        skip_spaces(s, i + 1)
    } else {
        i
    }
}

/// Decides `skip_spaces`.
pub fn skip_spaces_from(s: &Vec<char>, i: usize) -> (r: usize)
    requires
        i <= s.len(),
    ensures
        r == skip_spaces(s@, i as int),
        i <= r <= s.len(),
{
    let mut j: usize = i;
    while j < s.len() && is_space_char(s[j])
        invariant
            i <= j <= s.len(),
            skip_spaces(s@, i as int) == skip_spaces(s@, j as int),
        decreases s.len() - j,
    {
        j += 1;
    }
    j
}

/// Case-insensitive equality of two ASCII characters; characters outside the
/// ASCII letters must match exactly.
pub open spec fn ascii_eq_ci(a: char, b: char) -> bool {
    ||| a == b
    ||| (0x41 <= a as u32 && a as u32 <= 0x5A && a as u32 + 0x20 == b as u32)
    ||| (0x41 <= b as u32 && b as u32 <= 0x5A && b as u32 + 0x20 == a as u32)
}

/// The two sequences are equal up to ASCII case.
pub open spec fn seq_eq_ci(a: Seq<char>, b: Seq<char>) -> bool {
    a.len() == b.len() && forall|k: int| 0 <= k < a.len() ==> ascii_eq_ci(a[k], b[k])
}

/// Decides `seq_eq_ci` against a fixed pattern.
pub fn eq_ignore_case<const N: usize>(s: &Vec<char>, lo: usize, hi: usize, pat: &[char; N]) -> (r:
    bool)
    requires
        lo <= hi <= s.len(),
    ensures
        r == seq_eq_ci(s@.subrange(lo as int, hi as int), pat@),
{
    let ghost sub = s@.subrange(lo as int, hi as int);
    if hi - lo != N {
        return false;
    }
    let mut j: usize = 0;
    while j < N
        invariant
            lo <= hi <= s.len(),
            hi - lo == N,
            pat@.len() == N,
            sub == s@.subrange(lo as int, hi as int),
            forall|k: int| 0 <= k < j ==> ascii_eq_ci(sub[k], pat@[k]),
        decreases N - j,
    {
        let ca = s[lo + j];
        let cb = pat[j];
        let a = ca as u32;
        let b = cb as u32;
        let ok = ca == cb || (0x41 <= a && a <= 0x5A && a + 0x20 == b) || (0x41 <= b && b <= 0x5A
            && b + 0x20 == a);
        assert(sub[j as int] == s@[lo + j]);
        if !ok {
            assert(!ascii_eq_ci(sub[j as int], pat@[j as int]));
            return false;
        }
        j += 1;
    }
    true
}

/// Equality of two character vectors.
pub fn chars_eq(a: &Vec<char>, b: &Vec<char>) -> (r: bool)
    ensures
        r == (a@ == b@),
{
    if a.len() != b.len() {
        return false;
    }
    let n = a.len();
    let mut i: usize = 0;
    while i < n
        invariant
            n == a.len() == b.len(),
            0 <= i <= n,
            forall|k: int| 0 <= k < i ==> a@[k] == b@[k],
        decreases n - i,
    {
        if a[i] != b[i] {
            return false;
        }
        i += 1;
    }
    proof {
        assert(a@ =~= b@);
    }
    true
}

/// A copy of a byte vector.
pub fn clone_bytes(b: &Vec<u8>) -> (r: Vec<u8>)
    ensures
        r@ == b@,
{
    let n = b.len();
    let mut r: Vec<u8> = Vec::new();
    let mut i: usize = 0;
    while i < n
        invariant
            n == b.len(),
            0 <= i <= n,
            r@ == b@.subrange(0, i as int),
        decreases n - i,
    {
        r.push(b[i]);
        proof {
            assert(r@ =~= b@.subrange(0, i + 1));
        }
        i += 1;
    }
    proof {
        assert(b@.subrange(0, n as int) =~= b@);
    }
    r
}

/// First-match lookup in an association list keyed by character sequences.
pub open spec fn assoc_get<V>(s: Seq<(Seq<char>, V)>, key: Seq<char>) -> Option<V>
    decreases s.len(),
{
    if s.len() == 0 {
        None
    } else if s[0].0 == key {
        Some(s[0].1)
    } else {
        assoc_get(s.drop_first(), key)
    }
}

/// A found key is some entry's key, and a missing key is no entry's key.
pub proof fn lemma_assoc_get<V>(s: Seq<(Seq<char>, V)>, key: Seq<char>)
    ensures
        assoc_get(s, key) is Some <==> exists|j: int| 0 <= j < s.len() && (#[trigger] s[j].0)
            == key,
    decreases s.len(),
{
    if s.len() > 0 {
        lemma_assoc_get(s.drop_first(), key);
        if s[0].0 != key {
            if assoc_get(s.drop_first(), key) is Some {
                let j = choose|j: int|
                    0 <= j < s.drop_first().len() && (#[trigger] s.drop_first()[j].0) == key;
                assert(s[j + 1].0 == key);
            }
            if exists|j: int| 0 <= j < s.len() && (#[trigger] s[j].0) == key {
                let j = choose|j: int| 0 <= j < s.len() && (#[trigger] s[j].0) == key;
                assert(s.drop_first()[j - 1].0 == key);
            }
        }
    }
}

/// With pairwise-distinct keys, the looked-up value is the value of the one
/// entry carrying the key.
pub proof fn lemma_assoc_get_distinct<V>(s: Seq<(Seq<char>, V)>, j: int)
    requires
        forall|a: int, b: int| 0 <= a < b < s.len() ==> (#[trigger] s[a].0) != (#[trigger] s[b].0),
        0 <= j < s.len(),
    ensures
        assoc_get(s, s[j].0) == Some(s[j].1),
    decreases s.len(),
{
    if j == 0 {
    } else {
        assert(s[0].0 != s[j].0);
        lemma_assoc_get_distinct(s.drop_first(), j - 1);
    }
}

/// Relies on `str::strip_prefix`: removes a leading `.` exactly when the
/// string starts with one.
#[verifier::external_body]
pub(crate) fn strip_dot_prefix(s: &str) -> (r: Option<&str>)
    ensures
        r matches Some(t) ==> s@.len() >= 1 && s@[0] == '.' && t@ == s@.drop_first(),
        r is None ==> !(s@.len() >= 1 && s@[0] == '.'),
{
    s.strip_prefix('.')
}

/// Relies on `str::chars`: yields the characters of the string in order.
#[verifier::external_body]
pub(crate) fn chars_vec(s: &str) -> (r: Vec<char>)
    ensures
        r@ == s@,
{
    s.chars().collect()
}

/// Relies on `<str as PartialEq>::eq`: string slices compare equal exactly
/// when their characters do.
#[verifier::external_body]
pub(crate) fn str_eq(a: &str, b: &str) -> (r: bool)
    ensures
        r == (a@ == b@),
{
    a == b
}

} // verus!
