//! The banned triple-slash reference directive.
//!
//! A leading line comment whose text matches
//! `^/\s+<reference\s+(no-default-lib\s*=\s*"true"|lib\s*=\s*("[^"]+"|'[^']+'))\s*/>\s*$`
//! is rejected. The text of a line comment `///<rest>` starts after the
//! leading `//`, so a directive's text starts with the third slash. The
//! matcher below is that pattern written out over characters: each `\s` run
//! is maximal (every token following a run starts with a non-space), so the
//! pattern has exactly one possible decomposition and a functional
//! recognizer decides it.

use vstd::prelude::*;

use crate::text::find_char;
use crate::text::find_from;
use crate::text::is_space;
use crate::text::match_at;
use crate::text::seq_at;
use crate::text::skip_spaces;
use crate::text::skip_spaces_from;

verus! {

/// The characters of `<reference`.
pub open spec fn reference_word() -> Seq<char> {
    seq!['<', 'r', 'e', 'f', 'e', 'r', 'e', 'n', 'c', 'e']
}

/// The characters of `no-default-lib`.
pub open spec fn no_default_lib_word() -> Seq<char> {
    seq!['n', 'o', '-', 'd', 'e', 'f', 'a', 'u', 'l', 't', '-', 'l', 'i', 'b']
}

/// The characters of `lib`.
pub open spec fn lib_word() -> Seq<char> {
    seq!['l', 'i', 'b']
}

/// The characters of `"true"`, quotes included.
pub open spec fn quoted_true_word() -> Seq<char> {
    seq!['"', 't', 'r', 'u', 'e', '"']
}

/// Recognizes `no-default-lib\s*=\s*"true"` starting at `i`; yields the
/// index one past the attribute value.
pub open spec fn no_default_lib_attr_end(s: Seq<char>, i: int) -> Option<int> {
    if seq_at(s, i, no_default_lib_word()) {
        let e = skip_spaces(s, i + 14);
        if e < s.len() && s[e] == '=' {
            let v = skip_spaces(s, e + 1);
            if seq_at(s, v, quoted_true_word()) {
                Some(v + 6)
            } else {
                None
            }
        } else {
            None
        }
    } else {
        None
    }
}

/// Recognizes `lib\s*=\s*("[^"]+"|'[^']+')` starting at `i`; yields the
/// index one past the closing quote.
pub open spec fn lib_attr_end(s: Seq<char>, i: int) -> Option<int> {
    if seq_at(s, i, lib_word()) {
        let e = skip_spaces(s, i + 3);
        if e < s.len() && s[e] == '=' {
            let v = skip_spaces(s, e + 1);
            if v < s.len() && (s[v] == '"' || s[v] == '\'') {
                let c = find_from(s, v + 1, s[v]);
                if v + 1 < c && c < s.len() {
                    Some(c + 1)
                } else {
                    None
                }
            } else {
                None
            }
        } else {
            None
        }
    } else {
        None
    }
}

/// Recognizes the closing `\s*/>\s*$` from `e` to the end of the text.
pub open spec fn directive_tail_ok(s: Seq<char>, e: int) -> bool {
    if 0 <= e <= s.len() {
        let t = skip_spaces(s, e);
        &&& t + 1 < s.len()
        &&& s[t] == '/'
        &&& s[t + 1] == '>'
        &&& skip_spaces(s, t + 2) == s.len()
    } else {
        false
    }
}

/// The comment text is a banned reference directive.
pub open spec fn directive_match(s: Seq<char>) -> bool {
    &&& s.len() >= 1
    &&& s[0] == '/'
    &&& {
        let i1 = skip_spaces(s, 1);
        &&& i1 > 1
        &&& seq_at(s, i1, reference_word())
        &&& {
            let i2 = skip_spaces(s, i1 + 10);
            &&& i2 > i1 + 10
            &&& {
                ||| (no_default_lib_attr_end(s, i2) matches Some(e) && directive_tail_ok(s, e))
                ||| (lib_attr_end(s, i2) matches Some(e) && directive_tail_ok(s, e))
            }
        }
    }
}

/// Decides `no_default_lib_attr_end` at `i`.
fn no_default_lib_attr_end_at(s: &Vec<char>, i: usize) -> (r: Option<usize>)
    requires
        i <= s.len(),
    ensures
        match r {
            Some(e) => no_default_lib_attr_end(s@, i as int) == Some(e as int) && e <= s.len(),
            None => no_default_lib_attr_end(s@, i as int) is None,
        },
{
    if !match_at(s, i, &['n', 'o', '-', 'd', 'e', 'f', 'a', 'u', 'l', 't', '-', 'l', 'i', 'b']) {
        return None;
    }
    let e = skip_spaces_from(s, i + 14);
    if !(e < s.len() && s[e] == '=') {
        return None;
    }
    let v = skip_spaces_from(s, e + 1);
    if match_at(s, v, &['"', 't', 'r', 'u', 'e', '"']) {
        Some(v + 6)
    } else {
        None
    }
}

/// Decides `lib_attr_end` at `i`.
fn lib_attr_end_at(s: &Vec<char>, i: usize) -> (r: Option<usize>)
    requires
        i <= s.len(),
    ensures
        match r {
            Some(e) => lib_attr_end(s@, i as int) == Some(e as int) && e <= s.len(),
            None => lib_attr_end(s@, i as int) is None,
        },
{
    if !match_at(s, i, &['l', 'i', 'b']) {
        return None;
    }
    let e = skip_spaces_from(s, i + 3);
    if !(e < s.len() && s[e] == '=') {
        return None;
    }
    let v = skip_spaces_from(s, e + 1);
    if !(v < s.len() && (s[v] == '"' || s[v] == '\'')) {
        return None;
    }
    let c = find_char(s, v + 1, s[v]);
    proof {
        crate::text::lemma_find_from(s@, v as int + 1, s@[v as int]);
    }
    if v + 1 < c && c < s.len() {
        Some(c + 1)
    } else {
        None
    }
}

/// Decides `directive_tail_ok` from `e`.
fn directive_tail_ok_at(s: &Vec<char>, e: usize) -> (r: bool)
    requires
        e <= s.len(),
    ensures
        r == directive_tail_ok(s@, e as int),
{
    let t = skip_spaces_from(s, e);
    if t >= s.len() || s[t] != '/' {
        return false;
    }
    if t + 1 >= s.len() || s[t + 1] != '>' {
        return false;
    }
    let z = skip_spaces_from(s, t + 2);
    z == s.len()
}

/// Decides `directive_match`: is the comment text a banned triple-slash
/// reference directive?
pub fn matches_directive(s: &Vec<char>) -> (r: bool)
    ensures
        r == directive_match(s@),
{
    if s.len() < 1 || s[0] != '/' {
        return false;
    }
    let i1 = skip_spaces_from(s, 1);
    if !(i1 > 1 && match_at(s, i1, &['<', 'r', 'e', 'f', 'e', 'r', 'e', 'n', 'c', 'e'])) {
        return false;
    }
    let i2 = skip_spaces_from(s, i1 + 10);
    if !(i2 > i1 + 10) {
        return false;
    }
    if let Some(e) = no_default_lib_attr_end_at(s, i2) {
        if directive_tail_ok_at(s, e) {
            return true;
        }
    }
    if let Some(e) = lib_attr_end_at(s, i2) {
        if directive_tail_ok_at(s, e) {
            return true;
        }
    }
    false
}

} // verus!
