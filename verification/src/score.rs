//! The documentation-quality scorer.
//!
//! A pure function over the main-entrypoint specifier, the documentation
//! nodes grouped by module, the readme content if any, and the fast-check
//! verdict. The symbol percentage is carried as the exact pair of counts
//! (documented, total); a consumer renders it as a ratio, taking an empty
//! total as fully documented.

use vstd::prelude::*;

use crate::text::contains_chars;
use crate::text::contains_seq;
use crate::text::str_eq;

verus! {

/// What a documentation node is, as far as scoring cares: a module-level
/// doc pseudo-node, an import/re-export pseudo-node, or a real declaration.
#[derive(Clone, Copy, PartialEq, Eq, Structural, Debug)]
pub enum DocNodeKind {
    ModuleDoc,
    Import,
    Declaration,
}

/// A declaration's doc comment: its text, and whether it carries an
/// `@example` tag or any other tag.
pub struct JsDocModel {
    pub doc: Option<Vec<char>>,
    pub has_example_tag: bool,
    pub has_other_tags: bool,
}

/// One documentation node.
pub struct DocNode {
    pub kind: DocNodeKind,
    /// The declaration has private visibility.
    pub private: bool,
    pub js_doc: JsDocModel,
}

/// The documentation nodes of one module.
pub struct ModuleDocNodes {
    pub specifier: String,
    pub nodes: Vec<DocNode>,
}

/// The quality-score record of one package version.
#[derive(Clone, Copy, PartialEq, Eq, Structural, Debug)]
pub struct PackageVersionMeta {
    pub has_readme: bool,
    pub has_readme_examples: bool,
    pub all_entrypoints_docs: bool,
    /// Exported declarations carrying a non-empty doc comment.
    pub documented_symbols: u64,
    /// Exported declarations eligible for documentation.
    pub total_symbols: u64,
    pub all_fast_check: bool,
    /// Always false at this stage; provenance is recorded by a later,
    /// out-of-scope process.
    pub has_provenance: bool,
}

/// A doc comment with no text and no tags.
pub open spec fn js_doc_empty(j: JsDocModel) -> bool {
    j.doc is None && !j.has_example_tag && !j.has_other_tags
}

/// The node counts toward the symbol total: a real declaration that is not
/// private.
pub open spec fn eligible(n: DocNode) -> bool {
    n.kind is Declaration && !n.private
}

/// The node counts as documented.
pub open spec fn documented(n: DocNode) -> bool {
    eligible(n) && !js_doc_empty(n.js_doc)
}

/// Eligible nodes of one module.
pub open spec fn count_total(nodes: Seq<DocNode>) -> nat
    decreases nodes.len(),
{
    if nodes.len() == 0 {
        0
    } else {
        count_total(nodes.drop_last()) + if eligible(nodes.last()) {
            1nat
        } else {
            0nat
        }
    }
}

/// Documented nodes of one module.
pub open spec fn count_documented(nodes: Seq<DocNode>) -> nat
    decreases nodes.len(),
{
    if nodes.len() == 0 {
        0
    } else {
        count_documented(nodes.drop_last()) + if documented(nodes.last()) {
            1nat
        } else {
            0nat
        }
    }
}

/// Eligible nodes of all modules.
pub open spec fn count_total_all(mods: Seq<ModuleDocNodes>) -> nat
    decreases mods.len(),
{
    if mods.len() == 0 {
        0
    } else {
        count_total_all(mods.drop_last()) + count_total(mods.last().nodes@)
    }
}

/// Documented nodes of all modules.
pub open spec fn count_documented_all(mods: Seq<ModuleDocNodes>) -> nat
    decreases mods.len(),
{
    if mods.len() == 0 {
        0
    } else {
        count_documented_all(mods.drop_last()) + count_documented(mods.last().nodes@)
    }
}

/// Documented nodes never outnumber eligible nodes in one module.
pub proof fn lemma_documented_le_total(nodes: Seq<DocNode>)
    ensures
        count_documented(nodes) <= count_total(nodes),
    decreases nodes.len(),
{
    if nodes.len() > 0 {
        lemma_documented_le_total(nodes.drop_last());
    }
}

/// The documented-symbol count never exceeds the total, so the documented
/// ratio lies between zero and one; with zero eligible symbols both counts
/// are zero and the ratio is taken as one.
pub proof fn lemma_documented_le_total_all(mods: Seq<ModuleDocNodes>)
    ensures
        count_documented_all(mods) <= count_total_all(mods),
        count_total_all(mods) == 0 ==> count_documented_all(mods) == 0,
    decreases mods.len(),
{
    if mods.len() > 0 {
        lemma_documented_le_total_all(mods.drop_last());
        lemma_documented_le_total(mods.last().nodes@);
    }
}

/// Counting a prefix never exceeds counting the whole.
proof fn lemma_count_total_prefix(mods: Seq<ModuleDocNodes>, i: int)
    requires
        0 <= i <= mods.len(),
    ensures
        count_total_all(mods.take(i)) <= count_total_all(mods),
    decreases mods.len() - i,
{
    if i < mods.len() {
        lemma_count_total_prefix(mods, i + 1);
        assert(mods.take(i + 1).drop_last() =~= mods.take(i));
        assert(mods.take(i + 1).last() == mods[i]);
    } else {
        assert(mods.take(i) =~= mods);
    }
}

/// The module has a module-level doc pseudo-node.
pub open spec fn has_module_doc(nodes: Seq<DocNode>) -> bool {
    exists|j: int| 0 <= j < nodes.len() && (#[trigger] nodes[j]).kind is ModuleDoc
}

/// The doc comment of the first module-doc node, if one exists.
pub open spec fn module_doc_of(nodes: Seq<DocNode>) -> Option<JsDocModel>
    decreases nodes.len(),
{
    if nodes.len() == 0 {
        None
    } else if nodes[0].kind is ModuleDoc {
        Some(nodes[0].js_doc)
    } else {
        module_doc_of(nodes.drop_first())
    }
}

/// The nodes of the first module with the given specifier, if any.
pub open spec fn find_module_nodes(mods: Seq<ModuleDocNodes>, m: Seq<char>) -> Option<
    Seq<DocNode>,
>
    decreases mods.len(),
{
    if mods.len() == 0 {
        None
    } else if mods[0].specifier@ == m {
        Some(mods[0].nodes@)
    } else {
        find_module_nodes(mods.drop_first(), m)
    }
}

/// The view of an optional specifier.
pub open spec fn opt_str_view(o: Option<String>) -> Option<Seq<char>> {
    match o {
        Some(s) => Some(s@),
        None => None,
    }
}

/// The main entrypoint's module-level doc comment, if any.
pub open spec fn main_module_doc(mods: Seq<ModuleDocNodes>, main: Option<Seq<char>>) -> Option<
    JsDocModel,
> {
    match main {
        None => None,
        Some(m) => match find_module_nodes(mods, m) {
            None => None,
            Some(nodes) => module_doc_of(nodes),
        },
    }
}

/// The doc text contains a fenced code block marker.
pub open spec fn has_fence_chars(d: Seq<char>) -> bool {
    contains_seq(d, seq!['`', '`', '`']) || contains_seq(d, seq!['~', '~', '~'])
}

/// An ASCII whitespace byte.
pub open spec fn is_ascii_space(b: u8) -> bool {
    b == 0x20 || (0x09 <= b && b <= 0x0D)
}

/// The bytes at `i` start with `pat`.
pub open spec fn bytes_at(hay: Seq<u8>, i: int, pat: Seq<u8>) -> bool {
    0 <= i && i + pat.len() <= hay.len() && hay.subrange(i, i + pat.len()) == pat
}

/// The readme contains a fenced code block marker: three backticks or three
/// tildes.
pub open spec fn has_fence_bytes(b: Seq<u8>) -> bool {
    exists|i: int| bytes_at(b, i, seq![0x60u8, 0x60u8, 0x60u8]) || bytes_at(
        b,
        i,
        seq![0x7Eu8, 0x7Eu8, 0x7Eu8],
    )
}

/// The first index at or after `i` holding a byte that is not ASCII
/// whitespace-except-newline, or the length.
pub open spec fn skip_nb_space(s: Seq<u8>, i: int) -> int
    decreases s.len() - i,
{
    if i < 0 {
        skip_nb_space(s, 0)
    } else if i < s.len() && is_ascii_space(s[i]) && s[i] != 0x0A {
        skip_nb_space(s, i + 1)
    } else {
        i
    }
}

/// After the run of non-newline whitespace starting at `p` stands a
/// non-whitespace byte.
pub open spec fn tail_nonspace(s: Seq<u8>, p: int) -> bool {
    if 0 <= p <= s.len() {
        let e = skip_nb_space(s, p);
        e < s.len() && !is_ascii_space(s[e])
    } else {
        false
    }
}

/// The newline at `j` opens an indented code line: four spaces or a tab,
/// optional further blank space, then visible content.
pub open spec fn indent_after(s: Seq<u8>, j: int) -> bool {
    ||| (j + 5 <= s.len() && s[j + 1] == 0x20 && s[j + 2] == 0x20 && s[j + 3] == 0x20 && s[j + 4]
        == 0x20 && tail_nonspace(s, j + 5))
    ||| (j + 2 <= s.len() && s[j + 1] == 0x09 && tail_nonspace(s, j + 2))
}

/// Some earlier newline is separated from `j` by whitespace only: the line
/// ending at `j` is blank.
pub open spec fn blank_before(s: Seq<u8>, j: int) -> bool {
    exists|i: int|
        0 <= i < j && s[i] == 0x0A && (forall|k: int| i < k < j ==> is_ascii_space(#[trigger] s[k]))
}

/// The readme contains an indented code block following a blank line.
pub open spec fn has_indented_block(s: Seq<u8>) -> bool {
    exists|j: int|
        0 <= j < s.len() && (#[trigger] s[j]) == 0x0A && blank_before(s, j) && indent_after(s, j)
}

/// Does `hay[i..]` start with the 3-byte pattern?
fn match3_bytes(hay: &Vec<u8>, i: usize, b0: u8, b1: u8, b2: u8) -> (r: bool)
    requires
        i < hay.len(),
    ensures
        r == bytes_at(hay@, i as int, seq![b0, b1, b2]),
{
    if hay.len() - i < 3 {
        return false;
    }
    let r = hay[i] == b0 && hay[i + 1] == b1 && hay[i + 2] == b2;
    proof {
        if r {
            assert(hay@.subrange(i as int, i + 3) =~= seq![b0, b1, b2]);
        } else {
            assert(hay@.subrange(i as int, i + 3) != seq![b0, b1, b2]) by {
                assert(hay@.subrange(i as int, i + 3)[0] == hay@[i as int]);
                assert(hay@.subrange(i as int, i + 3)[1] == hay@[i + 1]);
                assert(hay@.subrange(i as int, i + 3)[2] == hay@[i + 2]);
            }
        }
    }
    r
}

/// Decides `has_fence_bytes`.
fn find_fence_bytes(b: &Vec<u8>) -> (r: bool)
    ensures
        r == has_fence_bytes(b@),
{
    let n = b.len();
    let mut i: usize = 0;
    while i < n
        invariant
            n == b.len(),
            0 <= i <= n,
            forall|k: int|
                0 <= k < i ==> !bytes_at(b@, k, seq![0x60u8, 0x60u8, 0x60u8]) && !bytes_at(
                    b@,
                    k,
                    seq![0x7Eu8, 0x7Eu8, 0x7Eu8],
                ),
        decreases n - i,
    {
        if match3_bytes(b, i, 0x60, 0x60, 0x60) || match3_bytes(b, i, 0x7E, 0x7E, 0x7E) {
            return true;
        }
        i += 1;
    }
    proof {
        assert(forall|k: int|
            !bytes_at(b@, k, seq![0x60u8, 0x60u8, 0x60u8]) && !bytes_at(
                b@,
                k,
                seq![0x7Eu8, 0x7Eu8, 0x7Eu8],
            ));
    }
    false
}

/// An ASCII whitespace byte, decided.
fn is_ascii_space_byte(b: u8) -> (r: bool)
    ensures
        r == is_ascii_space(b),
{
    b == 0x20 || (0x09 <= b && b <= 0x0D)
}

/// Decides `skip_nb_space`.
fn skip_nb_space_from(s: &Vec<u8>, i: usize) -> (r: usize)
    requires
        i <= s.len(),
    ensures
        r == skip_nb_space(s@, i as int),
        i <= r <= s.len(),
{
    let mut j: usize = i;
    while j < s.len() && s[j] != 0x0A && is_ascii_space_byte(s[j])
        invariant
            i <= j <= s.len(),
            skip_nb_space(s@, i as int) == skip_nb_space(s@, j as int),
        decreases s.len() - j,
    {
        j += 1;
    }
    j
}

/// Decides `tail_nonspace`.
fn tail_nonspace_at(s: &Vec<u8>, p: usize) -> (r: bool)
    requires
        p <= s.len(),
    ensures
        r == tail_nonspace(s@, p as int),
{
    let e = skip_nb_space_from(s, p);
    e < s.len() && !is_ascii_space_byte(s[e])
}

/// Decides `indent_after`.
fn indent_after_at(s: &Vec<u8>, j: usize) -> (r: bool)
    requires
        j < s.len(),
    ensures
        r == indent_after(s@, j as int),
{
    let four = if s.len() - j >= 5 {
        s[j + 1] == 0x20 && s[j + 2] == 0x20 && s[j + 3] == 0x20 && s[j + 4] == 0x20
            && tail_nonspace_at(s, j + 5)
    } else {
        false
    };
    if four {
        return true;
    }
    if s.len() - j >= 2 && s[j + 1] == 0x09 {
        tail_nonspace_at(s, j + 2)
    } else {
        false
    }
}

/// Decides `blank_before`.
fn blank_before_at(s: &Vec<u8>, j: usize) -> (r: bool)
    requires
        j < s.len(),
    ensures
        r == blank_before(s@, j as int),
{
    let mut k: usize = j;
    while k > 0
        invariant
            0 <= k <= j < s.len(),
            forall|m: int| k <= m < j ==> is_ascii_space(#[trigger] s@[m]) && s@[m] != 0x0A,
        decreases k,
    {
        let b = s[k - 1];
        if b == 0x0A {
            return true;
        }
        if !is_ascii_space_byte(b) {
            assert(forall|i: int| 0 <= i < j && s@[i] == 0x0A ==> !(forall|m: int|
                i < m < j ==> is_ascii_space(#[trigger] s@[m]))) by {
                assert forall|i: int|
                    0 <= i < j && s@[i] == 0x0A implies !(forall|m: int|
                    i < m < j ==> is_ascii_space(#[trigger] s@[m])) by {
                    assert(i < k - 1);
                    assert(!is_ascii_space(s@[k - 1]));
                }
            }
            return false;
        }
        k -= 1;
    }
    assert(forall|i: int| !(0 <= i < j && s@[i] == 0x0A)) by {
        assert forall|i: int| 0 <= i < j implies s@[i] != 0x0A by {
            assert(is_ascii_space(s@[i]) && s@[i] != 0x0A);
        }
    }
    false
}

/// Decides `has_indented_block`.
fn find_indented_block(s: &Vec<u8>) -> (r: bool)
    ensures
        r == has_indented_block(s@),
{
    let n = s.len();
    let mut j: usize = 0;
    while j < n
        invariant
            n == s.len(),
            0 <= j <= n,
            forall|m: int|
                0 <= m < j ==> !((#[trigger] s@[m]) == 0x0A && blank_before(s@, m) && indent_after(
                    s@,
                    m,
                )),
        decreases n - j,
    {
        if s[j] == 0x0A && blank_before_at(s, j) && indent_after_at(s, j) {
            return true;
        }
        j += 1;
    }
    false
}

/// The entrypoints are all documented: every module has a module-level doc
/// comment, except possibly the main entrypoint when a readme substitutes
/// for it.
pub open spec fn all_entrypoints_docs_spec(
    mods: Seq<ModuleDocNodes>,
    main: Option<Seq<char>>,
    has_readme: bool,
) -> bool {
    forall|k: int|
        0 <= k < mods.len() ==> has_module_doc((#[trigger] mods[k]).nodes@) || (main matches Some(m)
            && mods[k].specifier@ == m && has_readme)
}

/// Finds the main entrypoint's module doc, as `main_module_doc` says.
fn lookup_main_doc<'a>(doc_nodes: &'a Vec<ModuleDocNodes>, main: &Option<String>) -> (r: Option<
    &'a JsDocModel,
>)
    ensures
        match r {
            Some(j) => main_module_doc(doc_nodes@, opt_str_view(*main)) == Some(*j),
            None => main_module_doc(doc_nodes@, opt_str_view(*main)) is None,
        },
{
    let m: &String = match main {
        Some(m) => m,
        None => {
            return None;
        },
    };
    proof {
        assert(opt_str_view(*main) == Some(m@));
    }
    let n = doc_nodes.len();
    let mut i: usize = 0;
    proof {
        assert(doc_nodes@.skip(0) =~= doc_nodes@);
    }
    while i < n
        invariant
            n == doc_nodes.len(),
            0 <= i <= n,
            opt_str_view(*main) == Some(m@),
            find_module_nodes(doc_nodes@, m@) == find_module_nodes(doc_nodes@.skip(i as int), m@),
        decreases n - i,
    {
        assert(doc_nodes@.skip(i as int)[0] == doc_nodes@[i as int]);
        if str_eq(doc_nodes[i].specifier.as_str(), m.as_str()) {
            let nodes = &doc_nodes[i].nodes;
            proof {
                assert(find_module_nodes(doc_nodes@.skip(i as int), m@) == Some(
                    doc_nodes@[i as int].nodes@,
                ));
            }
            let nn = nodes.len();
            let mut k: usize = 0;
            proof {
                assert(nodes@.skip(0) =~= nodes@);
            }
            while k < nn
                invariant
                    nn == nodes.len(),
                    0 <= k <= nn,
                    opt_str_view(*main) == Some(m@),
                    find_module_nodes(doc_nodes@, m@) == Some(nodes@),
                    module_doc_of(nodes@) == module_doc_of(nodes@.skip(k as int)),
                decreases nn - k,
            {
                assert(nodes@.skip(k as int)[0] == nodes@[k as int]);
                if matches!(nodes[k].kind, DocNodeKind::ModuleDoc) {
                    proof {
                        assert(module_doc_of(nodes@.skip(k as int)) == Some(
                            nodes@[k as int].js_doc,
                        ));
                    }
                    return Some(&nodes[k].js_doc);
                }
                proof {
                    assert(nodes@.skip(k as int).drop_first() =~= nodes@.skip(k as int + 1));
                }
                k += 1;
            }
            assert(nodes@.skip(nn as int) =~= Seq::<DocNode>::empty());
            return None;
        }
        proof {
            assert(doc_nodes@.skip(i as int).drop_first() =~= doc_nodes@.skip(i as int + 1));
        }
        i += 1;
    }
    assert(doc_nodes@.skip(n as int) =~= Seq::<ModuleDocNodes>::empty());
    None
}

/// Counts the eligible and documented nodes of all modules.
fn count_symbols(doc_nodes: &Vec<ModuleDocNodes>) -> (r: (u64, u64))
    requires
        count_total_all(doc_nodes@) <= u64::MAX,
    ensures
        r.0 == count_documented_all(doc_nodes@),
        r.1 == count_total_all(doc_nodes@),
{
    let mut documented: u64 = 0;
    let mut total: u64 = 0;
    let n = doc_nodes.len();
    let mut i: usize = 0;
    proof {
        assert(doc_nodes@.take(0) =~= Seq::<ModuleDocNodes>::empty());
    }
    while i < n
        invariant
            n == doc_nodes.len(),
            0 <= i <= n,
            count_total_all(doc_nodes@) <= u64::MAX,
            documented == count_documented_all(doc_nodes@.take(i as int)),
            total == count_total_all(doc_nodes@.take(i as int)),
        decreases n - i,
    {
        let nodes = &doc_nodes[i].nodes;
        let nn = nodes.len();
        let mut k: usize = 0;
        let mut mod_documented: u64 = 0;
        let mut mod_total: u64 = 0;
        proof {
            lemma_count_total_prefix(doc_nodes@, i + 1);
            assert(doc_nodes@.take(i + 1).drop_last() =~= doc_nodes@.take(i as int));
            assert(doc_nodes@.take(i + 1).last() == doc_nodes@[i as int]);
            lemma_documented_le_total_all(doc_nodes@.take(i as int));
            lemma_documented_le_total(nodes@);
            assert(nodes@.take(0) =~= Seq::<DocNode>::empty());
        }
        while k < nn
            invariant
                nn == nodes.len(),
                0 <= k <= nn,
                mod_documented == count_documented(nodes@.take(k as int)),
                mod_total == count_total(nodes@.take(k as int)),
                count_total(nodes@) + count_total_all(doc_nodes@.take(i as int)) <= u64::MAX,
            decreases nn - k,
        {
            proof {
                assert(nodes@.take(k + 1).drop_last() =~= nodes@.take(k as int));
                assert(nodes@.take(k + 1).last() == nodes@[k as int]);
                lemma_count_node_prefix(nodes@, k + 1);
                lemma_documented_le_total(nodes@.take(k + 1));
            }
            let node = &nodes[k];
            let is_eligible = matches!(node.kind, DocNodeKind::Declaration) && !node.private;
            if is_eligible {
                mod_total = mod_total + 1;
                let is_documented = !(node.js_doc.doc.is_none() && !node.js_doc.has_example_tag
                    && !node.js_doc.has_other_tags);
                if is_documented {
                    mod_documented = mod_documented + 1;
                }
            }
            k += 1;
        }
        proof {
            assert(nodes@.take(nn as int) =~= nodes@);
            assert(doc_nodes@.take(i + 1).drop_last() =~= doc_nodes@.take(i as int));
        }
        documented = documented + mod_documented;
        total = total + mod_total;
        i += 1;
    }
    proof {
        assert(doc_nodes@.take(n as int) =~= doc_nodes@);
    }
    (documented, total)
}

/// Counting a prefix of a module's nodes never exceeds counting all of them.
proof fn lemma_count_node_prefix(nodes: Seq<DocNode>, k: int)
    requires
        0 <= k <= nodes.len(),
    ensures
        count_total(nodes.take(k)) <= count_total(nodes),
    decreases nodes.len() - k,
{
    if k < nodes.len() {
        lemma_count_node_prefix(nodes, k + 1);
        assert(nodes.take(k + 1).drop_last() =~= nodes.take(k));
        assert(nodes.take(k + 1).last() == nodes[k]);
    } else {
        assert(nodes.take(k) =~= nodes);
    }
}

/// Computes the quality-score record.
///
/// A readme exists when a readme file was supplied or the main entrypoint
/// carries a non-empty module doc. Examples exist when the readme holds a
/// fenced or indented code block, or the main module doc holds a fence or
/// an `@example` tag. The symbol counts are exact; the fast-check verdict
/// passes through; provenance is always false here.
pub fn generate_score(
    main_entrypoint: &Option<String>,
    doc_nodes: &Vec<ModuleDocNodes>,
    readme: &Option<Vec<u8>>,
    all_fast_check: bool,
) -> (r: PackageVersionMeta)
    requires
        count_total_all(doc_nodes@) <= u64::MAX,
    ensures
        r.has_readme == (readme is Some || (main_module_doc(doc_nodes@, opt_str_view(*main_entrypoint))
            matches Some(j) && j.doc matches Some(d) && d@.len() > 0)),
        r.has_readme_examples == ((readme matches Some(b) && (has_fence_bytes(b@)
            || has_indented_block(b@))) || (main_module_doc(doc_nodes@, opt_str_view(*main_entrypoint))
            matches Some(j) && ((j.doc matches Some(d) && has_fence_chars(d@))
            || j.has_example_tag))),
        r.all_entrypoints_docs == all_entrypoints_docs_spec(
            doc_nodes@,
            opt_str_view(*main_entrypoint),
            readme is Some,
        ),
        r.documented_symbols == count_documented_all(doc_nodes@),
        r.total_symbols == count_total_all(doc_nodes@),
        r.documented_symbols <= r.total_symbols,
        r.all_fast_check == all_fast_check,
        r.has_provenance == false,
{
    let main_doc = lookup_main_doc(doc_nodes, main_entrypoint);
    let has_readme_file = readme.is_some();

    let has_readme = has_readme_file || (match main_doc {
        Some(j) => match &j.doc {
            Some(d) => d.len() > 0,
            None => false,
        },
        None => false,
    });

    let readme_has_examples = match readme {
        Some(b) => find_fence_bytes(b) || find_indented_block(b),
        None => false,
    };
    let doc_has_examples = match main_doc {
        Some(j) => {
            let fence = match &j.doc {
                Some(d) => contains_chars(d, &['`', '`', '`']) || contains_chars(
                    d,
                    &['~', '~', '~'],
                ),
                None => false,
            };
            fence || j.has_example_tag
        },
        None => false,
    };
    let has_readme_examples = readme_has_examples || doc_has_examples;

    let all_entrypoints_docs = compute_all_entrypoints_docs(
        doc_nodes,
        main_entrypoint,
        has_readme_file,
    );

    let (documented_symbols, total_symbols) = count_symbols(doc_nodes);
    proof {
        lemma_documented_le_total_all(doc_nodes@);
    }

    PackageVersionMeta {
        has_readme,
        has_readme_examples,
        all_entrypoints_docs,
        documented_symbols,
        total_symbols,
        all_fast_check,
        has_provenance: false,
    }
}

/// Decides `all_entrypoints_docs_spec`.
fn compute_all_entrypoints_docs(
    doc_nodes: &Vec<ModuleDocNodes>,
    main_entrypoint: &Option<String>,
    has_readme: bool,
) -> (r: bool)
    ensures
        r == all_entrypoints_docs_spec(doc_nodes@, opt_str_view(*main_entrypoint), has_readme),
{
    let n = doc_nodes.len();
    let mut i: usize = 0;
    while i < n
        invariant
            n == doc_nodes.len(),
            0 <= i <= n,
            forall|k: int|
                0 <= k < i ==> has_module_doc((#[trigger] doc_nodes@[k]).nodes@) || (opt_str_view(
                    *main_entrypoint,
                ) matches Some(m) && doc_nodes@[k].specifier@ == m && has_readme),
        decreases n - i,
    {
        let nodes = &doc_nodes[i].nodes;
        let nn = nodes.len();
        let mut k: usize = 0;
        let mut found: bool = false;
        while k < nn
            invariant
                nn == nodes.len(),
                0 <= k <= nn,
                found ==> has_module_doc(nodes@),
                !found ==> forall|m: int| 0 <= m < k ==> !((#[trigger] nodes@[m]).kind is ModuleDoc),
            decreases nn - k,
        {
            if matches!(nodes[k].kind, DocNodeKind::ModuleDoc) {
                found = true;
                assert(has_module_doc(nodes@));
            }
            k += 1;
        }
        if !found {
            let main_substitutes = has_readme && (match main_entrypoint {
                Some(m) => str_eq(doc_nodes[i].specifier.as_str(), m.as_str()),
                None => false,
            });
            if !main_substitutes {
                assert(!has_module_doc(doc_nodes@[i as int].nodes@));
                return false;
            }
        }
        i += 1;
    }
    true
}

} // verus!
