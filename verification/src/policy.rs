//! The publish-time language policy over a parsed module.
//!
//! The validator sees a module through a model of what the checks read from
//! the syntax tree: the file's media kind, the top-level declarations that
//! the four banned pattern families concern, and the leading comments. A
//! module is scanned in order and the first violation decides the error, so
//! one run reports at most one violation.

use vstd::prelude::*;

use crate::directive::directive_match;
use crate::directive::matches_directive;
use crate::errors::PublishError;
use crate::errors::SrcPos;
use crate::text::contains_chars;
use crate::text::contains_seq;

verus! {

/// The syntax dialect of a module as decided by its file extension.
#[derive(Clone, Copy, PartialEq, Eq, Structural, Debug)]
pub enum MediaKind {
    JavaScript,
    Jsx,
    Mjs,
    Cjs,
    TypeScript,
    Mts,
    Cts,
    Dts,
    Dmts,
    Dcts,
    Tsx,
    Json,
    Other,
}

/// A top-level declaration of a module, reduced to what the policy reads.
pub enum TopLevelItem {
    /// `export as namespace N;`
    NamespaceExport { pos: SrcPos },
    /// `export = ...;`
    ExportAssignment { pos: SrcPos },
    /// `import n = ...;` — `external` when the right side references an
    /// external module (`require(...)`) rather than a namespace member.
    ImportEquals { external: bool, pos: SrcPos },
    /// An import or re-export carrying an attribute clause; `gap` holds the
    /// source text between the module string and the clause, where the
    /// clause's keyword stands.
    ImportAttributes { gap: Vec<char>, pos: SrcPos },
    /// `declare module ...`/`declare global` — `global` for the global
    /// form, `quoted_name` when the module name is a string literal;
    /// `name_pos` is the position of the name.
    AmbientModule { global: bool, quoted_name: bool, pos: SrcPos, name_pos: SrcPos },
    /// Anything the policy does not concern itself with.
    Plain,
}

/// A comment preceding the first declaration of a module.
pub struct LeadingComment {
    /// A `//` comment (as opposed to a `/* */` comment).
    pub line_comment: bool,
    /// The comment text after the leading `//` or `/*`.
    pub text: Vec<char>,
    /// Where the comment starts.
    pub pos: SrcPos,
}

/// A module as the policy validator sees it.
pub struct ModuleModel {
    /// The module's canonical specifier.
    pub specifier: String,
    /// The dialect of the file.
    pub media: MediaKind,
    /// The top-level declarations, in source order.
    pub items: Vec<TopLevelItem>,
    /// The leading comments, in source order.
    pub leading_comments: Vec<LeadingComment>,
}

/// Which banned family a violation belongs to.
#[derive(Clone, Copy, PartialEq, Eq, Structural, Debug)]
pub enum ViolationKind {
    /// CommonJS-family syntax.
    CommonJs,
    /// Global type augmentation.
    GlobalAugmentation,
    /// Deprecated import assertion.
    ImportAssertion,
}

/// The characters of the deprecated attribute keyword `assert`.
pub open spec fn assert_word() -> Seq<char> {
    seq!['a', 's', 's', 'e', 'r', 't']
}

/// The verdict on one top-level declaration: the violation it is, if any.
pub open spec fn item_violation(item: TopLevelItem) -> Option<(ViolationKind, SrcPos)> {
    match item {
        TopLevelItem::NamespaceExport { pos } => Some((ViolationKind::GlobalAugmentation, pos)),
        TopLevelItem::ExportAssignment { pos } => Some((ViolationKind::GlobalAugmentation, pos)),
        TopLevelItem::ImportEquals { external, pos } => if external {
            Some((ViolationKind::CommonJs, pos))
        } else {
            None
        },
        TopLevelItem::ImportAttributes { gap, pos } => if contains_seq(gap@, assert_word()) {
            Some((ViolationKind::ImportAssertion, pos))
        } else {
            None
        },
        TopLevelItem::AmbientModule { global, quoted_name, pos, name_pos } => if global {
            Some((ViolationKind::GlobalAugmentation, pos))
        } else if quoted_name {
            Some((ViolationKind::GlobalAugmentation, name_pos))
        } else {
            None
        },
        TopLevelItem::Plain => None,
    }
}

/// The first violation among the declarations, in source order.
pub open spec fn first_violation(items: Seq<TopLevelItem>) -> Option<(ViolationKind, SrcPos)>
    decreases items.len(),
{
    if items.len() == 0 {
        None
    } else if item_violation(items[0]) is Some {
        item_violation(items[0])
    } else {
        first_violation(items.drop_first())
    }
}

/// The error reported for a violation: the variant matching its kind,
/// carrying the module's specifier and the violation's position.
pub open spec fn violation_error(
    specifier: Seq<char>,
    v: (ViolationKind, SrcPos),
    e: PublishError,
) -> bool {
    match v.0 {
        ViolationKind::CommonJs => e matches PublishError::CommonJs { specifier: s, pos } && s@
            == specifier && pos == v.1,
        ViolationKind::GlobalAugmentation => e matches PublishError::GlobalTypeAugmentation {
            specifier: s,
            pos,
        } && s@ == specifier && pos == v.1,
        ViolationKind::ImportAssertion => e matches PublishError::BannedImportAssertion {
            specifier: s,
            pos,
        } && s@ == specifier && pos == v.1,
    }
}

/// Checks one top-level declaration.
fn check_item(item: &TopLevelItem) -> (r: Option<(ViolationKind, SrcPos)>)
    ensures
        r == item_violation(*item),
{
    match item {
        TopLevelItem::NamespaceExport { pos } => Some((ViolationKind::GlobalAugmentation, *pos)),
        TopLevelItem::ExportAssignment { pos } => Some((ViolationKind::GlobalAugmentation, *pos)),
        TopLevelItem::ImportEquals { external, pos } => if *external {
            Some((ViolationKind::CommonJs, *pos))
        } else {
            None
        },
        TopLevelItem::ImportAttributes { gap, pos } => if contains_chars(
            gap,
            &['a', 's', 's', 'e', 'r', 't'],
        ) {
            Some((ViolationKind::ImportAssertion, *pos))
        } else {
            None
        },
        TopLevelItem::AmbientModule { global, quoted_name, pos, name_pos } => if *global {
            Some((ViolationKind::GlobalAugmentation, *pos))
        } else if *quoted_name {
            Some((ViolationKind::GlobalAugmentation, *name_pos))
        } else {
            None
        },
        TopLevelItem::Plain => None,
    }
}

/// Rejects a module whose dialect is a CommonJS variant, at line 0 and
/// column 0: the violation is the file itself, not a construct in it.
pub fn check_for_banned_extensions(module: &ModuleModel) -> (r: Result<(), PublishError>)
    ensures
        r is Ok <==> !(module.media is Cjs || module.media is Cts),
        r matches Err(e) ==> e matches PublishError::CommonJs { specifier, pos } && specifier@
            == module.specifier@ && pos == (SrcPos { line: 0, column: 0 }),
{
    match module.media {
        MediaKind::Cjs | MediaKind::Cts => Err(
            PublishError::CommonJs {
                specifier: module.specifier.clone(),
                pos: SrcPos { line: 0, column: 0 },
            },
        ),
        _ => Ok(()),
    }
}

/// Scans the top-level declarations for the banned syntax families; the
/// first violation in source order decides the error.
pub fn check_for_banned_syntax(module: &ModuleModel) -> (r: Result<(), PublishError>)
    ensures
        r is Ok <==> first_violation(module.items@) is None,
        r matches Err(e) ==> first_violation(module.items@) matches Some(v) && violation_error(
            module.specifier@,
            v,
            e,
        ),
{
    let n = module.items.len();
    let mut i: usize = 0;
    proof {
        assert(module.items@.skip(0) =~= module.items@);
    }
    while i < n
        invariant
            n == module.items.len(),
            0 <= i <= n,
            first_violation(module.items@) == first_violation(module.items@.skip(i as int)),
        decreases n - i,
    {
        assert(module.items@.skip(i as int)[0] == module.items@[i as int]);
        if let Some(v) = check_item(&module.items[i]) {
            let e = match v.0 {
                ViolationKind::CommonJs => PublishError::CommonJs {
                    specifier: module.specifier.clone(),
                    pos: v.1,
                },
                ViolationKind::GlobalAugmentation => PublishError::GlobalTypeAugmentation {
                    specifier: module.specifier.clone(),
                    pos: v.1,
                },
                ViolationKind::ImportAssertion => PublishError::BannedImportAssertion {
                    specifier: module.specifier.clone(),
                    pos: v.1,
                },
            };
            return Err(e);
        }
        proof {
            assert(module.items@.skip(i as int).drop_first() =~= module.items@.skip(i as int + 1));
        }
        i += 1;
    }
    assert(module.items@.skip(n as int) =~= Seq::<TopLevelItem>::empty());
    Ok(())
}

/// The position of the first leading line comment whose text is a banned
/// reference directive, in source order.
pub open spec fn first_banned_comment(comments: Seq<LeadingComment>) -> Option<SrcPos>
    decreases comments.len(),
{
    if comments.len() == 0 {
        None
    } else if comments[0].line_comment && directive_match(comments[0].text@) {
        Some(comments[0].pos)
    } else {
        first_banned_comment(comments.drop_first())
    }
}

/// Scans the leading comments for a banned triple-slash reference
/// directive; only line comments are considered.
pub fn check_for_banned_triple_slash_directives(module: &ModuleModel) -> (r: Result<
    (),
    PublishError,
>)
    ensures
        r is Ok <==> first_banned_comment(module.leading_comments@) is None,
        r matches Err(e) ==> first_banned_comment(module.leading_comments@) matches Some(p) && (
        e matches PublishError::BannedTripleSlashDirectives { specifier, pos } && specifier@
            == module.specifier@ && pos == p),
{
    let n = module.leading_comments.len();
    let mut i: usize = 0;
    proof {
        assert(module.leading_comments@.skip(0) =~= module.leading_comments@);
    }
    while i < n
        invariant
            n == module.leading_comments.len(),
            0 <= i <= n,
            first_banned_comment(module.leading_comments@) == first_banned_comment(
                module.leading_comments@.skip(i as int),
            ),
        decreases n - i,
    {
        assert(module.leading_comments@.skip(i as int)[0] == module.leading_comments@[i as int]);
        let c = &module.leading_comments[i];
        if c.line_comment && matches_directive(&c.text) {
            return Err(
                PublishError::BannedTripleSlashDirectives {
                    specifier: module.specifier.clone(),
                    pos: c.pos,
                },
            );
        }
        proof {
            assert(module.leading_comments@.skip(i as int).drop_first()
                =~= module.leading_comments@.skip(i as int + 1));
        }
        i += 1;
    }
    assert(module.leading_comments@.skip(n as int) =~= Seq::<LeadingComment>::empty());
    Ok(())
}

/// A module passes the whole policy.
pub open spec fn module_policy_ok(m: ModuleModel) -> bool {
    &&& !(m.media is Cjs || m.media is Cts)
    &&& first_violation(m.items@) is None
    &&& first_banned_comment(m.leading_comments@) is None
}

/// The error that the policy reports for a module, checked in the order the
/// validator runs: dialect first, then syntax, then leading comments.
pub open spec fn module_policy_error(m: ModuleModel, e: PublishError) -> bool {
    if m.media is Cjs || m.media is Cts {
        e matches PublishError::CommonJs { specifier, pos } && specifier@ == m.specifier@ && pos
            == (SrcPos { line: 0, column: 0 })
    } else if first_violation(m.items@) is Some {
        violation_error(m.specifier@, first_violation(m.items@)->Some_0, e)
    } else {
        first_banned_comment(m.leading_comments@) matches Some(p) && (
        e matches PublishError::BannedTripleSlashDirectives { specifier, pos } && specifier@
            == m.specifier@ && pos == p)
    }
}

/// Runs the three policy checks on one module, in order.
pub fn validate_module(module: &ModuleModel) -> (r: Result<(), PublishError>)
    ensures
        r is Ok <==> module_policy_ok(*module),
        r matches Err(e) ==> module_policy_error(*module, e),
{
    check_for_banned_extensions(module)?;
    check_for_banned_syntax(module)?;
    check_for_banned_triple_slash_directives(module)?;
    Ok(())
}

/// Validates every module, in graph order; the first offending module
/// decides the error.
pub fn validate_modules(modules: &Vec<ModuleModel>) -> (r: Result<(), PublishError>)
    ensures
        r is Ok <==> (forall|i: int|
            0 <= i < modules@.len() ==> module_policy_ok(#[trigger] modules@[i])),
        r matches Err(e) ==> exists|i: int|
            {
                &&& 0 <= i < modules@.len()
                &&& !module_policy_ok(#[trigger] modules@[i])
                &&& (forall|j: int| 0 <= j < i ==> module_policy_ok(#[trigger] modules@[j]))
                &&& module_policy_error(modules@[i], e)
            },
{
    let n = modules.len();
    let mut i: usize = 0;
    while i < n
        invariant
            n == modules.len(),
            0 <= i <= n,
            forall|j: int| 0 <= j < i ==> module_policy_ok(#[trigger] modules@[j]),
        decreases n - i,
    {
        match validate_module(&modules[i]) {
            Ok(()) => {},
            Err(e) => {
                return Err(e);
            },
        }
        i += 1;
    }
    Ok(())
}

} // verus!
