//! Policy validation over real parsed sources: modules are parsed with the
//! external parser and reduced to the validator's model.

use deno_ast::SourceRangedForSpanned;
use deno_ast::swc::ast;
use deno_ast::swc::common::Span;
use deno_ast::swc::common::comments::CommentKind;

use registry_analysis::errors::PublishError;
use registry_analysis::errors::SrcPos;
use registry_analysis::policy::LeadingComment;
use registry_analysis::policy::MediaKind;
use registry_analysis::policy::ModuleModel;
use registry_analysis::policy::TopLevelItem;
use registry_analysis::policy::check_for_banned_extensions;
use registry_analysis::policy::check_for_banned_syntax;
use registry_analysis::policy::check_for_banned_triple_slash_directives;
use registry_analysis::policy::validate_module;
use registry_analysis::policy::validate_modules;

fn parse(source: &str) -> deno_ast::ParsedSource {
    let media_type = deno_ast::MediaType::TypeScript;
    parse_with_media_type(source, media_type)
}

fn parse_with_media_type(
    source: &str,
    media_type: deno_ast::MediaType,
) -> deno_ast::ParsedSource {
    let specifier = deno_ast::ModuleSpecifier::parse("file:///mod.ts").unwrap();
    deno_ast::parse_module(deno_ast::ParseParams {
        specifier,
        text: source.into(),
        media_type,
        capture_tokens: false,
        scope_analysis: false,
        maybe_syntax: None,
    })
    .unwrap()
}

fn media_kind(m: deno_ast::MediaType) -> MediaKind {
    match m {
        deno_ast::MediaType::JavaScript => MediaKind::JavaScript,
        deno_ast::MediaType::Jsx => MediaKind::Jsx,
        deno_ast::MediaType::Mjs => MediaKind::Mjs,
        deno_ast::MediaType::Cjs => MediaKind::Cjs,
        deno_ast::MediaType::TypeScript => MediaKind::TypeScript,
        deno_ast::MediaType::Mts => MediaKind::Mts,
        deno_ast::MediaType::Cts => MediaKind::Cts,
        deno_ast::MediaType::Dts => MediaKind::Dts,
        deno_ast::MediaType::Dmts => MediaKind::Dmts,
        deno_ast::MediaType::Dcts => MediaKind::Dcts,
        deno_ast::MediaType::Tsx => MediaKind::Tsx,
        deno_ast::MediaType::Json => MediaKind::Json,
        _ => MediaKind::Other,
    }
}

/// Reduces a parsed source to the model the policy validator reads.
fn to_model(parsed: &deno_ast::ParsedSource) -> ModuleModel {
    let line_col = |range: &deno_ast::SourceRange| -> SrcPos {
        let lc = parsed
            .text_info_lazy()
            .line_and_column_display(range.start);
        SrcPos {
            line: lc.line_number,
            column: lc.column_number,
        }
    };

    let mut items = Vec::new();
    for i in parsed.program_ref().body() {
        let item = match i {
            deno_ast::ModuleItemRef::ModuleDecl(n) => match n {
                ast::ModuleDecl::TsNamespaceExport(n) => TopLevelItem::NamespaceExport {
                    pos: line_col(&n.range()),
                },
                ast::ModuleDecl::TsExportAssignment(n) => TopLevelItem::ExportAssignment {
                    pos: line_col(&n.range()),
                },
                ast::ModuleDecl::TsImportEquals(n) => TopLevelItem::ImportEquals {
                    external: matches!(
                        n.module_ref,
                        ast::TsModuleRef::TsExternalModuleRef(_)
                    ),
                    pos: line_col(&n.range()),
                },
                ast::ModuleDecl::Import(n) => match &n.with {
                    Some(with) => {
                        let range = Span::new(n.src.span.hi(), with.span.lo()).range();
                        let gap = parsed.text_info_lazy().range_text(&range);
                        TopLevelItem::ImportAttributes {
                            gap: gap.chars().collect(),
                            pos: line_col(&with.span.range()),
                        }
                    }
                    None => TopLevelItem::Plain,
                },
                ast::ModuleDecl::ExportNamed(n) => match &n.with {
                    Some(with) => {
                        let src = n.src.as_ref().unwrap();
                        let range = Span::new(src.span.hi(), with.span.lo()).range();
                        let gap = parsed.text_info_lazy().range_text(&range);
                        TopLevelItem::ImportAttributes {
                            gap: gap.chars().collect(),
                            pos: line_col(&with.span.range()),
                        }
                    }
                    None => TopLevelItem::Plain,
                },
                ast::ModuleDecl::ExportAll(n) => match &n.with {
                    Some(with) => {
                        let range = Span::new(n.src.span.hi(), with.span.lo()).range();
                        let gap = parsed.text_info_lazy().range_text(&range);
                        TopLevelItem::ImportAttributes {
                            gap: gap.chars().collect(),
                            pos: line_col(&with.span.range()),
                        }
                    }
                    None => TopLevelItem::Plain,
                },
                _ => TopLevelItem::Plain,
            },
            deno_ast::ModuleItemRef::Stmt(ast::Stmt::Decl(ast::Decl::TsModule(n))) => {
                let (quoted_name, name_pos) = match &n.id {
                    ast::TsModuleName::Str(s) => (true, line_col(&s.range())),
                    _ => (false, line_col(&n.range())),
                };
                TopLevelItem::AmbientModule {
                    global: n.global,
                    quoted_name,
                    pos: line_col(&n.range()),
                    name_pos,
                }
            }
            _ => TopLevelItem::Plain,
        };
        items.push(item);
    }

    let mut leading_comments = Vec::new();
    if let Some(comments) = parsed.get_leading_comments() {
        for c in comments {
            let lc = parsed
                .text_info_lazy()
                .line_and_column_display(c.range().start);
            leading_comments.push(LeadingComment {
                line_comment: c.kind == CommentKind::Line,
                text: c.text.chars().collect(),
                pos: SrcPos {
                    line: lc.line_number,
                    column: lc.column_number,
                },
            });
        }
    }

    ModuleModel {
        specifier: parsed.specifier().to_string(),
        media: media_kind(parsed.media_type()),
        items,
        leading_comments,
    }
}

#[test]
fn banned_extensions() {
    let x = parse_with_media_type("let x = 1;", deno_ast::MediaType::TypeScript);
    assert!(check_for_banned_extensions(&to_model(&x)).is_ok());

    let x = parse_with_media_type("let x = 1;", deno_ast::MediaType::Cjs);
    let err = check_for_banned_extensions(&to_model(&x)).unwrap_err();
    assert!(matches!(err, PublishError::CommonJs { .. }), "{err:?}",);

    let x = parse_with_media_type("let x = 1;", deno_ast::MediaType::Cts);
    let err = check_for_banned_extensions(&to_model(&x)).unwrap_err();
    assert!(matches!(err, PublishError::CommonJs { .. }), "{err:?}",);
}

#[test]
fn banned_triple_slash_directives() {
    let x = parse("let x = 1;");
    assert!(check_for_banned_triple_slash_directives(&to_model(&x)).is_ok());

    let x = parse("/// <reference lib=\"dom\" />");
    let err = check_for_banned_triple_slash_directives(&to_model(&x)).unwrap_err();
    assert!(
        matches!(err, PublishError::BannedTripleSlashDirectives { .. }),
        "{err:?}",
    );

    let x = parse("/// <reference no-default-lib=\"true\" />");
    let err = check_for_banned_triple_slash_directives(&to_model(&x)).unwrap_err();
    assert!(
        matches!(err, PublishError::BannedTripleSlashDirectives { .. }),
        "{err:?}",
    );

    let x = parse("///   <reference   no-default-lib=\"true\"/>");
    let err = check_for_banned_triple_slash_directives(&to_model(&x)).unwrap_err();
    assert!(
        matches!(err, PublishError::BannedTripleSlashDirectives { .. }),
        "{err:?}",
    );

    let x = parse("///   <reference   no-default-lib = \"true\"/>");
    let err = check_for_banned_triple_slash_directives(&to_model(&x)).unwrap_err();
    assert!(
        matches!(err, PublishError::BannedTripleSlashDirectives { .. }),
        "{err:?}",
    );

    let x = parse("    /// <reference   lib = \"dom\"/>");
    let err = check_for_banned_triple_slash_directives(&to_model(&x)).unwrap_err();
    assert!(
        matches!(err, PublishError::BannedTripleSlashDirectives { .. }),
        "{err:?}",
    );

    let x = parse("   ///   <reference   lib = \'dom\'/>");
    let err = check_for_banned_triple_slash_directives(&to_model(&x)).unwrap_err();
    assert!(
        matches!(err, PublishError::BannedTripleSlashDirectives { .. }),
        "{err:?}",
    );

    let x = parse("   //  /   <reference   lib = \'dom\'/>");
    check_for_banned_triple_slash_directives(&to_model(&x)).unwrap();

    let x = parse("   ///   <reference   lib = \'dom\'/>  asdasd");
    check_for_banned_triple_slash_directives(&to_model(&x)).unwrap();

    let x = parse("   //some text here/   <reference   lib = \'dom\'/>");
    check_for_banned_triple_slash_directives(&to_model(&x)).unwrap();

    let x = parse("/** /   <reference   lib = \'dom\'/> */");
    check_for_banned_triple_slash_directives(&to_model(&x)).unwrap();
}

#[test]
fn banned_syntax() {
    let x = parse("let x = 1;");
    assert!(check_for_banned_syntax(&to_model(&x)).is_ok());

    let x = parse("global {}");
    let err = check_for_banned_syntax(&to_model(&x)).unwrap_err();
    assert!(
        matches!(err, PublishError::GlobalTypeAugmentation { .. }),
        "{err:?}",
    );

    let x = parse("let x = 1; global {}");
    let err = check_for_banned_syntax(&to_model(&x)).unwrap_err();
    assert!(
        matches!(err, PublishError::GlobalTypeAugmentation { .. }),
        "{err:?}",
    );

    let x = parse("declare module foo { }");
    assert!(check_for_banned_syntax(&to_model(&x)).is_ok());

    let x = parse("declare module \"x\" { }");
    let err = check_for_banned_syntax(&to_model(&x)).unwrap_err();
    assert!(
        matches!(err, PublishError::GlobalTypeAugmentation { .. }),
        "{err:?}",
    );

    let x = parse("import foo from \"foo\"");
    assert!(check_for_banned_syntax(&to_model(&x)).is_ok());

    let x = parse("export as namespace React;");
    let err = check_for_banned_syntax(&to_model(&x)).unwrap_err();
    assert!(
        matches!(err, PublishError::GlobalTypeAugmentation { .. }),
        "{err:?}",
    );

    let x = parse("export = {}");
    let err = check_for_banned_syntax(&to_model(&x)).unwrap_err();
    assert!(
        matches!(err, PublishError::GlobalTypeAugmentation { .. }),
        "{err:?}",
    );

    let x = parse("import express = require('foo');");
    let err = check_for_banned_syntax(&to_model(&x)).unwrap_err();
    assert!(matches!(err, PublishError::CommonJs { .. }), "{err:?}",);

    let x = parse("import express = React.foo;");
    assert!(check_for_banned_syntax(&to_model(&x)).is_ok());

    let x = parse("import './data.json' assert { type: 'json' }");
    let err = check_for_banned_syntax(&to_model(&x)).unwrap_err();
    assert!(
        matches!(err, PublishError::BannedImportAssertion { .. }),
        "{err:?}",
    );

    let x = parse("export { a } from './data.json' assert { type: 'json' }");
    let err = check_for_banned_syntax(&to_model(&x)).unwrap_err();
    assert!(
        matches!(err, PublishError::BannedImportAssertion { .. }),
        "{err:?}",
    );

    let x = parse("export * from './data.json' assert { type: 'json' }");
    let err = check_for_banned_syntax(&to_model(&x)).unwrap_err();
    assert!(
        matches!(err, PublishError::BannedImportAssertion { .. }),
        "{err:?}",
    );

    let x = parse("export * from './data.json' with { type: 'json' }");
    assert!(check_for_banned_syntax(&to_model(&x)).is_ok());
}

#[test]
fn global_augmentation_reports_line_one() {
    let x = parse("global {}");
    let err = check_for_banned_syntax(&to_model(&x)).unwrap_err();
    match err {
        PublishError::GlobalTypeAugmentation { specifier, pos } => {
            assert_eq!(specifier, "file:///mod.ts");
            assert_eq!(pos.line, 1);
        }
        other => panic!("{other:?}"),
    }
}

#[test]
fn directive_edge_cases() {
    // No whitespace after the third slash: the pattern requires some.
    let x = parse("///<reference lib=\"dom\" />");
    assert!(check_for_banned_triple_slash_directives(&to_model(&x)).is_ok());

    // The no-default-lib value must be exactly double-quoted true.
    let x = parse("/// <reference no-default-lib = 'true' />");
    assert!(check_for_banned_triple_slash_directives(&to_model(&x)).is_ok());

    let x = parse("/// <reference no-default-lib=\"false\" />");
    assert!(check_for_banned_triple_slash_directives(&to_model(&x)).is_ok());

    // An empty lib value does not match.
    let x = parse("/// <reference lib=\"\" />");
    assert!(check_for_banned_triple_slash_directives(&to_model(&x)).is_ok());

    // Only the first violating line comment is reported, at its position.
    let x = parse("// plain\n/// <reference lib=\"dom\" />");
    let err = check_for_banned_triple_slash_directives(&to_model(&x)).unwrap_err();
    match err {
        PublishError::BannedTripleSlashDirectives { pos, .. } => assert_eq!(pos.line, 2),
        other => panic!("{other:?}"),
    }
}

#[test]
fn first_offending_module_decides() {
    let ok = to_model(&parse("let x = 1;"));
    let first_bad = to_model(&parse("import express = require('foo');"));
    let second_bad = to_model(&parse("global {}"));
    assert!(validate_modules(&vec![]).is_ok());
    let err = validate_modules(&vec![ok, first_bad, second_bad]).unwrap_err();
    assert!(matches!(err, PublishError::CommonJs { .. }), "{err:?}",);
}

#[test]
fn directive_in_block_comment_is_allowed() {
    let x = parse("/** /   <reference   lib = \"dom\"/> */\nlet x = 1;");
    assert!(check_for_banned_triple_slash_directives(&to_model(&x)).is_ok());
}

#[test]
fn validate_module_runs_checks_in_order() {
    // A CommonJS file with a banned leading comment reports the dialect
    // first, at line 0 and column 0.
    let source = "/// <reference lib=\"dom\" />\nlet x = 1;";
    let x = parse_with_media_type(source, deno_ast::MediaType::Cjs);
    let err = validate_module(&to_model(&x)).unwrap_err();
    match err {
        PublishError::CommonJs { pos, .. } => {
            assert_eq!(pos.line, 0);
            assert_eq!(pos.column, 0);
        }
        other => panic!("{other:?}"),
    }

    // The same comment in a TypeScript file is a banned directive from the
    // comment scan.
    let x = parse(source);
    let err = validate_module(&to_model(&x)).unwrap_err();
    assert!(
        matches!(err, PublishError::BannedTripleSlashDirectives { .. }),
        "{err:?}",
    );
}
