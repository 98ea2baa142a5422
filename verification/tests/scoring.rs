//! The quality scorer: readme detection, example detection, entrypoint
//! documentation, and the exact symbol counts.

use registry_analysis::score::DocNode;
use registry_analysis::score::DocNodeKind;
use registry_analysis::score::JsDocModel;
use registry_analysis::score::ModuleDocNodes;
use registry_analysis::score::generate_score;

fn empty_doc() -> JsDocModel {
    JsDocModel {
        doc: None,
        has_example_tag: false,
        has_other_tags: false,
    }
}

fn text_doc(text: &str) -> JsDocModel {
    JsDocModel {
        doc: Some(text.chars().collect()),
        has_example_tag: false,
        has_other_tags: false,
    }
}

fn decl(doc: JsDocModel, private: bool) -> DocNode {
    DocNode {
        kind: DocNodeKind::Declaration,
        private,
        js_doc: doc,
    }
}

fn module_doc_node(doc: JsDocModel) -> DocNode {
    DocNode {
        kind: DocNodeKind::ModuleDoc,
        private: false,
        js_doc: doc,
    }
}

fn modules(nodes: Vec<DocNode>) -> Vec<ModuleDocNodes> {
    vec![ModuleDocNodes {
        specifier: "file:///mod.ts".to_string(),
        nodes,
    }]
}

fn main_spec() -> Option<String> {
    Some("file:///mod.ts".to_string())
}

#[test]
fn no_symbols_is_vacuously_documented() {
    // Zero eligible symbols: both counts are zero, and the documented ratio
    // is taken as one.
    let meta = generate_score(&None, &Vec::new(), &None, false);
    assert_eq!(meta.total_symbols, 0);
    assert_eq!(meta.documented_symbols, 0);
    assert!(!meta.has_readme);
    assert!(!meta.has_readme_examples);
    assert!(meta.all_entrypoints_docs);
    assert!(!meta.all_fast_check);
    assert!(!meta.has_provenance);
}

#[test]
fn symbol_counts_are_exact() {
    let nodes = vec![
        module_doc_node(text_doc("module docs")),
        DocNode {
            kind: DocNodeKind::Import,
            private: false,
            js_doc: text_doc("import docs"),
        },
        decl(text_doc("documented fn"), false),
        decl(empty_doc(), false),
        decl(text_doc("private fn"), true),
    ];
    let meta = generate_score(&main_spec(), &modules(nodes), &None, true);
    assert_eq!(meta.total_symbols, 2);
    assert_eq!(meta.documented_symbols, 1);
    assert!(meta.documented_symbols <= meta.total_symbols);
    assert!(meta.all_fast_check);
}

#[test]
fn tagged_but_textless_doc_counts_as_documented() {
    let nodes = vec![decl(
        JsDocModel {
            doc: None,
            has_example_tag: false,
            has_other_tags: true,
        },
        false,
    )];
    let meta = generate_score(&main_spec(), &modules(nodes), &None, false);
    assert_eq!(meta.total_symbols, 1);
    assert_eq!(meta.documented_symbols, 1);
}

#[test]
fn readme_file_or_module_doc_counts_as_readme() {
    let meta = generate_score(&None, &Vec::new(), &Some(b"hello".to_vec()), false);
    assert!(meta.has_readme);

    let meta = generate_score(
        &main_spec(),
        &modules(vec![module_doc_node(text_doc("module docs"))]),
        &None,
        false,
    );
    assert!(meta.has_readme);

    // An empty module doc text does not count.
    let meta = generate_score(
        &main_spec(),
        &modules(vec![module_doc_node(text_doc(""))]),
        &None,
        false,
    );
    assert!(!meta.has_readme);
}

#[test]
fn fenced_blocks_in_readme_are_examples() {
    let meta = generate_score(
        &None,
        &Vec::new(),
        &Some(b"usage:\n```ts\nfoo()\n```".to_vec()),
        false,
    );
    assert!(meta.has_readme_examples);

    let meta = generate_score(&None, &Vec::new(), &Some(b"~~~\ncode\n~~~".to_vec()), false);
    assert!(meta.has_readme_examples);

    let meta = generate_score(&None, &Vec::new(), &Some(b"plain text".to_vec()), false);
    assert!(!meta.has_readme_examples);
}

#[test]
fn indented_blocks_after_blank_lines_are_examples() {
    let meta = generate_score(
        &None,
        &Vec::new(),
        &Some(b"para\n\n    code()".to_vec()),
        false,
    );
    assert!(meta.has_readme_examples);

    let meta = generate_score(
        &None,
        &Vec::new(),
        &Some(b"para\n\n\tcode()".to_vec()),
        false,
    );
    assert!(meta.has_readme_examples);

    // Indentation without a preceding blank line is not a code block.
    let meta = generate_score(
        &None,
        &Vec::new(),
        &Some(b"para\n    code()".to_vec()),
        false,
    );
    assert!(!meta.has_readme_examples);

    // A blank-ish indented line with no visible content is not one either.
    let meta = generate_score(&None, &Vec::new(), &Some(b"para\n\n     \n".to_vec()), false);
    assert!(!meta.has_readme_examples);
}

#[test]
fn example_tag_in_main_module_doc_counts() {
    let nodes = vec![module_doc_node(JsDocModel {
        doc: Some("plain".chars().collect()),
        has_example_tag: true,
        has_other_tags: false,
    })];
    let meta = generate_score(&main_spec(), &modules(nodes), &None, false);
    assert!(meta.has_readme_examples);

    let nodes = vec![module_doc_node(text_doc("with fence ```ts``` inside"))];
    let meta = generate_score(&main_spec(), &modules(nodes), &None, false);
    assert!(meta.has_readme_examples);
}

#[test]
fn entrypoints_need_module_docs_unless_readme_covers_main() {
    // A module without a module doc fails.
    let meta = generate_score(&main_spec(), &modules(vec![decl(empty_doc(), false)]), &None, false);
    assert!(!meta.all_entrypoints_docs);

    // Unless it is the main entrypoint and a readme exists.
    let meta = generate_score(
        &main_spec(),
        &modules(vec![decl(empty_doc(), false)]),
        &Some(b"readme".to_vec()),
        false,
    );
    assert!(meta.all_entrypoints_docs);

    // A secondary module without a module doc fails even with a readme.
    let mods = vec![
        ModuleDocNodes {
            specifier: "file:///mod.ts".to_string(),
            nodes: vec![module_doc_node(text_doc("docs"))],
        },
        ModuleDocNodes {
            specifier: "file:///sub.ts".to_string(),
            nodes: vec![decl(empty_doc(), false)],
        },
    ];
    let meta = generate_score(&main_spec(), &mods, &Some(b"readme".to_vec()), false);
    assert!(!meta.all_entrypoints_docs);
}
