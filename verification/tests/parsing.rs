use tree_sitter_py::language::{languages, PyLanguage};
use tree_sitter_py::parser::PyParser;
use tree_sitter_py::tree::PyTree;

fn python() -> PyLanguage {
    languages()[0].1
}

fn typescript() -> PyLanguage {
    languages()[1].1
}

fn tsx() -> PyLanguage {
    languages()[2].1
}

fn python_parser() -> PyParser {
    let mut parser = PyParser::new();
    assert!(parser.set_language(python()).is_ok());
    parser
}

fn parse_python(text: &str) -> PyTree {
    python_parser().parse(text, None).expect("a bound parser gives a tree")
}

#[test]
fn table_lists_three_grammars_in_order() {
    let table = languages();
    assert_eq!(table.len(), 3);
    assert_eq!(table[0].0, "python");
    assert_eq!(table[1].0, "typescript");
    assert_eq!(table[2].0, "tsx");
}

#[test]
fn table_grammars_are_the_grammar_crates_own() {
    assert_eq!(python().inner, tree_sitter_python::language());
    assert_eq!(typescript().inner, tree_sitter_typescript::language_typescript());
    assert_eq!(tsx().inner, tree_sitter_typescript::language_tsx());
    assert_ne!(typescript().inner, tsx().inner);
}

#[test]
fn table_grammars_report_revision_fourteen() {
    for (_, language) in languages() {
        assert_eq!(language.version(), 14);
    }
}

#[test]
fn version_is_the_engine_version() {
    let raw = tree_sitter_typescript::language_tsx();
    assert_eq!(PyLanguage::from(raw).version(), raw.version());
}

#[test]
fn from_keeps_the_handle() {
    let raw = tree_sitter_python::language();
    assert_eq!(PyLanguage::from(raw).inner, raw);
}

#[test]
fn accepted_range_is_the_engine_range() {
    assert_eq!(
        tree_sitter_py::engine::MIN_COMPATIBLE_VERSION,
        tree_sitter::MIN_COMPATIBLE_LANGUAGE_VERSION
    );
    assert_eq!(tree_sitter_py::engine::MAX_COMPATIBLE_VERSION, tree_sitter::LANGUAGE_VERSION);
}

#[test]
fn new_parser_has_no_language() {
    let parser = PyParser::new();
    assert!(parser.language().is_none());
}

#[test]
fn bound_language_keeps_version() {
    for (_, language) in languages() {
        let mut parser = PyParser::new();
        assert_eq!(parser.set_language(language), Ok(()));
        let bound = parser.language().expect("a language was bound");
        assert_eq!(bound.version(), language.version());
        assert_eq!(bound.inner, language.inner);
    }
}

#[test]
fn last_bound_language_wins() {
    let mut parser = PyParser::new();
    assert!(parser.set_language(python()).is_ok());
    assert!(parser.set_language(typescript()).is_ok());
    assert_eq!(parser.language().map(|l| l.inner), Some(typescript().inner));
    let tree = parser.parse("let x: number = 1;", None).expect("a tree");
    assert_eq!(tree.root_node().kind(), "program");
    assert_eq!(tree.root_node().language().inner, typescript().inner);
}

#[test]
fn parse_without_language_gives_nothing() {
    let mut parser = PyParser::new();
    assert!(parser.parse("x = 1", None).is_none());
    assert!(parser.parse("", None).is_none());
    assert!(parser.language().is_none());
}

#[test]
fn parse_keeps_the_binding() {
    let mut parser = python_parser();
    let _ = parser.parse("x = 1", None);
    assert_eq!(parser.language().map(|l| l.inner), Some(python().inner));
}

#[test]
fn every_text_gives_a_tree() {
    let texts = ["", " ", "x = 1", "def f(:\n", "))))((((", "\u{0}\u{1}", "é = 'ü'\n", "\n\n\n"];
    for (_, language) in languages() {
        let mut parser = PyParser::new();
        assert!(parser.set_language(language).is_ok());
        for text in texts {
            let tree = parser.parse(text, None);
            assert!(tree.is_some());
            let root = tree.unwrap().root_node();
            assert!(!root.kind().is_empty());
            assert_ne!(root.id(), 0);
        }
    }
}

#[test]
fn empty_text_gives_a_module() {
    let tree = parse_python("");
    assert_eq!(tree.root_node().kind(), "module");
}

#[test]
fn reparse_with_old_tree_matches_fresh_parse() {
    let text = "def f(a, b):\n    return a + b\n";
    let mut parser = python_parser();
    let first = parser.parse(text, None).expect("a tree");
    let fresh = parser.parse(text, None).expect("a tree");
    let again = parser.parse(text, Some(first.clone())).expect("a tree");
    assert_eq!(again.root_node().kind_id(), fresh.root_node().kind_id());
    assert_eq!(again.root_node().kind(), fresh.root_node().kind());
    assert_eq!(again.root_node().language().inner, fresh.root_node().language().inner);
    assert_eq!(again.inner.root_node().to_sexp(), fresh.inner.root_node().to_sexp());
    assert_eq!(first.root_node().kind(), "module");
}

#[test]
fn old_tree_is_not_changed() {
    let text = "x = 1";
    let mut parser = python_parser();
    let first = parser.parse(text, None).expect("a tree");
    let before = first.inner.root_node().to_sexp();
    let id = first.root_node().id();
    let _ = parser.parse(text, Some(first.clone()));
    assert_eq!(first.inner.root_node().to_sexp(), before);
    assert_eq!(first.root_node().id(), id);
}

#[test]
fn kind_outlives_its_node() {
    let tree = parse_python("x = 1");
    let node = tree.root_node();
    let kind: &'static str = node.kind();
    drop(node);
    drop(tree);
    assert_eq!(kind, "module");
}

#[test]
fn node_outlives_the_tree_handle() {
    let tree = parse_python("x = 1");
    let node = tree.root_node();
    let id = node.id();
    let kind_id = node.kind_id();
    drop(tree);
    assert_eq!(node.id(), id);
    assert_eq!(node.kind_id(), kind_id);
    assert_eq!(node.kind(), "module");
    assert_eq!(node.language().version(), 14);
}

#[test]
fn cursor_outlives_the_tree_handle() {
    let tree = parse_python("x = 1");
    let cursor = tree.walk();
    drop(tree);
    assert_eq!(cursor.field_id(), None);
    assert_eq!(cursor.field_name(), None);
}

#[test]
fn views_hold_counted_references() {
    let tree = parse_python("x = 1");
    assert_eq!(std::sync::Arc::strong_count(&tree.inner), 1);
    let node = tree.root_node();
    let cursor = tree.walk();
    let copy = tree.clone();
    assert_eq!(std::sync::Arc::strong_count(&tree.inner), 4);
    drop(node);
    drop(cursor);
    assert_eq!(std::sync::Arc::strong_count(&tree.inner), 2);
    assert!(std::sync::Arc::ptr_eq(&tree.inner, &copy.inner));
}

#[test]
fn walk_starts_at_root_without_field() {
    for (_, language) in languages() {
        let mut parser = PyParser::new();
        assert!(parser.set_language(language).is_ok());
        for text in ["", "x = 1", "a.b(c)"] {
            let tree = parser.parse(text, None).expect("a tree");
            let cursor = tree.walk();
            assert_eq!(cursor.field_id(), None);
            assert_eq!(cursor.field_name(), None);
            assert_eq!(tree.inner.walk().node().id(), tree.root_node().id());
        }
    }
}

#[test]
fn python_assignment_parses_to_module_deterministically() {
    let first = parse_python("x = 1");
    let second = parse_python("x = 1");
    assert_eq!(first.root_node().kind(), "module");
    assert_eq!(first.root_node().kind_id(), second.root_node().kind_id());
    assert_eq!(first.root_node().kind(), second.root_node().kind());
}

#[test]
fn node_reads_the_engine_root() {
    let tree = parse_python("x = 1");
    let node = tree.root_node();
    let root = tree.inner.root_node();
    assert_eq!(node.id(), root.id());
    assert_eq!(node.kind_id(), root.kind_id());
    assert_eq!(node.kind(), root.kind());
    assert_eq!(node.language().inner, root.language());
    assert_eq!(python().inner.node_kind_for_id(node.kind_id()), Some("module"));
}

#[test]
fn node_id_is_stable_and_shared_by_views() {
    let tree = parse_python("x = 1");
    let a = tree.root_node();
    let b = tree.root_node();
    assert_eq!(a.id(), a.id());
    assert_eq!(a.id(), b.id());
    assert_eq!(tree.clone().root_node().id(), a.id());
}

#[test]
fn node_language_is_the_parser_language() {
    for (_, language) in languages() {
        let mut parser = PyParser::new();
        assert!(parser.set_language(language).is_ok());
        let tree = parser.parse("a", None).expect("a tree");
        assert_eq!(tree.root_node().language().inner, language.inner);
        assert_eq!(tree.root_node().language().version(), language.version());
    }
}

#[test]
fn typescript_and_tsx_roots_are_programs() {
    for language in [typescript(), tsx()] {
        let mut parser = PyParser::new();
        assert!(parser.set_language(language).is_ok());
        let tree = parser.parse("const a = 1;", None).expect("a tree");
        assert_eq!(tree.root_node().kind(), "program");
    }
}

#[test]
fn table_grammars_have_their_own_symbol_counts() {
    let table = languages();
    assert_eq!(table[0].1.inner.node_kind_count(), 274);
    assert_eq!(table[1].1.inner.node_kind_count(), 385);
    assert_eq!(table[2].1.inner.node_kind_count(), 405);
}

#[test]
fn old_tree_of_another_grammar_is_not_reused() {
    let text = "x = 1";
    let mut parser = PyParser::new();
    assert!(parser.set_language(typescript()).is_ok());
    let foreign = parser.parse("let x: number = 1; function f() { return x; }", None).expect("a tree");
    assert_eq!(foreign.root_node().kind(), "program");
    assert!(parser.set_language(python()).is_ok());
    let tree = parser.parse(text, Some(foreign.clone())).expect("a tree");
    let fresh = parse_python(text);
    assert_eq!(tree.root_node().kind(), "module");
    assert_eq!(tree.root_node().kind_id(), fresh.root_node().kind_id());
    assert_eq!(tree.root_node().language().inner, python().inner);
    assert_eq!(tree.inner.root_node().to_sexp(), fresh.inner.root_node().to_sexp());
    assert_eq!(foreign.root_node().kind(), "program");
}

#[test]
fn old_tree_of_another_grammar_after_rebinding_the_other_way() {
    let mut parser = python_parser();
    let foreign = parser.parse("def f(a):\n    return a\n", None).expect("a tree");
    assert!(parser.set_language(tsx()).is_ok());
    let tree = parser.parse("const a = <b/>;", Some(foreign)).expect("a tree");
    assert_eq!(tree.root_node().kind(), "program");
    assert_eq!(tree.root_node().language().inner, tsx().inner);
}

#[test]
fn kind_is_the_grammar_name_of_the_kind_id() {
    let texts = ["", "x = 1", ")", "def", "@@@", "let x = 1;", "<a></a>", "'"];
    for (_, language) in languages() {
        let mut parser = PyParser::new();
        assert!(parser.set_language(language).is_ok());
        for text in texts {
            let node = parser.parse(text, None).expect("a tree").root_node();
            assert_eq!(language.inner.node_kind_for_id(node.kind_id()), Some(node.kind()));
        }
    }
}

#[test]
fn fresh_parse_root_depends_on_grammar_and_text_alone() {
    let texts = ["", "x = 1", ")", "def f(:\n", "let x = 1;", "'"];
    for (_, language) in languages() {
        let mut busy = PyParser::new();
        assert!(busy.set_language(language).is_ok());
        for text in texts {
            let mut new = PyParser::new();
            assert!(new.set_language(language).is_ok());
            let a = new.parse(text, None).expect("a tree").root_node();
            let b = busy.parse(text, None).expect("a tree").root_node();
            assert_eq!(a.kind_id(), b.kind_id());
            assert_eq!(a.kind(), b.kind());
        }
    }
}
