//! The boundary with the tree-sitter engine and its grammar crates.
//!
//! Everything in this file is believed, not proved: the handle types are
//! opaque, the spec functions without a body name what the engine reports
//! of a handle, and each wrapper states what the engine's source shows of
//! one call.

use std::sync::Arc;
use vstd::prelude::*;

verus! {

/// `tree_sitter::Language`: a copyable handle to one compiled grammar.
#[verifier::external_type_specification]
#[verifier::external_body]
pub struct ExLanguage(tree_sitter::Language);

/// `tree_sitter::LanguageError`: the engine's refusal of a grammar.
#[verifier::external_type_specification]
#[verifier::external_body]
pub struct ExLanguageError(tree_sitter::LanguageError);

/// The oldest grammar revision that the engine accepts
/// (`tree_sitter::MIN_COMPATIBLE_LANGUAGE_VERSION`).
pub const MIN_COMPATIBLE_VERSION: usize = 13;

/// The newest grammar revision that the engine accepts
/// (`tree_sitter::LANGUAGE_VERSION`).
pub const MAX_COMPATIBLE_VERSION: usize = 14;

/// What `tree_sitter::Language::version` reports of a grammar handle.
pub uninterp spec fn language_version(language: tree_sitter::Language) -> usize;

/// What `tree_sitter::Language::node_kind_count` reports of a grammar
/// handle: the number of its symbols, aliases included.
pub uninterp spec fn language_kind_count(language: tree_sitter::Language) -> usize;

/// What `tree_sitter::Language::node_kind_for_id` reports of a grammar
/// handle and a symbol: the symbol's name, if the grammar has the symbol.
pub uninterp spec fn language_kind_name(language: tree_sitter::Language, kind_id: u16) -> Option<
    Seq<char>,
>;

/// `PartialEq::eq` on `tree_sitter::Language`: whether two handles name
/// the same grammar.
#[verifier::external_body]
pub(crate) fn same_grammar(a: &tree_sitter::Language, b: &tree_sitter::Language) -> (same: bool)
    ensures
        same == (*a == *b),
{
    a == b
}

/// `tree_sitter::Language::version`: the revision stored in the grammar,
/// the same at every call on one handle.
#[verifier::external_body]
pub(crate) fn grammar_version(language: &tree_sitter::Language) -> (version: usize)
    ensures
        version == language_version(*language),
{
    language.version()
}

/// `tree_sitter_python::language`: the Python grammar, which its generated
/// parser declares at revision 14, with 270 symbols and 4 aliases.
#[verifier::external_body]
pub(crate) fn python_grammar() -> (language: tree_sitter::Language)
    ensures
        language_version(language) == 14,
        language_kind_count(language) == 274,
{
    tree_sitter_python::language()
}

/// `tree_sitter_typescript::language_typescript`: the TypeScript grammar,
/// which its generated parser declares at revision 14, with 378 symbols
/// and 7 aliases.
#[verifier::external_body]
pub(crate) fn typescript_grammar() -> (language: tree_sitter::Language)
    ensures
        language_version(language) == 14,
        language_kind_count(language) == 385,
{
    tree_sitter_typescript::language_typescript()
}

/// `tree_sitter_typescript::language_tsx`: the TSX grammar, which its
/// generated parser declares at revision 14, with 398 symbols and 7
/// aliases.
#[verifier::external_body]
pub(crate) fn tsx_grammar() -> (language: tree_sitter::Language)
    ensures
        language_version(language) == 14,
        language_kind_count(language) == 405,
{
    tree_sitter_typescript::language_tsx()
}

/// `tree_sitter::Parser`: a parsing session, bound to at most one grammar.
#[verifier::external_type_specification]
#[verifier::external_body]
pub struct ExParser(tree_sitter::Parser);

/// `tree_sitter::Tree`: the result of one parse.
#[verifier::external_type_specification]
#[verifier::external_body]
pub struct ExTree(tree_sitter::Tree);

/// The grammar that a session is bound to: what
/// `tree_sitter::Parser::language` reports of it.
pub uninterp spec fn parser_language(parser: tree_sitter::Parser) -> Option<tree_sitter::Language>;

/// Whether a session's settings differ from those of a new session: a
/// timeout or a cancellation flag, either of which lets a parse end
/// without a tree, or a set of included ranges, which hides part of the
/// text from a parse.
pub uninterp spec fn parser_customized(parser: tree_sitter::Parser) -> bool;

/// The grammar that a tree was parsed under: what
/// `tree_sitter::Node::language` reports of any of its nodes.
pub uninterp spec fn tree_language(tree: tree_sitter::Tree) -> tree_sitter::Language;

/// What `tree_sitter::Node::id` reports of a tree's root. It belongs to the
/// tree, not to the text: two trees of one text have different ids.
pub uninterp spec fn tree_root_id(tree: tree_sitter::Tree) -> usize;

/// What `tree_sitter::Node::kind_id` reports of a tree's root.
pub uninterp spec fn tree_root_kind_id(tree: tree_sitter::Tree) -> u16;

/// What `tree_sitter::Node::kind` reports of a tree's root.
pub uninterp spec fn tree_root_kind(tree: tree_sitter::Tree) -> Seq<char>;

/// The symbol of the root that `tree_sitter::Parser::parse` gives for a
/// text under a grammar, in a session with the settings of a new one and
/// with no earlier tree.
pub uninterp spec fn parsed_root_kind_id(language: tree_sitter::Language, text: Seq<char>) -> u16;

/// The name of the root's symbol that `tree_sitter::Parser::parse` gives
/// for a text under a grammar, in a session with the settings of a new one
/// and with no earlier tree.
pub uninterp spec fn parsed_root_kind(language: tree_sitter::Language, text: Seq<char>) -> Seq<
    char,
>;

/// `tree_sitter::Parser::new`: a session with no grammar, no timeout, no
/// cancellation flag and no included ranges.
#[verifier::external_body]
pub(crate) fn new_session() -> (parser: tree_sitter::Parser)
    ensures
        parser_language(parser) is None,
        !parser_customized(parser),
{
    tree_sitter::Parser::new()
}

/// `tree_sitter::Parser::set_language`: binds the grammar exactly when its
/// revision lies within the accepted range, and otherwise fails and leaves
/// the session as it was. It touches no other setting, and it does not
/// panic.
#[verifier::external_body]
pub(crate) fn bind_grammar(parser: &mut tree_sitter::Parser, language: tree_sitter::Language) -> (outcome:
    Result<(), tree_sitter::LanguageError>)
    ensures
        outcome is Ok <==> MIN_COMPATIBLE_VERSION <= language_version(language)
            <= MAX_COMPATIBLE_VERSION,
        outcome is Ok ==> parser_language(*final(parser)) == Some(language),
        outcome is Err ==> parser_language(*final(parser)) == parser_language(*old(parser)),
        parser_customized(*final(parser)) == parser_customized(*old(parser)),
    no_unwind
{
    parser.set_language(language)
}

/// `tree_sitter::Parser::language`: the grammar the session is bound to.
#[verifier::external_body]
pub(crate) fn bound_grammar(parser: &tree_sitter::Parser) -> (language: Option<
    tree_sitter::Language,
>)
    ensures
        language == parser_language(*parser),
{
    parser.language()
}

/// `tree_sitter::Parser::parse`: parses UTF-8 text, reusing what it can of
/// an earlier tree. The engine looks up the earlier tree's symbols in the
/// session's grammar without a test, so an earlier tree must be of that
/// grammar. The session keeps its grammar and its settings. There is no
/// tree without a grammar; there is one whenever a grammar is bound and
/// the settings are those of a new session, whatever the text; and a tree
/// that comes back was parsed under the session's grammar. With those
/// settings and no earlier tree, the root depends on grammar and text
/// alone. The call does not panic.
#[verifier::external_body]
pub(crate) fn parse_text(
    parser: &mut tree_sitter::Parser,
    text: &str,
    old_tree: Option<&tree_sitter::Tree>,
) -> (tree: Option<tree_sitter::Tree>)
    requires
        old_tree matches Some(t) ==> parser_language(*old(parser)) == Some(tree_language(*t)),
    ensures
        parser_language(*final(parser)) == parser_language(*old(parser)),
        parser_customized(*final(parser)) == parser_customized(*old(parser)),
        parser_language(*old(parser)) is None ==> tree is None,
        parser_language(*old(parser)) is Some && !parser_customized(*old(parser))
            ==> tree is Some,
        tree matches Some(t) ==> parser_language(*old(parser)) == Some(tree_language(t)),
        tree matches Some(t) ==> (old_tree is None && !parser_customized(*old(parser)) ==> {
            &&& tree_root_kind_id(t) == parsed_root_kind_id(tree_language(t), text@)
            &&& tree_root_kind(t) == parsed_root_kind(tree_language(t), text@)
        }),
    no_unwind
{
    parser.parse(text, old_tree)
}

/// `std::sync::Arc::clone`: one more reference to the same value.
#[verifier::external_body]
pub(crate) fn share_tree(tree: &Arc<tree_sitter::Tree>) -> (shared: Arc<tree_sitter::Tree>)
    ensures
        shared == *tree,
{
    Arc::clone(tree)
}

/// `tree_sitter::Node::id` on the node that `tree_sitter::Tree::root_node`
/// gives: the same number at every call on one tree. The engine hands out
/// no node whose id is zero, and every tree has a root.
#[verifier::external_body]
pub(crate) fn root_id(tree: &tree_sitter::Tree) -> (id: usize)
    ensures
        id == tree_root_id(*tree),
        id != 0,
{
    tree.root_node().id()
}

/// `tree_sitter::Node::kind_id` on the root node: the grammar symbol that
/// the tree's root carries.
#[verifier::external_body]
pub(crate) fn root_kind_id(tree: &tree_sitter::Tree) -> (kind_id: u16)
    ensures
        kind_id == tree_root_kind_id(*tree),
{
    tree.root_node().kind_id()
}

/// `tree_sitter::Node::kind` on the root node: the name of the root's
/// symbol, a string that the grammar owns. It is the name that the tree's
/// grammar gives to the root's symbol: a root carries no alias, and a
/// grammar's start symbol and the error symbol are their own public
/// symbols. The engine reads the name as UTF-8, which is how a grammar's
/// generator writes every symbol name.
#[verifier::external_body]
pub(crate) fn root_kind(tree: &tree_sitter::Tree) -> (kind: &'static str)
    ensures
        kind@ == tree_root_kind(*tree),
        language_kind_name(tree_language(*tree), tree_root_kind_id(*tree)) == Some(kind@),
{
    tree.root_node().kind()
}

/// `tree_sitter::Node::language` on the root node: the grammar that the
/// tree was parsed under.
#[verifier::external_body]
pub(crate) fn root_language(tree: &tree_sitter::Tree) -> (language: tree_sitter::Language)
    ensures
        language == tree_language(*tree),
{
    tree.root_node().language()
}

/// `tree_sitter::TreeCursor::field_id` on the cursor that
/// `tree_sitter::Tree::walk` gives. That cursor stands at the root, with
/// no entry above it, and the engine reports no field there.
#[verifier::external_body]
pub(crate) fn root_field_id(tree: &tree_sitter::Tree) -> (field_id: Option<u16>)
    ensures
        field_id is None,
{
    tree.walk().field_id()
}

/// `tree_sitter::TreeCursor::field_name` on the cursor that
/// `tree_sitter::Tree::walk` gives: no name, as there is no field.
#[verifier::external_body]
pub(crate) fn root_field_name(tree: &tree_sitter::Tree) -> (field_name: Option<&'static str>)
    ensures
        field_name is None,
{
    tree.walk().field_name()
}

} // verus!
