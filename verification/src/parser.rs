//! The parser: one engine session and the grammar it is bound to.

use crate::engine::{
    bind_grammar, bound_grammar, new_session, parse_text, parser_customized, parser_language,
    root_language, same_grammar, MAX_COMPATIBLE_VERSION, MIN_COMPATIBLE_VERSION,
};
use crate::language::PyLanguage;
use crate::tree::PyTree;
use std::sync::Arc;
use vstd::prelude::*;

verus! {

/// Why a grammar could not be bound: its revision lies outside the range
/// that the engine accepts.
#[derive(Clone, Copy, Debug, PartialEq, Eq, Structural)]
pub struct IncompatibleLanguage {
    /// The revision of the refused grammar.
    pub version: usize,
    /// The oldest revision that would have been accepted.
    pub min_supported: usize,
    /// The newest revision that would have been accepted.
    pub max_supported: usize,
}

/// The grammar a parser is bound to after an attempt to bind `language`:
/// the new one if it is compatible, else the one from before.
pub open spec fn bound_after(before: Option<PyLanguage>, language: PyLanguage) -> Option<
    PyLanguage,
> {
    if language.compatible() {
        Some(language)
    } else {
        before
    }
}

/// What a refusal of `language` reports.
pub open spec fn refusal_of(language: PyLanguage) -> IncompatibleLanguage {
    IncompatibleLanguage {
        version: language.version_spec(),
        min_supported: MIN_COMPATIBLE_VERSION,
        max_supported: MAX_COMPATIBLE_VERSION,
    }
}

/// A compatible grammar, once bound, is the parser's language whatever was
/// bound before, and so has the version of the grammar that was handed in.
pub proof fn lemma_last_binding_wins(before: Option<PyLanguage>, language: PyLanguage)
    requires
        language.compatible(),
    ensures
        bound_after(before, language) == Some(language),
        bound_after(before, language).unwrap().version_spec() == language.version_spec(),
{
}

/// A refused grammar leaves the binding as it was.
pub proof fn lemma_refusal_keeps_binding(before: Option<PyLanguage>, language: PyLanguage)
    requires
        !language.compatible(),
    ensures
        bound_after(before, language) == before,
{
}

/// Whether a parse hands an earlier tree on to the engine: only one of the
/// grammar that the parser is bound to.
pub open spec fn reuses(bound: Option<PyLanguage>, old_tree: Option<PyTree>) -> bool {
    old_tree matches Some(old) && bound == Some(old.language_spec())
}

/// A parser. It holds at most one grammar and no tree.
pub struct PyParser {
    inner: tree_sitter::Parser,
}

impl PyParser {
    /// A parser keeps the settings of a new session: no timeout, no
    /// cancellation flag, no included ranges. So a parse under a bound
    /// grammar always runs to its end, over the whole text.
    #[verifier::type_invariant]
    spec fn uninterrupted(self) -> bool {
        !parser_customized(self.inner)
    }

    /// The grammar that the parser is bound to, if any.
    pub closed spec fn bound(&self) -> Option<PyLanguage> {
        match parser_language(self.inner) {
            Some(inner) => Some(PyLanguage { inner }),
            None => None,
        }
    }

    /// A parser with no grammar.
    pub fn new() -> (parser: PyParser)
        ensures
            parser.bound() is None,
    {
        PyParser { inner: new_session() }
    }

    /// Binds `language` for the parses that follow, in place of any grammar
    /// bound before. An incompatible grammar is refused and the earlier
    /// binding stays.
    pub fn set_language(&mut self, language: PyLanguage) -> (outcome: Result<
        (),
        IncompatibleLanguage,
    >)
        ensures
            outcome is Ok <==> language.compatible(),
            outcome is Err ==> outcome == Err::<(), IncompatibleLanguage>(refusal_of(language)),
            final(self).bound() == bound_after(old(self).bound(), language),
    {
        proof {
            use_type_invariant(&*self);
        }
        match bind_grammar(&mut self.inner, language.inner) {
            Ok(()) => Ok(()),
            Err(_) => Err(
                IncompatibleLanguage {
                    version: language.version(),
                    min_supported: MIN_COMPATIBLE_VERSION,
                    max_supported: MAX_COMPATIBLE_VERSION,
                },
            ),
        }
    }

    /// The grammar that the parser is bound to, if any.
    pub fn language(&self) -> (language: Option<PyLanguage>)
        ensures
            language == self.bound(),
    {
        match bound_grammar(&self.inner) {
            Some(inner) => Some(PyLanguage::from(inner)),
            None => None,
        }
    }

    /// Parses `text` under the bound grammar into a new tree. An earlier
    /// tree of the same text may be handed in for reuse; it is not changed,
    /// and it is used only if it is of the bound grammar. Every text parses:
    /// there is a tree exactly when a grammar is bound, and the tree is of
    /// that grammar. Where no earlier tree is used, the root is the one
    /// that grammar and text determine. The binding stays as it was.
    pub fn parse(&mut self, text: &str, old_tree: Option<PyTree>) -> (tree: Option<PyTree>)
        ensures
            final(self).bound() == old(self).bound(),
            tree is Some <==> old(self).bound() is Some,
            tree matches Some(t) ==> old(self).bound() == Some(t.language_spec()),
            tree matches Some(t) ==> (!reuses(old(self).bound(), old_tree) ==> {
                &&& t.root_kind_id_spec() == t.language_spec().fresh_root_kind_id(text@)
                &&& t.root_kind_spec() == t.language_spec().fresh_root_kind(text@)
            }),
    {
        proof {
            use_type_invariant(&*self);
        }
        let parsed = match &old_tree {
            Some(old) => {
                let usable = match bound_grammar(&self.inner) {
                    Some(bound) => same_grammar(&bound, &root_language(&*old.inner)),
                    None => false,
                };
                if usable {
                    parse_text(&mut self.inner, text, Some(&*old.inner))
                } else {
                    parse_text(&mut self.inner, text, None)
                }
            },
            None => parse_text(&mut self.inner, text, None),
        };
        match parsed {
            Some(inner) => Some(PyTree { inner: Arc::new(inner) }),
            None => None,
        }
    }
}

} // verus!
