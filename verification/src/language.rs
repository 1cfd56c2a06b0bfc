//! Grammars and the fixed table of those that ship with the library.

use crate::engine::{
    grammar_version, language_kind_count, language_kind_name, language_version,
    parsed_root_kind, parsed_root_kind_id, python_grammar, tsx_grammar, typescript_grammar,
    MAX_COMPATIBLE_VERSION, MIN_COMPATIBLE_VERSION,
};
use vstd::prelude::*;

verus! {

/// One compiled grammar. The value is a handle: copies name the same grammar.
#[derive(Clone, Copy, Debug)]
pub struct PyLanguage {
    pub inner: tree_sitter::Language,
}

impl PyLanguage {
    /// The grammar's revision.
    pub open spec fn version_spec(&self) -> usize {
        language_version(self.inner)
    }

    /// The number of the grammar's symbols, by which the grammars of the
    /// table are told apart.
    pub open spec fn kind_count_spec(&self) -> usize {
        language_kind_count(self.inner)
    }

    /// The name that the grammar gives to a symbol, if it has the symbol.
    pub open spec fn kind_name(&self, kind_id: u16) -> Option<Seq<char>> {
        language_kind_name(self.inner, kind_id)
    }

    /// The symbol of the root of a parse of `text` from nothing.
    pub open spec fn fresh_root_kind_id(&self, text: Seq<char>) -> u16 {
        parsed_root_kind_id(self.inner, text)
    }

    /// The name of the root's symbol of a parse of `text` from nothing.
    pub open spec fn fresh_root_kind(&self, text: Seq<char>) -> Seq<char> {
        parsed_root_kind(self.inner, text)
    }

    /// Whether a parser of this engine accepts the grammar.
    pub open spec fn compatible(&self) -> bool {
        MIN_COMPATIBLE_VERSION <= self.version_spec() <= MAX_COMPATIBLE_VERSION
    }

    /// The grammar's revision, by which a parser decides whether it can
    /// be bound to it.
    pub fn version(&self) -> (version: usize)
        ensures
            version == self.version_spec(),
    {
        grammar_version(&self.inner)
    }
}

/// What `from` means in contracts: the grammar of the handle.
impl vstd::std_specs::convert::FromSpecImpl<tree_sitter::Language> for PyLanguage {
    open spec fn obeys_from_spec() -> bool {
        true
    }

    open spec fn from_spec(lang: tree_sitter::Language) -> PyLanguage {
        PyLanguage { inner: lang }
    }
}

impl From<tree_sitter::Language> for PyLanguage {
    /// The grammar that an engine handle names.
    fn from(lang: tree_sitter::Language) -> (language: PyLanguage) {
        PyLanguage { inner: lang }
    }
}

/// The grammars that ship with the library, each under its name, in a
/// fixed order: the Python grammar with its 274 symbols, the TypeScript
/// grammar with its 385 and the TSX grammar with its 405. Every one of them
/// is of revision 14, which a parser accepts.
pub fn languages() -> (table: Vec<(&'static str, PyLanguage)>)
    ensures
        table@.len() == 3,
        table@[0].0@ == "python"@,
        table@[1].0@ == "typescript"@,
        table@[2].0@ == "tsx"@,
        table@[0].1.kind_count_spec() == 274,
        table@[1].1.kind_count_spec() == 385,
        table@[2].1.kind_count_spec() == 405,
        forall|i: int|
            0 <= i < 3 ==> (#[trigger] table@[i]).1.version_spec() == 14
                && table@[i].1.compatible(),
{
    let mut table: Vec<(&'static str, PyLanguage)> = Vec::new();
    table.push(("python", PyLanguage::from(python_grammar())));
    table.push(("typescript", PyLanguage::from(typescript_grammar())));
    table.push(("tsx", PyLanguage::from(tsx_grammar())));
    table
}

} // verus!
