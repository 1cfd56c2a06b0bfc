//! The core of a Python binding to the tree-sitter engine: grammars, a
//! parser that binds one of them, and trees whose node and cursor views each
//! carry a counted reference to the tree they read. The types that the
//! binding hands to Python carry the prefix `Py`.

pub mod engine;
pub mod language;
pub mod parser;
pub mod tree;
