//! A dialect-aware SQL tokenizer and recursive-descent parser.
//!
//! Source text is first split into tokens, consulting a [`dialect`] for
//! identifier character classes and quoting styles, and the token sequence is
//! then parsed into the typed statement and expression trees of [`ast`].
pub mod ast;
pub mod dialect;
pub mod keywords;
pub mod parser;
pub mod text;
pub mod tokenizer;
