//! Markup parsing: the document tree, the tokenizer, and the tree builder.

pub mod dom;
pub mod parser;
pub mod tokenizer;
