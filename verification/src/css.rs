//! Stylesheet parsing: the value and rule models, the grammar, and the parser.

pub mod grammar;
pub mod laws;
pub mod parser;
pub mod properties;
pub mod rules;
pub mod specificity;
pub mod values;
