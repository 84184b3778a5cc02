//! A loss-tolerant stylesheet parser with a small companion document parser.
//!
//! The `css` modules turn stylesheet text into an owned tree of rules and values
//! and keep going past malformed input; `html` builds a document tree from markup.
//! Every executable function is specified against a mathematical model of the
//! text (`Seq<char>`) and of the tree it returns.

pub mod css;
pub mod html;
pub mod json;
pub mod printer;
pub mod styles;
pub mod text;
