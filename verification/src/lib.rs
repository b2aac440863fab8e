//! The front end of a JavaScript parser.
//!
//! - `reader`: a reader over the characters of a source text;
//! - `token`: the token vocabulary (keywords, punctuators, literals) and the
//!   rules for which keywords may be identifiers in which context;
//! - `token_reader`: a reader over a sequence of tokens that can go back;
//! - `parser`: the parser's token-level helpers, and the parsing of binding
//!   patterns, import declarations, property names and variable statements;
//! - `error` and `lexer_error`: what goes wrong, and the messages for it.

pub mod ast;
pub mod context;
pub mod error;
pub mod lexer_error;
pub mod parser;
pub mod reader;
pub mod span;
pub mod token;
pub mod token_reader;

mod text;

pub use context::{Context, ThenTry};
