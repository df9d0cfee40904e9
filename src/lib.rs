//! Front end of a small C-like language: a lexer that turns source text into
//! tokens and a recursive-descent parser that turns tokens into syntax trees
//! and a table of local variables.

pub mod ast;
pub mod grammar;
pub mod laws;
pub mod lexer;
pub mod parser;
pub mod text;
