//! The front end of a small interpreted language: a lexer that turns source
//! text into tokens, and a parser that assembles tokens into a syntax tree.

pub mod ast;
pub mod derive;
pub mod lexer;
pub mod parser;
pub mod stream;
pub mod token;
pub mod utils;
