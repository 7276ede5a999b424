//! An interpreter for a small expression-oriented language: a lexer, a Pratt
//! parser with diagnostics, and a tree-walking evaluator.

pub mod text;
pub mod token;
pub mod lexer;
pub mod ast;
pub mod precedence;
pub mod diagnostics;
pub mod grammar;
pub mod parser;
pub mod printer;
pub mod object;
pub mod semantics;
pub mod evaluator;
pub mod environment;
pub mod render;
pub mod roundtrip;
