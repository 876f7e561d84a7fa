//! Syntactic front end of a small expression-oriented language.
//!
//! A flat sequence of lexical tokens, produced by an external lexer over a
//! source text, is turned into a typed abstract syntax tree by an
//! operator-precedence (Pratt) expression parser combined with a small
//! statement and declaration grammar.  The grammar itself is written down
//! twice: once as a family of specification functions over mathematical
//! sequences (`grammar`), and once as executable code (`parser`) that is
//! proved to return exactly what the specification functions describe.

pub mod span;
pub mod token;
pub mod ast;
pub mod error;
pub mod num;
pub mod grammar;
pub mod parser;
pub mod laws;
