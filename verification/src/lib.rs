//! The core of a compiler from a query language to SQL: writing a parsed
//! program back as source text, and writing the operators of the
//! standard library as SQL text for a dialect.
//!
//! Both parts decide by binding strengths where parentheses are needed.
//! What each function returns is stated over the parsed representation
//! and proved; see `codegen::source` for the text of expressions,
//! `codegen::stmt` for statements and `sql::operators` for operators.

pub mod codegen;
pub mod fmt;
pub mod lexer;
pub mod parser;
pub mod pr;
pub mod rq;
pub mod semantic;
pub mod sql;
pub mod text;
