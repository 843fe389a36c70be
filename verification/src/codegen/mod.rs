//! Writing a parsed program back as source text.

pub mod ast;
pub mod attach;
pub mod comments;
pub mod flat;
pub mod ident;
pub mod laws;
pub mod options;
pub mod precedence;
pub mod source;
pub mod stmt;
pub mod writer;
