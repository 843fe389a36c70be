//! The parsed representation of a program: expressions, statements, and
//! the small types they are built from.

pub mod expr;
pub mod ident;
pub mod literal;
pub mod ops;
pub mod span;
pub mod stmt;
pub mod types;
