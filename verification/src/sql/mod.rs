//! Lowering to SQL text.

pub mod dialect;
pub mod error;
pub mod operators;
