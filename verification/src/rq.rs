//! The relational representation that a query is lowered to, as far as
//! operators are concerned.

use crate::pr::span::Span;
use vstd::prelude::*;

verus! {

#[derive(Debug, PartialEq, Eq)]
pub struct Expr {
    pub kind: ExprKind,
    pub span: Option<Span>,
}

#[derive(Debug, PartialEq, Eq)]
pub enum ExprKind {
    /// The call of an operator of the standard library, by its full name.
    Operator { name: String, args: Vec<Expr> },
    /// An expression that is lowered to SQL text already, with the
    /// strength that the text binds with.
    Source { text: String, binding_strength: i32 },
}

impl Expr {
    pub fn new(kind: ExprKind) -> (r: Expr)
        ensures
            r.kind == kind,
            r.span is None,
    {
        Expr { kind, span: None }
    }
}

} // verus!
