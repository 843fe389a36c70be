//! How strongly each kind of expression binds, and to which side.

use crate::pr::expr::ExprKind;
use crate::pr::ops::{BinOp, UnOp};
use vstd::prelude::*;

verus! {

/// Where an operand stands relative to the operator that holds it.
#[derive(Clone, Copy, Debug, PartialEq, Eq, Structural)]
pub enum Position {
    Unspecified,
    Left,
    Right,
}

/// Strength of the kinds that never need parentheses of their own.
pub const STRENGTH_ATOMIC: u8 = 100;

pub const STRENGTH_UNARY: u8 = 20;

pub const STRENGTH_RANGE: u8 = 19;

pub const STRENGTH_FUNC_CALL: u8 = 10;

pub const STRENGTH_FUNC: u8 = 7;

impl BinOp {
    /// Binding strength of the operator: the higher, the tighter.
    pub open spec fn strength(self) -> u8 {
        match self {
            BinOp::Pow => 19,
            BinOp::Mul | BinOp::DivInt | BinOp::DivFloat | BinOp::Mod => 18,
            BinOp::Add | BinOp::Sub => 17,
            BinOp::Eq
            | BinOp::Ne
            | BinOp::Gt
            | BinOp::Lt
            | BinOp::Gte
            | BinOp::Lte
            | BinOp::RegexSearch => 16,
            BinOp::Coalesce => 15,
            BinOp::And => 14,
            BinOp::Or => 13,
        }
    }

    /// The side on which a chain of this operator groups without
    /// parentheses.
    pub open spec fn assoc(self) -> Position {
        match self {
            BinOp::Pow => Position::Right,
            BinOp::Eq
            | BinOp::Ne
            | BinOp::Gt
            | BinOp::Lt
            | BinOp::Gte
            | BinOp::Lte
            | BinOp::RegexSearch => Position::Unspecified,
            _ => Position::Left,
        }
    }
}

/// Binding strength of an expression of kind `expr`.
pub open spec fn strength(expr: ExprKind) -> u8 {
    match expr {
        ExprKind::Unary(_) => STRENGTH_UNARY,
        ExprKind::Range(_) => STRENGTH_RANGE,
        ExprKind::Binary(b) => b.op.strength(),
        ExprKind::FuncCall(_) => STRENGTH_FUNC_CALL,
        ExprKind::Func(_) => STRENGTH_FUNC,
        _ => STRENGTH_ATOMIC,
    }
}

/// The side to which an expression of kind `expr` groups.
pub open spec fn assoc(expr: ExprKind) -> Position {
    match expr {
        ExprKind::Binary(b) => b.op.assoc(),
        _ => Position::Unspecified,
    }
}

/// Whether an expression of kind `expr` starts with an operator that
/// could be read as joining it to an expression on its left.
pub open spec fn binds_left(expr: ExprKind) -> bool {
    expr matches ExprKind::Unary(u) && (u.op == UnOp::EqSelf || u.op == UnOp::Add || u.op
        == UnOp::Neg)
}

impl BinOp {
    pub fn binding_strength(&self) -> (r: u8)
        ensures
            r == self.strength(),
            13 <= r <= 19,
    {
        match self {
            BinOp::Pow => 19,
            BinOp::Mul | BinOp::DivInt | BinOp::DivFloat | BinOp::Mod => 18,
            BinOp::Add | BinOp::Sub => 17,
            BinOp::Eq
            | BinOp::Ne
            | BinOp::Gt
            | BinOp::Lt
            | BinOp::Gte
            | BinOp::Lte
            | BinOp::RegexSearch => 16,
            BinOp::Coalesce => 15,
            BinOp::And => 14,
            BinOp::Or => 13,
        }
    }

    pub fn associativity(&self) -> (r: Position)
        ensures
            r == self.assoc(),
    {
        match self {
            BinOp::Pow => Position::Right,
            BinOp::Eq
            | BinOp::Ne
            | BinOp::Gt
            | BinOp::Lt
            | BinOp::Gte
            | BinOp::Lte
            | BinOp::RegexSearch => Position::Unspecified,
            _ => Position::Left,
        }
    }
}

pub fn binding_strength(expr: &ExprKind) -> (r: u8)
    ensures
        r == strength(*expr),
        7 <= r <= 100,
{
    match expr {
        // a name never needs parentheses around it
        ExprKind::Ident(_) => STRENGTH_ATOMIC,
        // Stronger than a range, since `-1..2` is `(-1)..2`
        // Stronger than binary op, since `-x == y` is `(-x) == y`
        // Stronger than a func call, since `exists !y` is `exists (!y)`
        ExprKind::Unary(_) => STRENGTH_UNARY,
        ExprKind::Range(_) => STRENGTH_RANGE,
        ExprKind::Binary(b) => b.op.binding_strength(),
        // Weaker than a child assign, since `select x = 1`
        // Weaker than a binary operator, since `filter x == 1`
        ExprKind::FuncCall(_) => STRENGTH_FUNC_CALL,
        ExprKind::Func(_) => STRENGTH_FUNC,
        // other nodes hold no operands
        _ => STRENGTH_ATOMIC,
    }
}

pub fn associativity(expr: &ExprKind) -> (r: Position)
    ensures
        r == assoc(*expr),
{
    match expr {
        ExprKind::Binary(b) => b.op.associativity(),
        _ => Position::Unspecified,
    }
}

/// True if this expression could be mistakenly bound with an expression on
/// the left.
pub fn can_bind_left(expr: &ExprKind) -> (r: bool)
    ensures
        r == binds_left(*expr),
{
    match expr {
        ExprKind::Unary(u) => match u.op {
            UnOp::EqSelf | UnOp::Add | UnOp::Neg => true,
            UnOp::Not => false,
        },
        _ => false,
    }
}

} // verus!
