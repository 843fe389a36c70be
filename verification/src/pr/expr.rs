use crate::lexer::Token;
use crate::pr::literal::Literal;
use crate::pr::ops::{BinOp, UnOp};
use crate::pr::span::Span;
use crate::pr::types::Ty;
use vstd::prelude::*;

verus! {

/// An expression with what surrounds it in source: the name it is bound
/// to, the place it was read from and the comments that stand before it.
#[derive(Debug, PartialEq, Eq)]
pub struct Expr {
    pub kind: ExprKind,
    pub span: Option<Span>,
    pub alias: Option<String>,
    pub comments_before: Vec<Token>,
}

#[derive(Debug, PartialEq, Eq)]
pub enum ExprKind {
    Ident(String),
    Indirection { base: Box<Expr>, field: IndirectionKind },
    Literal(Literal),
    Pipeline(Pipeline),
    Tuple(Vec<Expr>),
    Array(Vec<Expr>),
    Range(Range),
    Binary(BinaryExpr),
    Unary(UnaryExpr),
    FuncCall(FuncCall),
    Func(Box<Func>),
    SString(Vec<InterpolateItem>),
    FString(Vec<InterpolateItem>),
    Case(Vec<SwitchCase>),
    Param(String),
    Internal(String),
}

#[derive(Clone, Debug, PartialEq, Eq)]
pub enum IndirectionKind {
    Name(String),
    Position(i64),
    Star,
}

#[derive(Debug, PartialEq, Eq)]
pub struct Pipeline {
    pub exprs: Vec<Expr>,
}

#[derive(Debug, PartialEq, Eq)]
pub struct Range {
    pub start: Option<Box<Expr>>,
    pub end: Option<Box<Expr>>,
}

#[derive(Debug, PartialEq, Eq)]
pub struct BinaryExpr {
    pub left: Box<Expr>,
    pub op: BinOp,
    pub right: Box<Expr>,
}

#[derive(Debug, PartialEq, Eq)]
pub struct UnaryExpr {
    pub op: UnOp,
    pub expr: Box<Expr>,
}

/// A call: the function, then the arguments given by position and those
/// given by name, each list in the order of the source.
#[derive(Debug, PartialEq, Eq)]
pub struct FuncCall {
    pub name: Box<Expr>,
    pub args: Vec<Expr>,
    pub named_args: Vec<(String, Expr)>,
}

/// A function literal.
#[derive(Debug, PartialEq, Eq)]
pub struct Func {
    pub return_ty: Option<Ty>,
    pub body: Box<Expr>,
    pub params: Vec<FuncParam>,
    pub named_params: Vec<NamedParam>,
    pub generic_type_params: Vec<GenericTypeParam>,
}

/// A parameter that is given by position.
#[derive(Clone, Debug, PartialEq, Eq)]
pub struct FuncParam {
    pub name: String,
    pub ty: Option<Ty>,
}

/// A parameter that is given by name, with the value it has when it is
/// left out.
#[derive(Debug, PartialEq, Eq)]
pub struct NamedParam {
    pub name: String,
    pub ty: Option<Ty>,
    pub default_value: Expr,
}

#[derive(Clone, Debug, PartialEq, Eq)]
pub struct GenericTypeParam {
    pub name: String,
    pub domain: Vec<Ty>,
}

/// One part of an interpolated string.
#[derive(Debug, PartialEq, Eq)]
pub enum InterpolateItem {
    String(String),
    Expr { expr: Box<Expr>, format: Option<String> },
}

#[derive(Debug, PartialEq, Eq)]
pub struct SwitchCase {
    pub condition: Box<Expr>,
    pub value: Box<Expr>,
}

impl Expr {
    /// An expression of the given kind with no alias, span or comments.
    pub fn new(kind: ExprKind) -> (r: Expr)
        ensures
            r.kind == kind,
            r.span is None,
            r.alias is None,
            r.comments_before@.len() == 0,
    {
        Expr { kind, span: None, alias: None, comments_before: Vec::new() }
    }
}

} // verus!
