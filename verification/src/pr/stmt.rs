use crate::pr::expr::Expr;
use crate::pr::ident::Ident;
use crate::pr::span::Span;
use crate::pr::types::Ty;
use vstd::prelude::*;

verus! {

#[derive(Debug, PartialEq, Eq)]
pub struct Stmt {
    pub kind: StmtKind,
    pub span: Option<Span>,
    pub annotations: Vec<Annotation>,
}

#[derive(Debug, PartialEq, Eq)]
pub enum StmtKind {
    QueryDef(Box<QueryDef>),
    VarDef(VarDef),
    TypeDef(TypeDef),
    ModuleDef(ModuleDef),
    ImportDef(ImportDef),
}

/// The header of a query: the version it asks for, then its other
/// options in the order of the source.
#[derive(Clone, Debug, PartialEq, Eq)]
pub struct QueryDef {
    pub version: Option<String>,
    pub other: Vec<(String, String)>,
}

#[derive(Clone, Copy, Debug, PartialEq, Eq, Structural)]
pub enum VarDefKind {
    Let,
    Into,
    Main,
}

#[derive(Debug, PartialEq, Eq)]
pub struct VarDef {
    pub kind: VarDefKind,
    pub name: String,
    pub value: Option<Box<Expr>>,
    pub ty: Option<Ty>,
}

#[derive(Clone, Debug, PartialEq, Eq)]
pub struct TypeDef {
    pub name: String,
    pub value: Option<Ty>,
}

#[derive(Debug, PartialEq, Eq)]
pub struct ModuleDef {
    pub name: String,
    pub stmts: Vec<Stmt>,
}

#[derive(Clone, Debug, PartialEq, Eq)]
pub struct ImportDef {
    pub alias: Option<String>,
    pub name: Ident,
}

#[derive(Debug, PartialEq, Eq)]
pub struct Annotation {
    pub expr: Box<Expr>,
}

impl Stmt {
    /// A statement of the given kind with no span or annotations.
    pub fn new(kind: StmtKind) -> (r: Stmt)
        ensures
            r.kind == kind,
            r.span is None,
            r.annotations@.len() == 0,
    {
        Stmt { kind, span: None, annotations: Vec::new() }
    }
}

} // verus!
