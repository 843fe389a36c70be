//! The tokens that a source text is cut into before it is parsed.

use crate::pr::literal::Literal;
use vstd::prelude::*;

verus! {

#[derive(Clone, Debug, PartialEq, Eq)]
pub enum TokenKind {
    NewLine,
    Ident(String),
    Keyword(String),
    Literal(Literal),
    Param(String),
    Range { bind_left: bool, bind_right: bool },
    Interpolation(char, String),
    Control(char),
    ArrowThin,
    ArrowFat,
    Eq,
    Ne,
    Gte,
    Lte,
    RegexSearch,
    And,
    Or,
    Coalesce,
    DivInt,
    Pow,
    Annotate,
    Comment(String),
    DocComment(String),
    LineWrap(String),
    Start,
}

/// The stretch of a source text that a token was read from.
#[derive(Clone, Copy, Debug, PartialEq, Eq, Structural)]
pub struct TokenSpan {
    pub start: usize,
    pub end: usize,
}

/// A token and the stretch of the source that it was read from.
#[derive(Clone, Debug, PartialEq, Eq)]
pub struct Token {
    pub kind: TokenKind,
    pub span: TokenSpan,
}

/// All tokens of one source, in the order in which they were read.
#[derive(Clone, Debug, PartialEq, Eq)]
pub struct Tokens(pub Vec<Token>);

impl TokenKind {
    /// Tokens that carry no meaning for the parser: comments, line breaks
    /// and wrapped lines.
    pub open spec fn is_aesthetic(self) -> bool {
        self is Comment || self is NewLine || self is LineWrap
    }

    /// Tokens that the parser reads: all but comments, documentation
    /// comments and wrapped lines.
    pub open spec fn is_semantic(self) -> bool {
        !(self is Comment || self is LineWrap || self is DocComment)
    }
}

} // verus!
