use crate::pr::span::Span;
use crate::sql::dialect::Dialect;
use vstd::prelude::*;
use vstd::string::*;

verus! {

/// Why an operator could not be translated.
#[derive(Clone, Copy, Debug, PartialEq, Eq, Structural)]
pub enum Reason {
    /// Neither the dialect nor the standard library defines the operator.
    UnknownOperator,
    /// The operator is defined as not available in the dialect.
    Unsupported,
    /// The operator is called with more or fewer arguments than it has
    /// parameters.
    Arity,
}

/// A failed translation: the reason, the operator and dialect it
/// happened for, and the place of the expression in the source, where it
/// is known.
#[derive(Debug, PartialEq, Eq)]
pub struct Error {
    pub reason: Reason,
    pub operator: String,
    pub dialect: Dialect,
    pub span: Option<Span>,
}

/// An error as contracts speak of it.
pub struct ErrorView {
    pub reason: Reason,
    pub operator: Seq<char>,
    pub dialect: Dialect,
    pub span: Option<Span>,
}

impl View for Error {
    type V = ErrorView;

    open spec fn view(&self) -> ErrorView {
        ErrorView {
            reason: self.reason,
            operator: self.operator@,
            dialect: self.dialect,
            span: self.span,
        }
    }
}

impl ErrorView {
    /// The error with `span` as its place, unless it has one already.
    pub open spec fn with_span(self, span: Option<Span>) -> ErrorView {
        if self.span is Some {
            self
        } else {
            ErrorView { span, ..self }
        }
    }

    /// The error in words.
    pub open spec fn message(self) -> Seq<char> {
        match self.reason {
            Reason::UnknownOperator => "unknown operator "@ + self.operator,
            Reason::Unsupported => "operator "@ + self.operator + " not supported for dialect "@
                + self.dialect.name(),
            Reason::Arity => "operator "@ + self.operator
                + " called with a wrong number of arguments"@,
        }
    }
}

impl Error {
    pub fn new(reason: Reason, operator: &str, dialect: Dialect) -> (r: Error)
        ensures
            r@ == (ErrorView { reason, operator: operator@, dialect, span: None }),
    {
        Error { reason, operator: String::from_str(operator), dialect, span: None }
    }

    /// Gives the error the place `span`, unless it has one already.
    pub fn with_span(self, span: Option<Span>) -> (r: Error)
        ensures
            r@ == self@.with_span(span),
    {
        if self.span.is_some() {
            self
        } else {
            Error { reason: self.reason, operator: self.operator, dialect: self.dialect, span }
        }
    }

    /// The error in words.
    pub fn message(&self) -> (r: String)
        ensures
            r@ == self@.message(),
    {
        match self.reason {
            Reason::UnknownOperator => {
                let mut r = String::from_str("unknown operator ");
                r.append(self.operator.as_str());
                r
            },
            Reason::Unsupported => {
                let mut r = String::from_str("operator ");
                r.append(self.operator.as_str());
                r.append(" not supported for dialect ");
                r.append(self.dialect.as_str());
                r
            },
            Reason::Arity => {
                let mut r = String::from_str("operator ");
                r.append(self.operator.as_str());
                r.append(" called with a wrong number of arguments");
                r
            },
        }
    }
}

} // verus!
