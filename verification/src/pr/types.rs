use crate::pr::ident::Ident;
use crate::pr::span::Span;
use vstd::prelude::*;

verus! {

/// A type, referred to by its name.
#[derive(Clone, Debug, PartialEq, Eq)]
pub struct Ty {
    pub name: Ident,
    pub span: Option<Span>,
}

impl Ty {
    pub fn new(name: Ident) -> (r: Ty)
        ensures
            r.name == name,
            r.span is None,
    {
        Ty { name, span: None }
    }
}

} // verus!
