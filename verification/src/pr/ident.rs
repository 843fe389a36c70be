use vstd::prelude::*;

verus! {

/// A name with the names of the modules that lead to it.
#[derive(Clone, Debug, PartialEq, Eq)]
pub struct Ident {
    pub path: Vec<String>,
    pub name: String,
}

impl Ident {
    /// An identifier of one part.
    pub fn from_name(name: String) -> (r: Ident)
        ensures
            r.path@.len() == 0,
            r.name == name,
    {
        Ident { path: Vec::new(), name }
    }
}

} // verus!
