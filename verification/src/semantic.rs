//! Declarations as they stand after names are resolved: a tree of
//! modules.

use crate::pr::expr::Expr;
use crate::pr::stmt::Annotation;
use crate::text::str_eq;
use vstd::prelude::*;

verus! {

/// A module: its declarations by name. Where a name is declared more
/// than once, the last declaration is the one that counts.
#[derive(Debug, PartialEq, Eq)]
pub struct Module {
    pub names: Vec<(String, Decl)>,
}

#[derive(Debug, PartialEq, Eq)]
pub struct Decl {
    pub kind: DeclKind,
    pub annotations: Vec<Annotation>,
}

#[derive(Debug, PartialEq, Eq)]
pub enum DeclKind {
    Module(Module),
    Expr(Box<Expr>),
}

/// Index of the last of `names` that is declared as `name`.
pub open spec fn last_named(names: Seq<(String, Decl)>, name: Seq<char>) -> Option<int>
    decreases names.len(),
{
    if names.len() == 0 {
        None
    } else if names.last().0@ == name {
        Some(names.len() - 1)
    } else {
        last_named(names.drop_last(), name)
    }
}

pub proof fn lemma_last_named_in_range(names: Seq<(String, Decl)>, name: Seq<char>)
    ensures
        last_named(names, name) matches Some(i) ==> 0 <= i < names.len() && names[i].0@ == name,
    decreases names.len(),
{
    if names.len() > 0 && names.last().0@ != name {
        lemma_last_named_in_range(names.drop_last(), name);
    }
}

impl Module {
    pub fn new() -> (r: Module)
        ensures
            r.names@.len() == 0,
    {
        Module { names: Vec::new() }
    }

    /// The declaration that `name` stands for in this module.
    pub open spec fn spec_get(self, name: Seq<char>) -> Option<Decl> {
        match last_named(self.names@, name) {
            Some(i) => Some(self.names@[i].1),
            None => None,
        }
    }

    /// Looks up the declaration that `name` stands for in this module.
    pub fn get(&self, name: &str) -> (r: Option<&Decl>)
        ensures
            match r {
                Some(d) => self.spec_get(name@) == Some(*d),
                None => self.spec_get(name@) is None,
            },
    {
        let mut i: usize = self.names.len();
        assert(self.names@.take(i as int) == self.names@);
        while i > 0
            invariant
                i <= self.names.len(),
                last_named(self.names@, name@) == last_named(self.names@.take(i as int), name@),
            decreases i,
        {
            proof {
                let t = self.names@.take(i as int);
                assert(t.last() == self.names@[i - 1]);
                assert(t.drop_last() == self.names@.take(i - 1));
            }
            if str_eq(self.names[i - 1].0.as_str(), name) {
                return Some(&self.names[i - 1].1);
            }
            i -= 1;
        }
        None
    }
}

} // verus!
