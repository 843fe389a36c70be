use vstd::prelude::*;

verus! {

/// A stretch of a source text, in characters from its start.
#[derive(Clone, Copy, Debug, PartialEq, Eq, Structural)]
pub struct Span {
    pub start: usize,
    pub end: usize,
    pub source_id: u16,
}

impl Span {
    /// The stretch from `start` up to `end` in the source `source_id`.
    pub fn new(source_id: u16, start: usize, end: usize) -> (r: Span)
        ensures
            r == (Span { start, end, source_id }),
    {
        Span { start, end, source_id }
    }
}

} // verus!
