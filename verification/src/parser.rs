//! What is handed to the parser: the tokens that carry meaning.

use crate::lexer::{Token, TokenKind};
use crate::pr::span::Span;
use crate::text::reverse_vec;
use vstd::prelude::*;
use vstd::string::*;

verus! {

/// The tokens that the parser reads, each with its place in the source
/// `source_id`.
pub open spec fn semantic_tokens(tokens: Seq<Token>, source_id: u16) -> Seq<(TokenKind, Span)>
    decreases tokens.len(),
{
    if tokens.len() == 0 {
        Seq::empty()
    } else {
        let t = tokens.last();
        let head = semantic_tokens(tokens.drop_last(), source_id);
        if t.kind.is_semantic() {
            head.push((t.kind, Span { start: t.span.start, end: t.span.end, source_id }))
        } else {
            head
        }
    }
}

/// The place of the end of input: the one character after the last of
/// the source.
pub open spec fn end_of_input(source: Seq<char>, source_id: u16) -> Span {
    Span { start: source.len() as usize, end: (source.len() + 1) as usize, source_id }
}

/// Convert the output of the lexer into the input of the parser: the
/// tokens without comments and wrapped lines, and the place of the end of
/// input. The end of input is placed by the length of the source text.
#[verifier::loop_isolation(false)]
pub fn prepare_stream(tokens: Vec<Token>, source: &str, source_id: u16) -> (r: (
    Vec<(TokenKind, Span)>,
    Span,
))
    requires
        source@.len() < usize::MAX,
    ensures
        r.0@ == semantic_tokens(tokens@, source_id),
        r.1 == end_of_input(source@, source_id),
{
    let ghost given = tokens@;
    let mut rest = reverse_vec(tokens);
    let mut stream: Vec<(TokenKind, Span)> = Vec::new();
    let ghost mut done: int = 0;
    while rest.len() > 0
        invariant
            0 <= done <= given.len(),
            done + rest@.len() == given.len(),
            rest@ == given.reverse().take(rest@.len() as int),
            stream@ == semantic_tokens(given.take(done), source_id),
        decreases rest.len(),
    {
        let token = rest.pop().unwrap();
        proof {
            assert(token == given[done]);
            assert(given.take(done + 1).drop_last() == given.take(done));
            done = done + 1;
        }
        let Token { kind, span } = token;
        match kind {
            TokenKind::Comment(_) | TokenKind::LineWrap(_) | TokenKind::DocComment(_) => {},
            kind => {
                stream.push((kind, Span::new(source_id, span.start, span.end)));
            },
        }
    }
    proof {
        assert(given.take(done) == given);
    }
    let len = source.unicode_len();
    let eoi = Span { start: len, end: len + 1, source_id };
    (stream, eoi)
}

} // verus!
