//! The comments of a source text, found again among its tokens.

use crate::lexer::{Token, TokenKind, Tokens};
use crate::pr::span::Span;
use vstd::prelude::*;
use vstd::string::*;

verus! {

/// Index of the first token from `i` on that ends at `end`.
pub open spec fn end_position(tokens: Seq<Token>, end: usize, i: int) -> Option<int>
    decreases tokens.len() - i,
{
    if 0 <= i < tokens.len() {
        if tokens[i].span.end == end {
            Some(i)
        } else {
            end_position(tokens, end, i + 1)
        }
    } else {
        None
    }
}

/// The unbroken run of comments and line breaks that starts at index `i`.
pub open spec fn comment_run(tokens: Seq<Token>, i: int) -> Seq<Token>
    decreases tokens.len() - i,
{
    if 0 <= i < tokens.len() && (tokens[i].kind is NewLine || tokens[i].kind is Comment) {
        seq![tokens[i]] + comment_run(tokens, i + 1)
    } else {
        Seq::empty()
    }
}

/// The comments and line breaks that directly follow the first token that
/// ends where `span` ends; none where no token ends there.
pub open spec fn comments_after(span: Span, tokens: Seq<Token>) -> Seq<Token> {
    match end_position(tokens, span.end, 0) {
        Some(i) => comment_run(tokens, i + 1),
        None => Seq::empty(),
    }
}

/// A comment or a line break as it is written.
pub open spec fn comment_text(kind: TokenKind) -> Seq<char> {
    match kind {
        TokenKind::Comment(s) => "#"@ + s@,
        TokenKind::NewLine => "\n"@,
        _ => Seq::empty(),
    }
}

/// A run of comments and line breaks as it is written.
pub open spec fn comments_text(comments: Seq<Token>) -> Seq<char>
    decreases comments.len(),
{
    if comments.len() == 0 {
        Seq::empty()
    } else {
        comments_text(comments.drop_last()) + comment_text(comments.last().kind)
    }
}

/// What is written after an expression for the comments that follow it:
/// two spaces first where a comment follows on the same line.
pub open spec fn trailing_text(comments: Seq<Token>) -> Seq<char> {
    if comments.len() > 0 && comments[0].kind is Comment {
        "  "@ + comments_text(comments)
    } else {
        comments_text(comments)
    }
}

/// Finds the first token that ends at `end`.
pub fn find_end(tokens: &Tokens, end: usize) -> (r: Option<usize>)
    ensures
        match end_position(tokens.0@, end, 0) {
            Some(i) => r == Some(i as usize) && 0 <= i < tokens.0@.len(),
            None => r is None,
        },
{
    let mut i: usize = 0;
    while i < tokens.0.len()
        invariant
            i <= tokens.0.len(),
            end_position(tokens.0@, end, i as int) == end_position(tokens.0@, end, 0),
        decreases tokens.0.len() - i,
    {
        if tokens.0[i].span.end == end {
            return Some(i);
        }
        i += 1;
    }
    None
}

/// Find comments after a given span: the comments and line breaks that
/// directly follow the first token that ends where `span` ends.
pub fn find_comments_after(span: Span, tokens: &Tokens) -> (out: Vec<Token>)
    requires
        end_position(tokens.0@, span.end, 0) is Some,
    ensures
        out@ == comments_after(span, tokens.0@),
{
    let index = find_end(tokens, span.end).unwrap();
    let len = tokens.0.len();
    assert(index < len);
    let mut out: Vec<Token> = Vec::new();
    let mut j: usize = index + 1;
    loop
        invariant
            index < j <= tokens.0.len(),
            out@ + comment_run(tokens.0@, j as int) == comment_run(tokens.0@, index + 1),
        ensures
            out@ == comment_run(tokens.0@, index + 1),
        decreases tokens.0.len() - j,
    {
        if j >= tokens.0.len() {
            assert(out@ + Seq::<Token>::empty() =~= out@);
            break ;
        }
        let ghost before = out@;
        match &tokens.0[j].kind {
            TokenKind::NewLine => {
                out.push(Token { kind: TokenKind::NewLine, span: tokens.0[j].span });
            },
            TokenKind::Comment(s) => {
                out.push(Token { kind: TokenKind::Comment(s.clone()), span: tokens.0[j].span });
            },
            _ => {
                assert(out@ + Seq::<Token>::empty() =~= out@);
                break ;
            },
        }
        proof {
            assert(out@ == before.push(tokens.0@[j as int]));
            assert(before.push(tokens.0@[j as int]) + comment_run(tokens.0@, j + 1) =~= before + (
            seq![tokens.0@[j as int]] + comment_run(tokens.0@, j + 1)));
        }
        j += 1;
    }
    out
}

/// Writes the comments that follow an expression.
pub fn write_trailing(comments: &Vec<Token>) -> (r: String)
    ensures
        r@ == trailing_text(comments@),
{
    let mut r = String::new();
    if comments.len() > 0 {
        match &comments[0].kind {
            TokenKind::Comment(_) => {
                r.append("  ");
            },
            _ => {},
        }
    }
    let ghost lead = r@;
    assert(lead + Seq::<char>::empty() =~= lead);
    let mut i: usize = 0;
    while i < comments.len()
        invariant
            i <= comments.len(),
            r@ == lead + comments_text(comments@.take(i as int)),
        decreases comments.len() - i,
    {
        proof {
            assert(comments@.take(i + 1).drop_last() == comments@.take(i as int));
        }
        match &comments[i].kind {
            TokenKind::Comment(s) => {
                r.append("#");
                r.append(s.as_str());
            },
            TokenKind::NewLine => {
                r.append("\n");
            },
            _ => {},
        }
        assert(r@ =~= lead + comments_text(comments@.take(i + 1)));
        i += 1;
    }
    proof {
        assert(comments@.take(i as int) == comments@);
        assert(Seq::<char>::empty() + comments_text(comments@) =~= comments_text(comments@));
    }
    r
}

} // verus!
