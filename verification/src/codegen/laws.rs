//! What holds of every text that the writers produce.

use crate::codegen::ident::{ident_part, is_keyword, is_plain_name};
use crate::codegen::options::WriteOpt;
use crate::codegen::precedence::{assoc, binds_left, strength, Position};
use crate::codegen::source::{
    broken_text, expr_source, exprs_between, exprs_inline, exprs_source, guarded_source,
    kind_between, kind_broken, kind_source, needs_parens, range_source, separators_width,
    trailing_comments,
};
use crate::codegen::writer::Out;
use crate::pr::expr::{Expr, ExprKind, Range};
use crate::text::{lemma_ascii_width, line_width};
use vstd::utf8::encode_utf8;
use vstd::prelude::*;

verus! {

/// Parentheses are written under a parent of strength `parent`, with the
/// expression on the side `position` of it and nothing before it that it
/// could be joined to, if and only if the parent binds more strongly, or
/// as strongly without the expression standing on the side to which its
/// own kind groups.
pub proof fn lemma_parenthesis_rule(kind: ExprKind, opt: WriteOpt)
    requires
        !opt.unbound_expr,
    ensures
        needs_parens(kind, opt) <==> (opt.context_strength > strength(kind) || (
        opt.context_strength == strength(kind) && (opt.binary_position == Position::Unspecified
            || assoc(kind) != opt.binary_position))),
{
}

/// An expression that needs no parentheses is written as its kind alone:
/// nothing is put around it.
pub proof fn lemma_no_parenthesis_added(kind: ExprKind, opt: WriteOpt)
    requires
        !needs_parens(kind, opt),
    ensures
        guarded_source(kind, opt) == kind_source(kind, opt),
{
}

/// An expression that needs parentheses is written between an opening
/// and a closing parenthesis, whichever way it is laid out.
pub proof fn lemma_parenthesis_written(kind: ExprKind, opt: WriteOpt)
    requires
        needs_parens(kind, opt),
        guarded_source(kind, opt) is Some,
    ensures
        guarded_source(kind, opt)->0.len() >= 2,
        guarded_source(kind, opt)->0.first() == '(',
        guarded_source(kind, opt)->0.last() == ')',
{
    reveal_strlit("(");
    reveal_strlit(")");
    reveal_strlit("(\n");
    let inline = kind_between(kind, opt);
    if inline is Some {
        let a = Out::start(opt).emit("("@);
        let inner = a.opt.spec_inside();
        let source = kind_source(kind, inner);
        assert(source is Some);
        assert(inline->0 =~= "("@ + source->0 + ")"@);
    } else {
        let inner = opt.spec_deeper_line()->0;
        let source = kind_source(kind, inner)->0;
        assert(kind_broken(kind, opt) == Some(broken_text(source, opt)));
    }
}

/// A name is written as it is if and only if it is a plain name and no
/// keyword; otherwise it is written between backticks.
pub proof fn lemma_bare_name(s: Seq<char>)
    ensures
        ident_part(s) == s <==> is_plain_name(s) && !is_keyword(s),
        ident_part(s) != s ==> ident_part(s) == "`"@ + s + "`"@,
{
    reveal_strlit("`");
    if !(is_plain_name(s) && !is_keyword(s)) {
        assert(("`"@ + s + "`"@).len() == s.len() + 2);
    }
}

/// Every keyword is written between backticks.
pub proof fn lemma_keyword_quoted(s: Seq<char>)
    requires
        is_keyword(s),
    ensures
        ident_part(s) == "`"@ + s + "`"@,
{
}

/// An expression that starts with an operator which could join it to
/// the expression before it is written between parentheses wherever such
/// an expression stands before it.
pub proof fn lemma_left_binding_hazard(kind: ExprKind, opt: WriteOpt)
    requires
        opt.unbound_expr,
        binds_left(kind),
    ensures
        needs_parens(kind, opt),
{
}

/// The comments that follow an expression are written directly after
/// it: the text of the expression ends with them.
pub proof fn lemma_comments_follow(e: Expr, opt: WriteOpt)
    requires
        e.alias is None,
        expr_source(e, opt) is Some,
    ensures
        guarded_source(e.kind, opt) is Some,
        expr_source(e, opt)->0 == guarded_source(e.kind, opt)->0 + trailing_comments(e.span, opt),
{
    let body = guarded_source(e.kind, opt);
    assert(Seq::<char>::empty() + body->0 =~= body->0);
}

/// An empty list between brackets of one byte each is written as the
/// two brackets, wherever the line has room for them.
pub proof fn lemma_empty_between(
    sep: Seq<char>,
    end: Seq<char>,
    prefix: Seq<char>,
    suffix: Seq<char>,
    opt: WriteOpt,
)
    requires
        opt.rem_width >= 2,
        line_width(prefix) == 1,
        line_width(suffix) == 1,
    ensures
        exprs_between(Seq::<Expr>::empty(), sep, end, prefix, suffix, opt) == Some(prefix + suffix),
{
    let none = Seq::<Expr>::empty();
    let a = Out::start(opt).emit(prefix);
    let inner = a.opt.spec_inside();
    assert(line_width(Seq::<char>::empty()) == 0) by {
        reveal(line_width);
        assert(encode_utf8(Seq::<char>::empty()) =~= Seq::<u8>::empty());
    }
    assert(exprs_inline(none, sep, 0, Out::start(inner)) == Out::start(inner));
    assert(separators_width(0, sep) == 0);
    assert(exprs_source(none, sep, end, inner) == Some(Seq::<char>::empty()));
    let b = a.with_opt(inner).emit_opt(exprs_source(none, sep, end, inner));
    assert(b.ok);
    assert(b.text =~= prefix);
    assert(b.emit(suffix).text =~= prefix + suffix);
}

proof fn lemma_brackets()
    ensures
        line_width("{"@) == 1,
        line_width("}"@) == 1,
        line_width("["@) == 1,
        line_width("]"@) == 1,
        "{"@ + "}"@ == "{}"@,
        "["@ + "]"@ == "[]"@,
{
    reveal_strlit("{}");
    reveal_strlit("{");
    reveal_strlit("}");
    reveal_strlit("[]");
    reveal_strlit("[");
    reveal_strlit("]");
    lemma_ascii_width("{"@);
    lemma_ascii_width("}"@);
    lemma_ascii_width("["@);
    lemma_ascii_width("]"@);
    assert("{"@ + "}"@ =~= "{}"@);
    assert("["@ + "]"@ =~= "[]"@);
}

/// An empty tuple is written as `{}`, wherever the line has room for
/// the two brackets.
pub proof fn lemma_empty_tuple(fields: Seq<Expr>, opt: WriteOpt)
    requires
        opt.rem_width >= 2,
        fields.len() == 0,
    ensures
        exprs_between(fields, ", "@, ","@, "{"@, "}"@, opt) == Some("{}"@),
{
    assert(fields =~= Seq::<Expr>::empty());
    lemma_brackets();
    lemma_empty_between(", "@, ","@, "{"@, "}"@, opt);
}

/// An empty array is written as `[]`, wherever the line has room for
/// the two brackets.
pub proof fn lemma_empty_array(items: Seq<Expr>, opt: WriteOpt)
    requires
        opt.rem_width >= 2,
        items.len() == 0,
    ensures
        exprs_between(items, ", "@, ","@, "["@, "]"@, opt) == Some("[]"@),
{
    assert(items =~= Seq::<Expr>::empty());
    lemma_brackets();
    lemma_empty_between(", "@, ","@, "["@, "]"@, opt);
}

/// A range with neither side is written as two dots, wherever the line
/// has room for them.
pub proof fn lemma_open_range(range: Range, opt: WriteOpt)
    requires
        opt.rem_width >= 2,
        range.start is None,
        range.end is None,
    ensures
        range_source(range, opt) == Some(".."@),
{
    assert(line_width(".."@) == 2) by {
        reveal_strlit("..");
        lemma_ascii_width(".."@);
    }
    assert(Seq::<char>::empty() + ".."@ =~= ".."@);
}

} // verus!
