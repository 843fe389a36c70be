//! What the writers produce, stated over the parsed representation.
//!
//! Every function here gives, for a node and the options it is written
//! under, the text that is written, or `None` where the text does not fit
//! on the line and the caller has to lay it out otherwise.

use crate::codegen::comments::{comments_after, trailing_text};
use crate::codegen::ident::{ident_part, ident_source};
use crate::codegen::options::{indent_text, WriteOpt};
use crate::codegen::precedence::{
    assoc, binds_left, strength, Position, STRENGTH_FUNC_CALL, STRENGTH_RANGE, STRENGTH_UNARY,
};
use crate::codegen::writer::Out;
use crate::pr::expr::{
    BinaryExpr, Expr, ExprKind, Func, FuncCall, FuncParam, GenericTypeParam, IndirectionKind,
    InterpolateItem, NamedParam, Range, SwitchCase, UnaryExpr,
};
use crate::pr::span::Span;
use crate::pr::types::Ty;
use crate::text::{decimal, doubled_braces, has_line_break, width};
use vstd::prelude::*;

verus! {

/// Whether an expression of kind `kind` is put in parentheses under `opt`:
/// where it starts with an operator that would join it to the expression
/// before it; where what surrounds it binds more strongly; and where what
/// surrounds it binds as strongly, unless the expression stands on the
/// side to which its kind groups.
pub open spec fn needs_parens(kind: ExprKind, opt: WriteOpt) -> bool {
    ||| opt.unbound_expr && binds_left(kind)
    ||| opt.context_strength > strength(kind)
    ||| opt.context_strength == strength(kind) && !(opt.binary_position != Position::Unspecified
        && assoc(kind) == opt.binary_position)
}

/// The text for the comments that follow an expression read from `span`.
pub open spec fn trailing_comments(span: Option<Span>, opt: WriteOpt) -> Seq<char> {
    match (span, opt.tokens) {
        (Some(span), Some(tokens)) if opt.enable_comments => trailing_text(
            comments_after(span, tokens.0@),
        ),
        _ => Seq::empty(),
    }
}

/// `"(\n"`, the indented `inner` text, a line break and the closing
/// parenthesis at the indentation of `opt`.
pub open spec fn broken_text(inner: Seq<char>, opt: WriteOpt) -> Seq<char> {
    "(\n"@ + indent_text((opt.indent + 1) as nat) + inner + "\n"@ + indent_text(opt.indent as nat)
        + ")"@
}

// Types

pub open spec fn ty_source(ty: Ty, opt: WriteOpt) -> Option<Seq<char>> {
    ident_source(ty.name, opt)
}

/// A type between angle brackets.
pub open spec fn ty_between(ty: Ty, opt: WriteOpt) -> Option<Seq<char>> {
    let a = Out::start(opt).emit("<"@);
    let inner = a.opt.spec_inside();
    a.with_opt(inner).emit_opt(ty_source(ty, inner)).emit(">"@).done()
}

pub open spec fn tys_inline<'a>(v: Seq<Ty>, sep: Seq<char>, i: int, out: Out<'a>) -> Out<'a>
    decreases v.len() - i,
{
    if 0 <= i < v.len() {
        let lead = if i > 0 {
            out.put(sep)
        } else {
            out
        };
        let next = match ty_source(v[i], out.opt) {
            Some(s) if !has_line_break(s) => lead.emit_whole(s),
            _ => lead.fail(),
        };
        tys_inline(v, sep, i + 1, next)
    } else {
        out
    }
}

pub open spec fn tys_lines<'a>(
    v: Seq<Ty>,
    end: Seq<char>,
    item_opt: WriteOpt<'a>,
    i: int,
    out: Out<'a>,
) -> Out<'a>
    decreases v.len() - i,
{
    if 0 <= i < v.len() {
        let next = out.put("\n"@).put(indent_text(item_opt.indent as nat)).put_opt(
            ty_source(v[i], item_opt),
        ).put(end);
        tys_lines(v, end, item_opt, i + 1, next)
    } else {
        out
    }
}

/// Types on one line with `sep` between them, or, where that does not
/// fit, one to a line with `end` after each.
pub open spec fn tys_source(v: Seq<Ty>, sep: Seq<char>, end: Seq<char>, opt: WriteOpt) -> Option<
    Seq<char>,
> {
    let inline = tys_inline(v, sep, 0, Out::start(opt)).take(separators_width(v.len(), sep)).done();
    if inline is Some {
        inline
    } else {
        match lines_opt(v.len(), end, opt) {
            Some(item_opt) => tys_lines(v, end, item_opt, 0, Out::start(opt)).put("\n"@).put(
                indent_text(opt.indent as nat),
            ).done(),
            None => None,
        }
    }
}

/// Width of the separators between `n` items on one line.
pub open spec fn separators_width(n: nat, sep: Seq<char>) -> nat {
    if n > 0 {
        width(sep) * ((n - 1) as nat)
    } else {
        0
    }
}

/// The options for each of `n` items that are written one to a line: one
/// step further in, on a fresh line, with room kept for `end`. An empty
/// list needs no line of its own.
pub open spec fn lines_opt<'a>(n: nat, end: Seq<char>, opt: WriteOpt<'a>) -> Option<WriteOpt<'a>> {
    if opt.indent == u16::MAX {
        None
    } else if n == 0 {
        Some(WriteOpt { indent: (opt.indent + 1) as u16, ..opt })
    } else {
        match opt.spec_deeper_line() {
            Some(o) => o.spec_consume_width(width(end)),
            None => None,
        }
    }
}

// Expressions

/// An operand of an expression that binds with `parent`.
pub open spec fn within(e: Expr, parent: u8, opt: WriteOpt) -> Option<Seq<char>>
    decreases e, 1nat,
{
    expr_source(e, opt.spec_within(parent))
}

/// An expression: its alias, if it has one; its kind, in parentheses
/// where `needs_parens` asks for them; and the comments that follow it.
pub open spec fn expr_source(e: Expr, opt: WriteOpt) -> Option<Seq<char>>
    decreases e, 0nat,
{
    let a = match e.alias {
        Some(alias) => {
            let named = Out::start(opt).emit(alias@).emit(" = "@);
            named.with_opt(WriteOpt { unbound_expr: false, ..named.opt })
        },
        None => Out::start(opt),
    };
    a.put_opt(guarded_source(e.kind, a.opt)).put(trailing_comments(e.span, a.opt)).done()
}

/// What an expression of kind `k` is written as where it stands: as it
/// is where it needs no parentheses; otherwise between parentheses, on
/// one line where that fits and on lines of its own where it does not.
pub open spec fn guarded_source(k: ExprKind, opt: WriteOpt) -> Option<Seq<char>>
    decreases k, 2nat,
{
    if !needs_parens(k, opt) {
        kind_source(k, opt)
    } else {
        let inline = kind_between(k, opt);
        if inline is Some {
            inline
        } else {
            kind_broken(k, opt)
        }
    }
}

/// An expression on lines of its own between parentheses.
pub open spec fn expr_broken(e: Expr, opt: WriteOpt) -> Option<Seq<char>>
    decreases e, 1nat,
{
    match opt.spec_deeper_line() {
        Some(inner) => match expr_source(e, inner) {
            Some(s) => Some(broken_text(s, opt)),
            None => None,
        },
        None => None,
    }
}

/// What an expression of kind `k` is written as, between parentheses on
/// one line.
pub open spec fn kind_between(k: ExprKind, opt: WriteOpt) -> Option<Seq<char>>
    decreases k, 1nat,
{
    let a = Out::start(opt).emit("("@);
    let inner = a.opt.spec_inside();
    a.with_opt(inner).emit_opt(kind_source(k, inner)).emit(")"@).done()
}

/// What an expression of kind `k` is written as, on lines of its own
/// between parentheses.
pub open spec fn kind_broken(k: ExprKind, opt: WriteOpt) -> Option<Seq<char>>
    decreases k, 1nat,
{
    match opt.spec_deeper_line() {
        Some(inner) => match kind_source(k, inner) {
            Some(s) => Some(broken_text(s, opt)),
            None => None,
        },
        None => None,
    }
}

/// What an expression of kind `k` is written as.
pub open spec fn kind_source(k: ExprKind, opt: WriteOpt) -> Option<Seq<char>>
    decreases k, 0nat,
{
    match k {
        ExprKind::Ident(name) => Some(ident_part(name@)),
        ExprKind::Indirection { base, field } => indirection_source(*base, field, opt),
        ExprKind::Pipeline(pipeline) => exprs_between(
            pipeline.exprs@,
            " | "@,
            ""@,
            "("@,
            ")"@,
            opt,
        ),
        ExprKind::Tuple(fields) => exprs_between(fields@, ", "@, ","@, "{"@, "}"@, opt),
        ExprKind::Array(items) => exprs_between(items@, ", "@, ","@, "["@, "]"@, opt),
        ExprKind::Range(range) => range_source(range, opt),
        ExprKind::Binary(binary) => binary_source(binary, opt),
        ExprKind::Unary(unary) => unary_source(unary, opt),
        ExprKind::FuncCall(call) => func_call_source(call, opt),
        ExprKind::Func(func) => func_source(*func, opt),
        ExprKind::SString(parts) => interpolation_source("s"@, parts@, opt),
        ExprKind::FString(parts) => interpolation_source("f"@, parts@, opt),
        ExprKind::Literal(literal) => Out::start(opt).emit(literal.text()).done(),
        ExprKind::Case(cases) => match cases_between(cases@, ", "@, ","@, "["@, "]"@, opt) {
            Some(s) => Some("case "@ + s),
            None => None,
        },
        ExprKind::Param(id) => Some("$"@ + id@),
        ExprKind::Internal(name) => Some("internal "@ + name@),
    }
}

/// The field of an indirection as it is written after the dot.
pub open spec fn field_out<'a>(field: IndirectionKind, out: Out<'a>) -> Out<'a> {
    match field {
        IndirectionKind::Name(n) => out.emit(ident_part(n@)),
        IndirectionKind::Position(i) => out.emit(decimal(i as int)),
        IndirectionKind::Star => out.put("*"@),
    }
}

/// `base.field`.
pub open spec fn indirection_source(base: Expr, field: IndirectionKind, opt: WriteOpt) -> Option<
    Seq<char>,
>
    decreases base, 1nat,
{
    field_out(field, Out::start(opt).emit_whole_opt(expr_source(base, opt)).emit("."@)).done()
}

/// `start..end`, where either side may be missing.
pub open spec fn range_source(range: Range, opt: WriteOpt) -> Option<Seq<char>>
    decreases range, 0nat,
{
    let a = match range.start {
        Some(start) => Out::start(opt).emit_opt(within(*start, STRENGTH_RANGE, opt)),
        None => Out::start(opt),
    };
    let b = a.emit(".."@);
    let c = match range.end {
        Some(end) => b.put_opt(within(*end, STRENGTH_RANGE, b.opt)),
        None => b,
    };
    c.done()
}

/// `left op right`, each side written as an operand of the operator on
/// its own side.
pub open spec fn binary_source(binary: BinaryExpr, opt: WriteOpt) -> Option<Seq<char>>
    decreases binary, 0nat,
{
    let s = binary.op.strength();
    let left = within(*binary.left, s, WriteOpt { binary_position: Position::Left, ..opt });
    let a = Out::start(opt).emit_opt(left).emit(" "@).emit(binary.op.symbol()).emit(" "@);
    let right = within(*binary.right, s, WriteOpt { binary_position: Position::Right, ..a.opt });
    a.put_opt(right).done()
}

/// The operator directly followed by its operand.
pub open spec fn unary_source(unary: UnaryExpr, opt: WriteOpt) -> Option<Seq<char>>
    decreases unary, 0nat,
{
    let a = Out::start(opt).emit(unary.op.symbol());
    a.put_opt(within(*unary.expr, STRENGTH_UNARY, a.opt)).done()
}

/// The arguments by name from index `i` on: a space, the name, a colon
/// and the value.
pub open spec fn named_args_out<'a>(v: Seq<(String, Expr)>, i: int, out: Out<'a>) -> Out<'a>
    decreases v, v.len() - i,
{
    if 0 <= i < v.len() {
        let a = out.emit(" "@).emit(v[i].0@).emit(":"@);
        named_args_out(v, i + 1, a.emit_opt(within(v[i].1, STRENGTH_FUNC_CALL, a.opt)))
    } else {
        out
    }
}

/// The arguments by position from index `i` on, a space before each.
pub open spec fn args_out<'a>(v: Seq<Expr>, i: int, out: Out<'a>) -> Out<'a>
    decreases v, v.len() - i,
{
    if 0 <= i < v.len() {
        let a = out.emit(" "@);
        args_out(v, i + 1, a.emit_opt(within(v[i], STRENGTH_FUNC_CALL, a.opt)))
    } else {
        out
    }
}

/// The function, then its arguments by name, then those by position.
/// After the function every argument is written as following an
/// expression that an operator at its start could be joined to.
pub open spec fn func_call_source(call: FuncCall, opt: WriteOpt) -> Option<Seq<char>>
    decreases call, 0nat,
{
    let a = Out::start(opt).emit_opt(within(*call.name, STRENGTH_FUNC_CALL, opt));
    let b = a.with_opt(WriteOpt { unbound_expr: true, ..a.opt });
    args_out(call.args@, 0, named_args_out(call.named_args@, 0, b)).done()
}

/// The type parameters from index `i` on: the name, a colon and the
/// types it ranges over.
pub open spec fn generics_out<'a>(v: Seq<GenericTypeParam>, i: int, out: Out<'a>) -> Out<'a>
    decreases v.len() - i,
{
    if 0 <= i < v.len() {
        let a = out.emit(ident_part(v[i].name@)).emit(": "@);
        generics_out(v, i + 1, a.emit_opt(tys_source(v[i].domain@, " | "@, "|"@, a.opt)))
    } else {
        out
    }
}

/// A type between angle brackets and a space, where there is a type.
pub open spec fn ty_out<'a>(ty: Option<Ty>, out: Out<'a>) -> Out<'a> {
    match ty {
        Some(ty) => out.emit_opt(ty_between(ty, out.opt)).emit(" "@),
        None => out,
    }
}

/// The parameters by position from index `i` on: the name, a space, and
/// the type if it has one.
pub open spec fn params_out<'a>(v: Seq<FuncParam>, i: int, out: Out<'a>) -> Out<'a>
    decreases v.len() - i,
{
    if 0 <= i < v.len() {
        params_out(v, i + 1, ty_out(v[i].ty, out.emit(ident_part(v[i].name@)).emit(" "@)))
    } else {
        out
    }
}

/// The parameters by name from index `i` on: the name, a colon, the
/// value it has when left out, and a space.
pub open spec fn named_params_out<'a>(v: Seq<NamedParam>, i: int, out: Out<'a>) -> Out<'a>
    decreases v, v.len() - i,
{
    if 0 <= i < v.len() {
        let a = out.emit(ident_part(v[i].name@)).emit(":"@);
        named_params_out(v, i + 1, a.emit_opt(expr_source(v[i].default_value, a.opt)).emit(" "@))
    } else {
        out
    }
}

/// What stands before the body of a function literal.
pub open spec fn func_head<'a>(func: Func, opt: WriteOpt<'a>) -> Out<'a>
    decreases func, 0nat,
{
    let a = Out::start(opt).put("func "@);
    let b = if func.generic_type_params@.len() > 0 {
        generics_out(func.generic_type_params@, 0, a.emit("<"@)).emit("> "@)
    } else {
        a
    };
    let c = named_params_out(func.named_params@, 0, params_out(func.params@, 0, b));
    ty_out(func.return_ty, c.emit("-> "@))
}

/// A function literal. The body follows on the same line where it fits,
/// and on lines of its own between parentheses where it does not.
pub open spec fn func_source(func: Func, opt: WriteOpt) -> Option<Seq<char>>
    decreases func, 1nat,
{
    let head = func_head(func, opt);
    let inline = expr_source(*func.body, head.opt);
    let body = if inline is Some {
        inline
    } else {
        expr_broken(*func.body, head.opt)
    };
    head.put_opt(body).done()
}

/// The parts of an interpolated string from index `i` on: text with its
/// braces doubled, expressions between braces.
pub open spec fn interpolation_out<'a>(v: Seq<InterpolateItem>, i: int, out: Out<'a>) -> Out<'a>
    decreases v, v.len() - i,
{
    if 0 <= i < v.len() {
        let next = match v[i] {
            InterpolateItem::String(s) => out.put(doubled_braces(s@)),
            InterpolateItem::Expr { expr, format } => out.put("{"@).put_opt(
                expr_source(*expr, out.opt),
            ).put("}"@),
        };
        interpolation_out(v, i + 1, next)
    } else {
        out
    }
}

/// An interpolated string: the prefix, then the parts between double
/// quotes.
pub open spec fn interpolation_source(prefix: Seq<char>, parts: Seq<InterpolateItem>, opt: WriteOpt)
    -> Option<Seq<char>>
    decreases parts, parts.len() + 1,
{
    interpolation_out(parts, 0, Out::start(opt).put(prefix).put("\""@)).put("\""@).done()
}

// Lists of expressions

pub open spec fn exprs_inline<'a>(v: Seq<Expr>, sep: Seq<char>, i: int, out: Out<'a>) -> Out<'a>
    decreases v, v.len() - i,
{
    if 0 <= i < v.len() {
        let lead = if i > 0 {
            out.put(sep)
        } else {
            out
        };
        let next = match expr_source(v[i], out.opt) {
            Some(s) if !has_line_break(s) => lead.emit_whole(s),
            _ => lead.fail(),
        };
        exprs_inline(v, sep, i + 1, next)
    } else {
        out
    }
}

pub open spec fn exprs_lines<'a>(
    v: Seq<Expr>,
    end: Seq<char>,
    item_opt: WriteOpt<'a>,
    i: int,
    out: Out<'a>,
) -> Out<'a>
    decreases v, v.len() - i,
{
    if 0 <= i < v.len() {
        let next = out.put("\n"@).put(indent_text(item_opt.indent as nat)).put_opt(
            expr_source(v[i], item_opt),
        ).put(end);
        exprs_lines(v, end, item_opt, i + 1, next)
    } else {
        out
    }
}

/// Expressions on one line with `sep` between them, or, where that does
/// not fit or one of them spans several lines, one to a line with `end`
/// after each.
pub open spec fn exprs_source(v: Seq<Expr>, sep: Seq<char>, end: Seq<char>, opt: WriteOpt)
    -> Option<Seq<char>>
    decreases v, v.len() + 1,
{
    let inline = exprs_inline(v, sep, 0, Out::start(opt)).take(
        separators_width(v.len(), sep),
    ).done();
    if inline is Some {
        inline
    } else {
        match lines_opt(v.len(), end, opt) {
            Some(item_opt) => exprs_lines(v, end, item_opt, 0, Out::start(opt)).put("\n"@).put(
                indent_text(opt.indent as nat),
            ).done(),
            None => None,
        }
    }
}

/// A list of expressions between `prefix` and `suffix`.
pub open spec fn exprs_between(
    v: Seq<Expr>,
    sep: Seq<char>,
    end: Seq<char>,
    prefix: Seq<char>,
    suffix: Seq<char>,
    opt: WriteOpt,
) -> Option<Seq<char>>
    decreases v, v.len() + 2,
{
    let a = Out::start(opt).emit(prefix);
    let inner = a.opt.spec_inside();
    a.with_opt(inner).emit_opt(exprs_source(v, sep, end, inner)).emit(suffix).done()
}

// Cases

/// `condition => value`.
pub open spec fn case_source(case: SwitchCase, opt: WriteOpt) -> Option<Seq<char>>
    decreases case, 0nat,
{
    Out::start(opt).put_opt(expr_source(*case.condition, opt)).put(" => "@).put_opt(
        expr_source(*case.value, opt),
    ).done()
}

pub open spec fn cases_inline<'a>(v: Seq<SwitchCase>, sep: Seq<char>, i: int, out: Out<'a>) -> Out<
    'a,
>
    decreases v, v.len() - i,
{
    if 0 <= i < v.len() {
        let lead = if i > 0 {
            out.put(sep)
        } else {
            out
        };
        let next = match case_source(v[i], out.opt) {
            Some(s) if !has_line_break(s) => lead.emit_whole(s),
            _ => lead.fail(),
        };
        cases_inline(v, sep, i + 1, next)
    } else {
        out
    }
}

pub open spec fn cases_lines<'a>(
    v: Seq<SwitchCase>,
    end: Seq<char>,
    item_opt: WriteOpt<'a>,
    i: int,
    out: Out<'a>,
) -> Out<'a>
    decreases v, v.len() - i,
{
    if 0 <= i < v.len() {
        let next = out.put("\n"@).put(indent_text(item_opt.indent as nat)).put_opt(
            case_source(v[i], item_opt),
        ).put(end);
        cases_lines(v, end, item_opt, i + 1, next)
    } else {
        out
    }
}

/// Cases on one line with `sep` between them, or, where that does not
/// fit, one to a line with `end` after each.
pub open spec fn cases_source(v: Seq<SwitchCase>, sep: Seq<char>, end: Seq<char>, opt: WriteOpt)
    -> Option<Seq<char>>
    decreases v, v.len() + 1,
{
    let inline = cases_inline(v, sep, 0, Out::start(opt)).take(
        separators_width(v.len(), sep),
    ).done();
    if inline is Some {
        inline
    } else {
        match lines_opt(v.len(), end, opt) {
            Some(item_opt) => cases_lines(v, end, item_opt, 0, Out::start(opt)).put("\n"@).put(
                indent_text(opt.indent as nat),
            ).done(),
            None => None,
        }
    }
}

/// A list of cases between `prefix` and `suffix`.
pub open spec fn cases_between(
    v: Seq<SwitchCase>,
    sep: Seq<char>,
    end: Seq<char>,
    prefix: Seq<char>,
    suffix: Seq<char>,
    opt: WriteOpt,
) -> Option<Seq<char>>
    decreases v, v.len() + 2,
{
    let a = Out::start(opt).emit(prefix);
    let inner = a.opt.spec_inside();
    a.with_opt(inner).emit_opt(cases_source(v, sep, end, inner)).emit(suffix).done()
}

} // verus!
