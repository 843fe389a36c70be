//! The text of an expression that is written on one line.
//!
//! How much room a line has decides whether an expression fits on it,
//! and so how it is laid out. It does not decide what is written: an
//! expression that comes out on one line comes out as the text that
//! `flat_expr` gives, whatever the room was.

use crate::codegen::ident::{ident_part, path_text};
use crate::codegen::options::WriteOpt;
use crate::codegen::precedence::{Position, STRENGTH_FUNC_CALL, STRENGTH_RANGE, STRENGTH_UNARY};
use crate::codegen::source::{
    args_out, binary_source, case_source, cases_between, cases_inline, cases_lines, cases_source,
    expr_broken, expr_source, exprs_between, exprs_inline, exprs_lines, exprs_source,
    func_call_source, func_head, func_source, generics_out, guarded_source, indirection_source,
    interpolation_out, interpolation_source, kind_between, kind_source, lines_opt,
    named_args_out, named_params_out, needs_parens, params_out, range_source, separators_width,
    trailing_comments, ty_between, ty_out, ty_source, tys_inline, tys_lines, tys_source,
    unary_source, within,
};
use crate::codegen::writer::Out;
use crate::pr::expr::{
    BinaryExpr, Expr, ExprKind, Func, FuncCall, FuncParam, GenericTypeParam, IndirectionKind,
    InterpolateItem, NamedParam, Range, SwitchCase, UnaryExpr,
};
use crate::pr::types::Ty;
use crate::text::{decimal, doubled_braces, has_line_break, LINE_BREAK};
use vstd::prelude::*;
use vstd::utf8::*;

verus! {

// Line breaks in joined texts

proof fn lemma_encode_concat(a: Seq<char>, b: Seq<char>)
    ensures
        encode_utf8(a + b) == encode_utf8(a) + encode_utf8(b),
    decreases a.len(),
{
    if a.len() == 0 {
        assert(a + b =~= b);
        assert(encode_utf8(a) + encode_utf8(b) =~= encode_utf8(b));
    } else {
        lemma_encode_concat(a.drop_first(), b);
        assert((a + b).drop_first() =~= a.drop_first() + b);
        assert(encode_utf8(a + b) =~= encode_utf8(a) + encode_utf8(b));
    }
}

/// A text spans several lines if and only if one of its parts does.
pub broadcast proof fn lemma_break_concat(a: Seq<char>, b: Seq<char>)
    ensures
        #[trigger] has_line_break(a + b) <==> has_line_break(a) || has_line_break(b),
{
    reveal(has_line_break);
    lemma_encode_concat(a, b);
    let x = encode_utf8(a);
    let y = encode_utf8(b);
    if x.contains(LINE_BREAK) {
        let i = choose|i: int| 0 <= i < x.len() && x[i] == LINE_BREAK;
        assert((x + y)[i] == LINE_BREAK);
    }
    if y.contains(LINE_BREAK) {
        let i = choose|i: int| 0 <= i < y.len() && y[i] == LINE_BREAK;
        assert((x + y)[x.len() + i] == LINE_BREAK);
    }
    if (x + y).contains(LINE_BREAK) {
        let i = choose|i: int| 0 <= i < (x + y).len() && (x + y)[i] == LINE_BREAK;
        if i < x.len() {
            assert(x[i] == LINE_BREAK);
        } else {
            assert(y[i - x.len()] == LINE_BREAK);
        }
    }
}

proof fn lemma_line_break_text()
    ensures
        has_line_break("\n"@),
        has_line_break("(\n"@),
{
    reveal(has_line_break);
    reveal_strlit("(\n");
    reveal_strlit("\n");
    is_ascii_chars_encode_utf8("\n"@);
    is_ascii_chars_encode_utf8("(\n"@);
    assert(encode_utf8("\n"@)[0] == LINE_BREAK);
    assert(encode_utf8("(\n"@)[1] == LINE_BREAK);
}

/// The options with the count of the line left out: what is left of them
/// decides what is written, the count only whether it fits.
pub open spec fn place<'a>(opt: WriteOpt<'a>) -> WriteOpt<'a> {
    WriteOpt { max_width: 0, indent: 0, rem_width: 0, ..opt }
}

// The text on one line

pub open spec fn flat_ty(ty: Ty) -> Seq<char> {
    path_text(ty.name.path@) + ident_part(ty.name.name@)
}

pub open spec fn flat_tys(v: Seq<Ty>, sep: Seq<char>, i: int) -> Seq<char>
    decreases v.len() - i,
{
    if 0 <= i < v.len() {
        let lead = if i > 0 {
            sep
        } else {
            Seq::empty()
        };
        lead + flat_ty(v[i]) + flat_tys(v, sep, i + 1)
    } else {
        Seq::empty()
    }
}

pub open spec fn flat_ty_out(ty: Option<Ty>) -> Seq<char> {
    match ty {
        Some(ty) => "<"@ + flat_ty(ty) + ">"@ + " "@,
        None => Seq::empty(),
    }
}

pub open spec fn flat_generics(v: Seq<GenericTypeParam>, i: int) -> Seq<char>
    decreases v.len() - i,
{
    if 0 <= i < v.len() {
        ident_part(v[i].name@) + ": "@ + flat_tys(v[i].domain@, " | "@, 0) + flat_generics(v, i + 1)
    } else {
        Seq::empty()
    }
}

pub open spec fn flat_params(v: Seq<FuncParam>, i: int) -> Seq<char>
    decreases v.len() - i,
{
    if 0 <= i < v.len() {
        ident_part(v[i].name@) + " "@ + flat_ty_out(v[i].ty) + flat_params(v, i + 1)
    } else {
        Seq::empty()
    }
}

pub open spec fn flat_within(e: Expr, parent: u8, opt: WriteOpt) -> Seq<char>
    decreases e, 1nat,
{
    flat_expr(e, opt.spec_within(parent))
}

/// An expression on one line: its alias, its kind, in parentheses where
/// it needs them, and the comments that follow it.
pub open spec fn flat_expr(e: Expr, opt: WriteOpt) -> Seq<char>
    decreases e, 0nat,
{
    let (head, inner) = match e.alias {
        Some(alias) => (alias@ + " = "@, WriteOpt { unbound_expr: false, ..opt }),
        None => (Seq::empty(), opt),
    };
    head + flat_guarded(e.kind, inner) + trailing_comments(e.span, inner)
}

pub open spec fn flat_guarded(k: ExprKind, opt: WriteOpt) -> Seq<char>
    decreases k, 1nat,
{
    if needs_parens(k, opt) {
        "("@ + flat_kind(k, opt.spec_inside()) + ")"@
    } else {
        flat_kind(k, opt)
    }
}

pub open spec fn flat_kind(k: ExprKind, opt: WriteOpt) -> Seq<char>
    decreases k, 0nat,
{
    match k {
        ExprKind::Ident(name) => ident_part(name@),
        ExprKind::Indirection { base, field } => flat_indirection(*base, field, opt),
        ExprKind::Pipeline(pipeline) => flat_exprs_between(
            pipeline.exprs@,
            " | "@,
            "("@,
            ")"@,
            opt,
        ),
        ExprKind::Tuple(fields) => flat_exprs_between(fields@, ", "@, "{"@, "}"@, opt),
        ExprKind::Array(items) => flat_exprs_between(items@, ", "@, "["@, "]"@, opt),
        ExprKind::Range(range) => flat_range(range, opt),
        ExprKind::Binary(binary) => flat_binary(binary, opt),
        ExprKind::Unary(unary) => flat_unary(unary, opt),
        ExprKind::FuncCall(call) => flat_func_call(call, opt),
        ExprKind::Func(func) => flat_func(*func, opt),
        ExprKind::SString(parts) => flat_interpolation_source("s"@, parts@, opt),
        ExprKind::FString(parts) => flat_interpolation_source("f"@, parts@, opt),
        ExprKind::Literal(literal) => literal.text(),
        ExprKind::Case(cases) => "case "@ + ("["@ + flat_cases(
            cases@,
            ", "@,
            0,
            opt.spec_inside(),
        ) + "]"@),
        ExprKind::Param(id) => "$"@ + id@,
        ExprKind::Internal(name) => "internal "@ + name@,
    }
}

pub open spec fn field_text(field: IndirectionKind) -> Seq<char> {
    match field {
        IndirectionKind::Name(n) => ident_part(n@),
        IndirectionKind::Position(i) => decimal(i as int),
        IndirectionKind::Star => "*"@,
    }
}

pub open spec fn flat_indirection(base: Expr, field: IndirectionKind, opt: WriteOpt) -> Seq<char>
    decreases base, 1nat,
{
    flat_expr(base, opt) + "."@ + field_text(field)
}

pub open spec fn flat_range(range: Range, opt: WriteOpt) -> Seq<char>
    decreases range, 0nat,
{
    let start = match range.start {
        Some(start) => flat_within(*start, STRENGTH_RANGE, opt),
        None => Seq::empty(),
    };
    let end = match range.end {
        Some(end) => flat_within(*end, STRENGTH_RANGE, opt),
        None => Seq::empty(),
    };
    start + ".."@ + end
}

pub open spec fn flat_binary(b: BinaryExpr, opt: WriteOpt) -> Seq<char>
    decreases b, 0nat,
{
    flat_within(*b.left, b.op.strength(), WriteOpt { binary_position: Position::Left, ..opt })
        + (" "@ + b.op.symbol() + " "@) + flat_within(
        *b.right,
        b.op.strength(),
        WriteOpt { binary_position: Position::Right, ..opt },
    )
}

pub open spec fn flat_unary(u: UnaryExpr, opt: WriteOpt) -> Seq<char>
    decreases u, 0nat,
{
    u.op.symbol() + flat_within(*u.expr, STRENGTH_UNARY, opt)
}

pub open spec fn flat_named_args(v: Seq<(String, Expr)>, i: int, opt: WriteOpt) -> Seq<char>
    decreases v, v.len() - i,
{
    if 0 <= i < v.len() {
        " "@ + v[i].0@ + ":"@ + flat_within(v[i].1, STRENGTH_FUNC_CALL, opt) + flat_named_args(
            v,
            i + 1,
            opt,
        )
    } else {
        Seq::empty()
    }
}

pub open spec fn flat_args(v: Seq<Expr>, i: int, opt: WriteOpt) -> Seq<char>
    decreases v, v.len() - i,
{
    if 0 <= i < v.len() {
        " "@ + flat_within(v[i], STRENGTH_FUNC_CALL, opt) + flat_args(v, i + 1, opt)
    } else {
        Seq::empty()
    }
}

pub open spec fn flat_func_call(call: FuncCall, opt: WriteOpt) -> Seq<char>
    decreases call, 0nat,
{
    let unbound = WriteOpt { unbound_expr: true, ..opt };
    flat_within(*call.name, STRENGTH_FUNC_CALL, opt) + flat_named_args(
        call.named_args@,
        0,
        unbound,
    ) + flat_args(call.args@, 0, unbound)
}

pub open spec fn flat_named_params(v: Seq<NamedParam>, i: int, opt: WriteOpt) -> Seq<char>
    decreases v, v.len() - i,
{
    if 0 <= i < v.len() {
        ident_part(v[i].name@) + ":"@ + flat_expr(v[i].default_value, opt) + " "@
            + flat_named_params(v, i + 1, opt)
    } else {
        Seq::empty()
    }
}

pub open spec fn flat_func_head(func: Func, opt: WriteOpt) -> Seq<char>
    decreases func, 0nat,
{
    let generics = if func.generic_type_params@.len() > 0 {
        "<"@ + flat_generics(func.generic_type_params@, 0) + "> "@
    } else {
        Seq::empty()
    };
    "func "@ + generics + flat_params(func.params@, 0) + flat_named_params(
        func.named_params@,
        0,
        opt,
    ) + "-> "@ + flat_ty_out(func.return_ty)
}

pub open spec fn flat_func(func: Func, opt: WriteOpt) -> Seq<char>
    decreases func, 1nat,
{
    flat_func_head(func, opt) + flat_expr(*func.body, opt)
}

pub open spec fn flat_interpolation(v: Seq<InterpolateItem>, i: int, opt: WriteOpt) -> Seq<char>
    decreases v, v.len() - i,
{
    if 0 <= i < v.len() {
        let item = match v[i] {
            InterpolateItem::String(s) => doubled_braces(s@),
            InterpolateItem::Expr { expr, format } => "{"@ + flat_expr(*expr, opt) + "}"@,
        };
        item + flat_interpolation(v, i + 1, opt)
    } else {
        Seq::empty()
    }
}

pub open spec fn flat_interpolation_source(
    prefix: Seq<char>,
    parts: Seq<InterpolateItem>,
    opt: WriteOpt,
) -> Seq<char>
    decreases parts, parts.len() + 1,
{
    prefix + "\""@ + flat_interpolation(parts, 0, opt) + "\""@
}

pub open spec fn flat_exprs(v: Seq<Expr>, sep: Seq<char>, i: int, opt: WriteOpt) -> Seq<char>
    decreases v, v.len() - i,
{
    if 0 <= i < v.len() {
        let lead = if i > 0 {
            sep
        } else {
            Seq::empty()
        };
        lead + flat_expr(v[i], opt) + flat_exprs(v, sep, i + 1, opt)
    } else {
        Seq::empty()
    }
}

pub open spec fn flat_exprs_between(
    v: Seq<Expr>,
    sep: Seq<char>,
    prefix: Seq<char>,
    suffix: Seq<char>,
    opt: WriteOpt,
) -> Seq<char>
    decreases v, v.len() + 1,
{
    prefix + flat_exprs(v, sep, 0, opt.spec_inside()) + suffix
}

pub open spec fn flat_case(case: SwitchCase, opt: WriteOpt) -> Seq<char>
    decreases case, 0nat,
{
    flat_expr(*case.condition, opt) + " => "@ + flat_expr(*case.value, opt)
}

pub open spec fn flat_cases(v: Seq<SwitchCase>, sep: Seq<char>, i: int, opt: WriteOpt) -> Seq<char>
    decreases v, v.len() - i,
{
    if 0 <= i < v.len() {
        let lead = if i > 0 {
            sep
        } else {
            Seq::empty()
        };
        lead + flat_case(v[i], opt) + flat_cases(v, sep, i + 1, opt)
    } else {
        Seq::empty()
    }
}

// Types are written the same way wherever they fit

/// Whether `s` was written, and on one line.
pub open spec fn on_one_line(s: Option<Seq<char>>) -> bool {
    s matches Some(t) && !has_line_break(t)
}

#[verifier::rlimit(30)]
proof fn lemma_flat_ty_between(ty: Ty, opt: WriteOpt)
    requires
        ty_between(ty, opt) is Some,
    ensures
        ty_between(ty, opt)->0 == "<"@ + flat_ty(ty) + ">"@,
{
    let a = Out::start(opt).emit("<"@);
    let inner = a.opt.spec_inside();
    assert(ty_source(ty, inner) is Some);
    assert(ty_between(ty, opt)->0 =~= "<"@ + flat_ty(ty) + ">"@);
}

#[verifier::rlimit(30)]
proof fn lemma_flat_tys_inline(v: Seq<Ty>, sep: Seq<char>, i: int, out: Out)
    requires
        0 <= i <= v.len(),
        tys_inline(v, sep, i, out).ok,
    ensures
        out.ok,
        tys_inline(v, sep, i, out).text == out.text + flat_tys(v, sep, i),
    decreases v.len() - i,
{
    if i < v.len() {
        let lead = if i > 0 {
            out.put(sep)
        } else {
            out
        };
        let next = match ty_source(v[i], out.opt) {
            Some(s) if !has_line_break(s) => lead.emit_whole(s),
            _ => lead.fail(),
        };
        lemma_flat_tys_inline(v, sep, i + 1, next);
        let lead_text = if i > 0 {
            sep
        } else {
            Seq::empty()
        };
        assert(next.text =~= out.text + (lead_text + flat_ty(v[i])));
        assert(out.text + (lead_text + flat_ty(v[i])) + flat_tys(v, sep, i + 1) =~= out.text + (
        lead_text + flat_ty(v[i]) + flat_tys(v, sep, i + 1)));
    } else {
        assert(out.text + Seq::<char>::empty() =~= out.text);
    }
}

#[verifier::rlimit(30)]
proof fn lemma_flat_tys_source(v: Seq<Ty>, sep: Seq<char>, end: Seq<char>, opt: WriteOpt)
    requires
        on_one_line(tys_source(v, sep, end, opt)),
    ensures
        tys_source(v, sep, end, opt)->0 == flat_tys(v, sep, 0),
{
    let folded = tys_inline(v, sep, 0, Out::start(opt));
    let inline = folded.take(separators_width(v.len(), sep)).done();
    if inline is Some {
        lemma_flat_tys_inline(v, sep, 0, Out::start(opt));
        assert(Seq::<char>::empty() + flat_tys(v, sep, 0) =~= flat_tys(v, sep, 0));
    } else {
        let item_opt = lines_opt(v.len(), end, opt)->0;
        let lines = tys_lines(v, end, item_opt, 0, Out::start(opt));
        lemma_line_break_text();
        lemma_break_concat(lines.text, "\n"@);
        lemma_break_concat(lines.text + "\n"@, crate::codegen::options::indent_text(
            opt.indent as nat,
        ));
    }
}

#[verifier::rlimit(30)]
proof fn lemma_flat_ty_out(ty: Option<Ty>, out: Out)
    requires
        ty_out(ty, out).ok,
    ensures
        out.ok,
        ty_out(ty, out).text == out.text + flat_ty_out(ty),
        place(ty_out(ty, out).opt) == place(out.opt),
{
    match ty {
        Some(t) => {
            assert(ty_between(t, out.opt) is Some);
            lemma_flat_ty_between(t, out.opt);
            assert(ty_out(ty, out).text =~= out.text + ("<"@ + flat_ty(t) + ">"@ + " "@));
        },
        None => {
            assert(out.text + Seq::<char>::empty() =~= out.text);
        },
    }
}

#[verifier::rlimit(30)]
proof fn lemma_flat_generics(v: Seq<GenericTypeParam>, i: int, out: Out)
    requires
        0 <= i <= v.len(),
        generics_out(v, i, out).ok,
        !has_line_break(generics_out(v, i, out).text),
    ensures
        out.ok,
        generics_out(v, i, out).text == out.text + flat_generics(v, i),
        place(generics_out(v, i, out).opt) == place(out.opt),
    decreases v.len() - i,
{
    if i < v.len() {
        let a = out.emit(ident_part(v[i].name@)).emit(": "@);
        let domain = tys_source(v[i].domain@, " | "@, "|"@, a.opt);
        let next = a.emit_opt(domain);
        lemma_flat_generics(v, i + 1, next);
        assert(domain is Some);
        assert(next.text == a.text + domain->0);
        lemma_break_concat(next.text, flat_generics(v, i + 1));
        lemma_break_concat(a.text, domain->0);
        lemma_flat_tys_source(v[i].domain@, " | "@, "|"@, a.opt);
        assert(a.text =~= out.text + (ident_part(v[i].name@) + ": "@));
        assert(generics_out(v, i, out).text =~= out.text + flat_generics(v, i));
    } else {
        assert(out.text + Seq::<char>::empty() =~= out.text);
    }
}

#[verifier::rlimit(30)]
proof fn lemma_flat_params(v: Seq<FuncParam>, i: int, out: Out)
    requires
        0 <= i <= v.len(),
        params_out(v, i, out).ok,
    ensures
        out.ok,
        params_out(v, i, out).text == out.text + flat_params(v, i),
        place(params_out(v, i, out).opt) == place(out.opt),
    decreases v.len() - i,
{
    if i < v.len() {
        let a = out.emit(ident_part(v[i].name@)).emit(" "@);
        let next = ty_out(v[i].ty, a);
        lemma_flat_params(v, i + 1, next);
        lemma_flat_ty_out(v[i].ty, a);
        assert(a.text =~= out.text + (ident_part(v[i].name@) + " "@));
        assert(params_out(v, i, out).text =~= out.text + flat_params(v, i));
    } else {
        assert(out.text + Seq::<char>::empty() =~= out.text);
    }
}

// Expressions are written the same way wherever they fit on one line

proof fn lemma_broken_has_break(inner: Seq<char>, opt: WriteOpt)
    ensures
        has_line_break(crate::codegen::source::broken_text(inner, opt)),
{
    broadcast use lemma_break_concat;

    lemma_line_break_text();
}

/// An expression that is written on one line is written as `flat_expr`
/// gives it, whatever room the line had.
#[verifier::rlimit(30)]
pub proof fn lemma_flat_expr(e: Expr, opt: WriteOpt)
    requires
        on_one_line(expr_source(e, opt)),
    ensures
        expr_source(e, opt)->0 == flat_expr(e, place(opt)),
    decreases e, 0nat,
{
    let a = match e.alias {
        Some(alias) => {
            let named = Out::start(opt).emit(alias@).emit(" = "@);
            named.with_opt(WriteOpt { unbound_expr: false, ..named.opt })
        },
        None => Out::start(opt),
    };
    let body = guarded_source(e.kind, a.opt);
    let tail = trailing_comments(e.span, a.opt);
    assert(body is Some);
    assert(expr_source(e, opt)->0 == a.text + body->0 + tail);
    lemma_break_concat(a.text + body->0, tail);
    lemma_break_concat(a.text, body->0);
    lemma_flat_guarded(e.kind, a.opt);
    match e.alias {
        Some(alias) => {
            assert(a.text =~= alias@ + " = "@);
            assert(place(a.opt) == WriteOpt { unbound_expr: false, ..place(opt) });
        },
        None => {
            assert(place(a.opt) == place(opt));
        },
    }
    assert(tail == trailing_comments(e.span, place(a.opt)));
}

#[verifier::rlimit(30)]
proof fn lemma_flat_within(e: Expr, parent: u8, opt: WriteOpt)
    requires
        on_one_line(within(e, parent, opt)),
    ensures
        within(e, parent, opt)->0 == flat_within(e, parent, place(opt)),
    decreases e, 1nat,
{
    lemma_flat_expr(e, opt.spec_within(parent));
    assert(place(opt.spec_within(parent)) == place(opt).spec_within(parent));
}

#[verifier::rlimit(30)]
proof fn lemma_flat_guarded(k: ExprKind, opt: WriteOpt)
    requires
        on_one_line(guarded_source(k, opt)),
    ensures
        guarded_source(k, opt)->0 == flat_guarded(k, place(opt)),
    decreases k, 2nat,
{
    if !needs_parens(k, opt) {
        lemma_flat_kind(k, opt);
    } else {
        let inline = kind_between(k, opt);
        if inline is Some {
            let a = Out::start(opt).emit("("@);
            let inner = a.opt.spec_inside();
            let source = kind_source(k, inner);
            assert(source is Some);
            assert(inline->0 =~= "("@ + source->0 + ")"@);
            lemma_break_concat("("@ + source->0, ")"@);
            lemma_break_concat("("@, source->0);
            lemma_flat_kind(k, inner);
            assert(place(inner) == place(opt).spec_inside());
        } else {
            let inner = opt.spec_deeper_line()->0;
            lemma_broken_has_break(kind_source(k, inner)->0, opt);
        }
    }
}

#[verifier::rlimit(30)]
proof fn lemma_flat_kind(k: ExprKind, opt: WriteOpt)
    requires
        on_one_line(kind_source(k, opt)),
    ensures
        kind_source(k, opt)->0 == flat_kind(k, place(opt)),
    decreases k, 0nat,
{
    match k {
        ExprKind::Ident(_) => {},
        ExprKind::Indirection { base, field } => {
            lemma_flat_indirection(*base, field, opt);
        },
        ExprKind::Pipeline(pipeline) => {
            lemma_flat_exprs_between(pipeline.exprs@, " | "@, ""@, "("@, ")"@, opt);
        },
        ExprKind::Tuple(fields) => {
            lemma_flat_exprs_between(fields@, ", "@, ","@, "{"@, "}"@, opt);
        },
        ExprKind::Array(items) => {
            lemma_flat_exprs_between(items@, ", "@, ","@, "["@, "]"@, opt);
        },
        ExprKind::Range(range) => {
            lemma_flat_range(range, opt);
        },
        ExprKind::Binary(binary) => {
            lemma_flat_binary(binary, opt);
        },
        ExprKind::Unary(unary) => {
            lemma_flat_unary(unary, opt);
        },
        ExprKind::FuncCall(call) => {
            lemma_flat_func_call(call, opt);
        },
        ExprKind::Func(func) => {
            lemma_flat_func(*func, opt);
        },
        ExprKind::SString(parts) => {
            lemma_flat_interpolation_source("s"@, parts@, opt);
        },
        ExprKind::FString(parts) => {
            lemma_flat_interpolation_source("f"@, parts@, opt);
        },
        ExprKind::Literal(literal) => {
            assert(kind_source(k, opt)->0 =~= literal.text());
        },
        ExprKind::Case(cases) => {
            let list = cases_between(cases@, ", "@, ","@, "["@, "]"@, opt);
            assert(list is Some);
            lemma_break_concat("case "@, list->0);
            lemma_flat_cases_between(cases@, ", "@, ","@, "["@, "]"@, opt);
        },
        ExprKind::Param(_) => {},
        ExprKind::Internal(_) => {},
    }
}

#[verifier::rlimit(30)]
proof fn lemma_flat_indirection(base: Expr, field: IndirectionKind, opt: WriteOpt)
    requires
        on_one_line(indirection_source(base, field, opt)),
    ensures
        indirection_source(base, field, opt)->0 == flat_indirection(base, field, place(opt)),
    decreases base, 1nat,
{
    let source = expr_source(base, opt);
    let a = Out::start(opt).emit_whole_opt(source).emit("."@);
    assert(source is Some);
    assert(indirection_source(base, field, opt)->0 =~= source->0 + ("."@ + field_text(field)));
    lemma_break_concat(source->0, "."@ + field_text(field));
    lemma_flat_expr(base, opt);
    assert(flat_indirection(base, field, place(opt)) =~= source->0 + ("."@ + field_text(field)));
}

#[verifier::rlimit(30)]
proof fn lemma_flat_range(range: Range, opt: WriteOpt)
    requires
        on_one_line(range_source(range, opt)),
    ensures
        range_source(range, opt)->0 == flat_range(range, place(opt)),
    decreases range, 0nat,
{
    let a = match range.start {
        Some(start) => Out::start(opt).emit_opt(within(*start, STRENGTH_RANGE, opt)),
        None => Out::start(opt),
    };
    let b = a.emit(".."@);
    let c = match range.end {
        Some(end) => b.put_opt(within(*end, STRENGTH_RANGE, b.opt)),
        None => b,
    };
    assert(c.ok);
    let start_text = match range.start {
        Some(start) => within(*start, STRENGTH_RANGE, opt)->0,
        None => Seq::empty(),
    };
    let end_text = match range.end {
        Some(end) => within(*end, STRENGTH_RANGE, b.opt)->0,
        None => Seq::empty(),
    };
    assert(c.text =~= start_text + (".."@ + end_text));
    lemma_break_concat(start_text, ".."@ + end_text);
    lemma_break_concat(".."@, end_text);
    match range.start {
        Some(start) => {
            lemma_flat_within(*start, STRENGTH_RANGE, opt);
        },
        None => {},
    }
    match range.end {
        Some(end) => {
            lemma_flat_within(*end, STRENGTH_RANGE, b.opt);
            assert(place(b.opt) == place(opt));
        },
        None => {},
    }
    assert(flat_range(range, place(opt)) =~= start_text + (".."@ + end_text));
}

#[verifier::rlimit(30)]
proof fn lemma_flat_binary(b: BinaryExpr, opt: WriteOpt)
    requires
        on_one_line(binary_source(b, opt)),
    ensures
        binary_source(b, opt)->0 == flat_binary(b, place(opt)),
    decreases b, 0nat,
{
    let s = b.op.strength();
    let lopt = WriteOpt { binary_position: Position::Left, ..opt };
    let left = within(*b.left, s, lopt);
    let a = Out::start(opt).emit_opt(left).emit(" "@).emit(b.op.symbol()).emit(" "@);
    let ropt = WriteOpt { binary_position: Position::Right, ..a.opt };
    let right = within(*b.right, s, ropt);
    assert(left is Some && right is Some);
    let mid = " "@ + b.op.symbol() + " "@;
    assert(binary_source(b, opt)->0 =~= left->0 + mid + right->0);
    lemma_break_concat(left->0 + mid, right->0);
    lemma_break_concat(left->0, mid);
    lemma_flat_within(*b.left, s, lopt);
    lemma_flat_within(*b.right, s, ropt);
    assert(place(lopt) == WriteOpt { binary_position: Position::Left, ..place(opt) });
    assert(place(ropt) == WriteOpt { binary_position: Position::Right, ..place(opt) });
}

#[verifier::rlimit(30)]
proof fn lemma_flat_unary(u: UnaryExpr, opt: WriteOpt)
    requires
        on_one_line(unary_source(u, opt)),
    ensures
        unary_source(u, opt)->0 == flat_unary(u, place(opt)),
    decreases u, 0nat,
{
    let a = Out::start(opt).emit(u.op.symbol());
    let operand = within(*u.expr, STRENGTH_UNARY, a.opt);
    assert(operand is Some);
    assert(unary_source(u, opt)->0 =~= u.op.symbol() + operand->0);
    lemma_break_concat(u.op.symbol(), operand->0);
    lemma_flat_within(*u.expr, STRENGTH_UNARY, a.opt);
    assert(place(a.opt) == place(opt));
}

#[verifier::rlimit(30)]
proof fn lemma_flat_named_args(v: Seq<(String, Expr)>, i: int, out: Out)
    requires
        0 <= i <= v.len(),
        named_args_out(v, i, out).ok,
        !has_line_break(named_args_out(v, i, out).text),
    ensures
        out.ok,
        named_args_out(v, i, out).text == out.text + flat_named_args(v, i, place(out.opt)),
        place(named_args_out(v, i, out).opt) == place(out.opt),
    decreases v, v.len() - i,
{
    if i < v.len() {
        let a = out.emit(" "@).emit(v[i].0@).emit(":"@);
        let arg = within(v[i].1, STRENGTH_FUNC_CALL, a.opt);
        let next = a.emit_opt(arg);
        lemma_flat_named_args(v, i + 1, next);
        assert(arg is Some);
        assert(next.text == a.text + arg->0);
        lemma_break_concat(next.text, flat_named_args(v, i + 1, place(next.opt)));
        lemma_break_concat(a.text, arg->0);
        lemma_flat_within(v[i].1, STRENGTH_FUNC_CALL, a.opt);
        assert(place(a.opt) == place(out.opt));
        assert(a.text =~= out.text + (" "@ + v[i].0@ + ":"@));
        assert(named_args_out(v, i, out).text =~= out.text + flat_named_args(
            v,
            i,
            place(out.opt),
        ));
    } else {
        assert(out.text + Seq::<char>::empty() =~= out.text);
    }
}

#[verifier::rlimit(30)]
proof fn lemma_flat_args(v: Seq<Expr>, i: int, out: Out)
    requires
        0 <= i <= v.len(),
        args_out(v, i, out).ok,
        !has_line_break(args_out(v, i, out).text),
    ensures
        out.ok,
        args_out(v, i, out).text == out.text + flat_args(v, i, place(out.opt)),
        place(args_out(v, i, out).opt) == place(out.opt),
    decreases v, v.len() - i,
{
    if i < v.len() {
        let a = out.emit(" "@);
        let arg = within(v[i], STRENGTH_FUNC_CALL, a.opt);
        let next = a.emit_opt(arg);
        lemma_flat_args(v, i + 1, next);
        assert(arg is Some);
        assert(next.text == a.text + arg->0);
        lemma_break_concat(next.text, flat_args(v, i + 1, place(next.opt)));
        lemma_break_concat(a.text, arg->0);
        lemma_flat_within(v[i], STRENGTH_FUNC_CALL, a.opt);
        assert(place(a.opt) == place(out.opt));
        assert(args_out(v, i, out).text =~= out.text + flat_args(v, i, place(out.opt)));
    } else {
        assert(out.text + Seq::<char>::empty() =~= out.text);
    }
}

#[verifier::rlimit(30)]
proof fn lemma_flat_func_call(call: FuncCall, opt: WriteOpt)
    requires
        on_one_line(func_call_source(call, opt)),
    ensures
        func_call_source(call, opt)->0 == flat_func_call(call, place(opt)),
    decreases call, 0nat,
{
    let name = within(*call.name, STRENGTH_FUNC_CALL, opt);
    let a = Out::start(opt).emit_opt(name);
    let b = a.with_opt(WriteOpt { unbound_expr: true, ..a.opt });
    let named = named_args_out(call.named_args@, 0, b);
    let all = args_out(call.args@, 0, named);
    lemma_flat_args(call.args@, 0, named);
    lemma_break_concat(named.text, flat_args(call.args@, 0, place(named.opt)));
    lemma_flat_named_args(call.named_args@, 0, b);
    lemma_break_concat(b.text, flat_named_args(call.named_args@, 0, place(b.opt)));
    assert(name is Some);
    assert(b.text =~= name->0);
    lemma_flat_within(*call.name, STRENGTH_FUNC_CALL, opt);
    assert(place(b.opt) == WriteOpt { unbound_expr: true, ..place(opt) });
}

proof fn lemma_named_param_step(out: Out, name: Seq<char>, value: Option<Seq<char>>)
    requires
        out.emit(name).emit(":"@).emit_opt(value).emit(" "@).ok,
        !has_line_break(out.emit(name).emit(":"@).emit_opt(value).emit(" "@).text),
    ensures
        out.ok,
        on_one_line(value),
        out.emit(name).emit(":"@).emit_opt(value).emit(" "@).text == out.text + (name + ":"@
            + value->0 + " "@),
        place(out.emit(name).emit(":"@).opt) == place(out.opt),
        place(out.emit(name).emit(":"@).emit_opt(value).emit(" "@).opt) == place(out.opt),
{
    let a = out.emit(name).emit(":"@);
    let next = a.emit_opt(value).emit(" "@);
    assert(next.text =~= a.text + value->0 + " "@);
    lemma_break_concat(a.text + value->0, " "@);
    lemma_break_concat(a.text, value->0);
    assert(next.text =~= out.text + (name + ":"@ + value->0 + " "@));
}

#[verifier::rlimit(30)]
proof fn lemma_flat_named_params(v: Seq<NamedParam>, i: int, out: Out)
    requires
        0 <= i <= v.len(),
        named_params_out(v, i, out).ok,
        !has_line_break(named_params_out(v, i, out).text),
    ensures
        out.ok,
        named_params_out(v, i, out).text == out.text + flat_named_params(v, i, place(out.opt)),
        place(named_params_out(v, i, out).opt) == place(out.opt),
    decreases v, v.len() - i,
{
    if i < v.len() {
        let name = ident_part(v[i].name@);
        let a = out.emit(name).emit(":"@);
        let value = expr_source(v[i].default_value, a.opt);
        let next = a.emit_opt(value).emit(" "@);
        assert(named_params_out(v, i, out) == named_params_out(v, i + 1, next));
        lemma_flat_named_params(v, i + 1, next);
        let rest = flat_named_params(v, i + 1, place(next.opt));
        lemma_break_concat(next.text, rest);
        lemma_named_param_step(out, name, value);
        lemma_flat_expr(v[i].default_value, a.opt);
        assert(flat_named_params(v, i, place(out.opt)) == name + ":"@ + value->0 + " "@ + rest);
        assert(out.text + (name + ":"@ + value->0 + " "@) + rest =~= out.text + (name + ":"@
            + value->0 + " "@ + rest));
    } else {
        assert(out.text + Seq::<char>::empty() =~= out.text);
    }
}

#[verifier::rlimit(30)]
proof fn lemma_flat_func_head(func: Func, opt: WriteOpt)
    requires
        func_head(func, opt).ok,
        !has_line_break(func_head(func, opt).text),
    ensures
        func_head(func, opt).text == flat_func_head(func, place(opt)),
        place(func_head(func, opt).opt) == place(opt),
    decreases func, 0nat,
{
    let a = Out::start(opt).put("func "@);
    let b = if func.generic_type_params@.len() > 0 {
        generics_out(func.generic_type_params@, 0, a.emit("<"@)).emit("> "@)
    } else {
        a
    };
    let p = params_out(func.params@, 0, b);
    let c = named_params_out(func.named_params@, 0, p);
    let d = c.emit("-> "@);
    lemma_flat_ty_out(func.return_ty, d);
    lemma_break_concat(d.text, flat_ty_out(func.return_ty));
    assert(d.text == c.text + "-> "@);
    lemma_break_concat(c.text, "-> "@);
    lemma_flat_named_params(func.named_params@, 0, p);
    lemma_break_concat(p.text, flat_named_params(func.named_params@, 0, place(p.opt)));
    lemma_flat_params(func.params@, 0, b);
    lemma_break_concat(b.text, flat_params(func.params@, 0));
    let generics = if func.generic_type_params@.len() > 0 {
        "<"@ + flat_generics(func.generic_type_params@, 0) + "> "@
    } else {
        Seq::empty()
    };
    if func.generic_type_params@.len() > 0 {
        let g = generics_out(func.generic_type_params@, 0, a.emit("<"@));
        assert(b.text == g.text + "> "@);
        lemma_break_concat(g.text, "> "@);
        lemma_flat_generics(func.generic_type_params@, 0, a.emit("<"@));
        assert(b.text =~= "func "@ + generics);
    } else {
        assert(b.text =~= "func "@ + generics);
    }
    assert(place(b.opt) == place(opt));
    assert(func_head(func, opt).text =~= flat_func_head(func, place(opt)));
}

#[verifier::rlimit(30)]
proof fn lemma_flat_func(func: Func, opt: WriteOpt)
    requires
        on_one_line(func_source(func, opt)),
    ensures
        func_source(func, opt)->0 == flat_func(func, place(opt)),
    decreases func, 1nat,
{
    let head = func_head(func, opt);
    let inline = expr_source(*func.body, head.opt);
    let body = if inline is Some {
        inline
    } else {
        expr_broken(*func.body, head.opt)
    };
    assert(body is Some);
    assert(func_source(func, opt)->0 == head.text + body->0);
    lemma_break_concat(head.text, body->0);
    lemma_flat_func_head(func, opt);
    if inline is Some {
        lemma_flat_expr(*func.body, head.opt);
    } else {
        let inner = head.opt.spec_deeper_line()->0;
        lemma_broken_has_break(expr_source(*func.body, inner)->0, head.opt);
    }
}

#[verifier::rlimit(30)]
proof fn lemma_flat_interpolation(v: Seq<InterpolateItem>, i: int, out: Out)
    requires
        0 <= i <= v.len(),
        interpolation_out(v, i, out).ok,
        !has_line_break(interpolation_out(v, i, out).text),
    ensures
        out.ok,
        interpolation_out(v, i, out).text == out.text + flat_interpolation(v, i, place(out.opt)),
        interpolation_out(v, i, out).opt == out.opt,
    decreases v, v.len() - i,
{
    if i < v.len() {
        let next = match v[i] {
            InterpolateItem::String(s) => out.put(doubled_braces(s@)),
            InterpolateItem::Expr { expr, format } => out.put("{"@).put_opt(
                expr_source(*expr, out.opt),
            ).put("}"@),
        };
        lemma_flat_interpolation(v, i + 1, next);
        lemma_break_concat(next.text, flat_interpolation(v, i + 1, place(next.opt)));
        let item = match v[i] {
            InterpolateItem::String(s) => doubled_braces(s@),
            InterpolateItem::Expr { expr, format } => "{"@ + flat_expr(*expr, place(out.opt))
                + "}"@,
        };
        match v[i] {
            InterpolateItem::String(s) => {},
            InterpolateItem::Expr { expr, format } => {
                let source = expr_source(*expr, out.opt);
                assert(source is Some);
                assert(next.text == out.text + "{"@ + source->0 + "}"@);
                lemma_break_concat(out.text + "{"@ + source->0, "}"@);
                lemma_break_concat(out.text + "{"@, source->0);
                lemma_flat_expr(*expr, out.opt);
            },
        }
        assert(next.text =~= out.text + item);
        assert(interpolation_out(v, i, out).text =~= out.text + flat_interpolation(
            v,
            i,
            place(out.opt),
        ));
    } else {
        assert(out.text + Seq::<char>::empty() =~= out.text);
    }
}

#[verifier::rlimit(30)]
proof fn lemma_flat_interpolation_source(
    prefix: Seq<char>,
    parts: Seq<InterpolateItem>,
    opt: WriteOpt,
)
    requires
        on_one_line(interpolation_source(prefix, parts, opt)),
    ensures
        interpolation_source(prefix, parts, opt)->0 == flat_interpolation_source(
            prefix,
            parts,
            place(opt),
        ),
    decreases parts, parts.len() + 1,
{
    let a = Out::start(opt).put(prefix).put("\""@);
    let b = interpolation_out(parts, 0, a);
    assert(interpolation_source(prefix, parts, opt)->0 == b.text + "\""@);
    lemma_break_concat(b.text, "\""@);
    lemma_flat_interpolation(parts, 0, a);
    assert(a.text =~= prefix + "\""@);
}

/// One item more on a line: the text grows by the separator and the
/// item, and the item is on one line itself.
proof fn lemma_inline_step(out: Out, sep: Seq<char>, first: bool, source: Option<Seq<char>>)
    requires
        ({
            let lead = if first {
                out
            } else {
                out.put(sep)
            };
            match source {
                Some(s) if !has_line_break(s) => lead.emit_whole(s),
                _ => lead.fail(),
            }
        }).ok,
    ensures
        out.ok,
        on_one_line(source),
        ({
            let lead = if first {
                out
            } else {
                out.put(sep)
            };
            let next = lead.emit_whole(source->0);
            let lead_text = if first {
                Seq::empty()
            } else {
                sep
            };
            &&& next.ok
            &&& next.text == out.text + (lead_text + source->0)
            &&& place(next.opt) == place(out.opt)
        }),
{
    let lead = if first {
        out
    } else {
        out.put(sep)
    };
    let lead_text = if first {
        Seq::<char>::empty()
    } else {
        sep
    };
    assert(lead.emit_whole(source->0).text =~= out.text + (lead_text + source->0));
}

#[verifier::rlimit(30)]
proof fn lemma_flat_exprs_inline(v: Seq<Expr>, sep: Seq<char>, i: int, out: Out)
    requires
        0 <= i <= v.len(),
        exprs_inline(v, sep, i, out).ok,
    ensures
        out.ok,
        exprs_inline(v, sep, i, out).text == out.text + flat_exprs(v, sep, i, place(out.opt)),
        place(exprs_inline(v, sep, i, out).opt) == place(out.opt),
    decreases v, v.len() - i,
{
    if i < v.len() {
        let source = expr_source(v[i], out.opt);
        let lead = if i > 0 {
            out.put(sep)
        } else {
            out
        };
        let next = match source {
            Some(s) if !has_line_break(s) => lead.emit_whole(s),
            _ => lead.fail(),
        };
        assert(exprs_inline(v, sep, i, out) == exprs_inline(v, sep, i + 1, next));
        lemma_flat_exprs_inline(v, sep, i + 1, next);
        lemma_inline_step(out, sep, i == 0, source);
        lemma_flat_expr(v[i], out.opt);
        let lead_text = if i > 0 {
            sep
        } else {
            Seq::<char>::empty()
        };
        let rest = flat_exprs(v, sep, i + 1, place(out.opt));
        assert(flat_exprs(v, sep, i, place(out.opt)) == lead_text + source->0 + rest);
        assert(out.text + (lead_text + source->0) + rest =~= out.text + (lead_text + source->0
            + rest));
    } else {
        assert(out.text + Seq::<char>::empty() =~= out.text);
    }
}

#[verifier::rlimit(30)]
proof fn lemma_flat_exprs_source(v: Seq<Expr>, sep: Seq<char>, end: Seq<char>, opt: WriteOpt)
    requires
        on_one_line(exprs_source(v, sep, end, opt)),
    ensures
        exprs_source(v, sep, end, opt)->0 == flat_exprs(v, sep, 0, place(opt)),
    decreases v, v.len() + 1,
{
    let folded = exprs_inline(v, sep, 0, Out::start(opt));
    let inline = folded.take(separators_width(v.len(), sep)).done();
    if inline is Some {
        lemma_flat_exprs_inline(v, sep, 0, Out::start(opt));
        assert(Seq::<char>::empty() + flat_exprs(v, sep, 0, place(opt)) =~= flat_exprs(
            v,
            sep,
            0,
            place(opt),
        ));
    } else {
        let item_opt = lines_opt(v.len(), end, opt)->0;
        let lines = exprs_lines(v, end, item_opt, 0, Out::start(opt));
        lemma_line_break_text();
        lemma_break_concat(lines.text, "\n"@);
        lemma_break_concat(lines.text + "\n"@, crate::codegen::options::indent_text(
            opt.indent as nat,
        ));
    }
}

#[verifier::rlimit(30)]
proof fn lemma_flat_exprs_between(
    v: Seq<Expr>,
    sep: Seq<char>,
    end: Seq<char>,
    prefix: Seq<char>,
    suffix: Seq<char>,
    opt: WriteOpt,
)
    requires
        on_one_line(exprs_between(v, sep, end, prefix, suffix, opt)),
    ensures
        exprs_between(v, sep, end, prefix, suffix, opt)->0 == flat_exprs_between(
            v,
            sep,
            prefix,
            suffix,
            place(opt),
        ),
    decreases v, v.len() + 2,
{
    let a = Out::start(opt).emit(prefix);
    let inner = a.opt.spec_inside();
    let source = exprs_source(v, sep, end, inner);
    assert(source is Some);
    assert(exprs_between(v, sep, end, prefix, suffix, opt)->0 =~= prefix + source->0 + suffix);
    lemma_break_concat(prefix + source->0, suffix);
    lemma_break_concat(prefix, source->0);
    lemma_flat_exprs_source(v, sep, end, inner);
    assert(place(inner) == place(opt).spec_inside());
}

#[verifier::rlimit(30)]
proof fn lemma_flat_case(case: SwitchCase, opt: WriteOpt)
    requires
        on_one_line(case_source(case, opt)),
    ensures
        case_source(case, opt)->0 == flat_case(case, place(opt)),
    decreases case, 0nat,
{
    let condition = expr_source(*case.condition, opt);
    let value = expr_source(*case.value, opt);
    assert(condition is Some && value is Some);
    assert(case_source(case, opt)->0 =~= condition->0 + " => "@ + value->0);
    lemma_break_concat(condition->0 + " => "@, value->0);
    lemma_break_concat(condition->0, " => "@);
    lemma_flat_expr(*case.condition, opt);
    lemma_flat_expr(*case.value, opt);
}

#[verifier::rlimit(30)]
proof fn lemma_flat_cases_inline(v: Seq<SwitchCase>, sep: Seq<char>, i: int, out: Out)
    requires
        0 <= i <= v.len(),
        cases_inline(v, sep, i, out).ok,
    ensures
        out.ok,
        cases_inline(v, sep, i, out).text == out.text + flat_cases(v, sep, i, place(out.opt)),
        place(cases_inline(v, sep, i, out).opt) == place(out.opt),
    decreases v, v.len() - i,
{
    if i < v.len() {
        let source = case_source(v[i], out.opt);
        let lead = if i > 0 {
            out.put(sep)
        } else {
            out
        };
        let next = match source {
            Some(s) if !has_line_break(s) => lead.emit_whole(s),
            _ => lead.fail(),
        };
        assert(cases_inline(v, sep, i, out) == cases_inline(v, sep, i + 1, next));
        lemma_flat_cases_inline(v, sep, i + 1, next);
        lemma_inline_step(out, sep, i == 0, source);
        lemma_flat_case(v[i], out.opt);
        let lead_text = if i > 0 {
            sep
        } else {
            Seq::<char>::empty()
        };
        let rest = flat_cases(v, sep, i + 1, place(out.opt));
        assert(flat_cases(v, sep, i, place(out.opt)) == lead_text + source->0 + rest);
        assert(out.text + (lead_text + source->0) + rest =~= out.text + (lead_text + source->0
            + rest));
    } else {
        assert(out.text + Seq::<char>::empty() =~= out.text);
    }
}

#[verifier::rlimit(30)]
proof fn lemma_flat_cases_source(v: Seq<SwitchCase>, sep: Seq<char>, end: Seq<char>, opt: WriteOpt)
    requires
        on_one_line(cases_source(v, sep, end, opt)),
    ensures
        cases_source(v, sep, end, opt)->0 == flat_cases(v, sep, 0, place(opt)),
    decreases v, v.len() + 1,
{
    let folded = cases_inline(v, sep, 0, Out::start(opt));
    let inline = folded.take(separators_width(v.len(), sep)).done();
    if inline is Some {
        lemma_flat_cases_inline(v, sep, 0, Out::start(opt));
        assert(Seq::<char>::empty() + flat_cases(v, sep, 0, place(opt)) =~= flat_cases(
            v,
            sep,
            0,
            place(opt),
        ));
    } else {
        let item_opt = lines_opt(v.len(), end, opt)->0;
        let lines = cases_lines(v, end, item_opt, 0, Out::start(opt));
        lemma_line_break_text();
        lemma_break_concat(lines.text, "\n"@);
        lemma_break_concat(lines.text + "\n"@, crate::codegen::options::indent_text(
            opt.indent as nat,
        ));
    }
}

#[verifier::rlimit(30)]
proof fn lemma_flat_cases_between(
    v: Seq<SwitchCase>,
    sep: Seq<char>,
    end: Seq<char>,
    prefix: Seq<char>,
    suffix: Seq<char>,
    opt: WriteOpt,
)
    requires
        on_one_line(cases_between(v, sep, end, prefix, suffix, opt)),
    ensures
        cases_between(v, sep, end, prefix, suffix, opt)->0 == prefix + flat_cases(
            v,
            sep,
            0,
            place(opt).spec_inside(),
        ) + suffix,
    decreases v, v.len() + 2,
{
    let a = Out::start(opt).emit(prefix);
    let inner = a.opt.spec_inside();
    let source = cases_source(v, sep, end, inner);
    assert(source is Some);
    assert(cases_between(v, sep, end, prefix, suffix, opt)->0 =~= prefix + source->0 + suffix);
    lemma_break_concat(prefix + source->0, suffix);
    lemma_break_concat(prefix, source->0);
    lemma_flat_cases_source(v, sep, end, inner);
    assert(place(inner) == place(opt).spec_inside());
}

/// Two lines of different room give the same text for an expression, as
/// long as each gives it on one line.
pub proof fn lemma_room_does_not_change_text(e: Expr, narrow: WriteOpt, wide: WriteOpt)
    requires
        place(narrow) == place(wide),
        on_one_line(expr_source(e, narrow)),
        on_one_line(expr_source(e, wide)),
    ensures
        expr_source(e, narrow) == expr_source(e, wide),
{
    lemma_flat_expr(e, narrow);
    lemma_flat_expr(e, wide);
}

} // verus!
