//! Writers for expressions.

use crate::codegen::comments::{find_comments_after, find_end, write_trailing};
use crate::codegen::ident::write_ident_part;
use crate::codegen::options::WriteOpt;
use crate::codegen::precedence::{
    associativity, binding_strength, can_bind_left, Position, STRENGTH_FUNC_CALL, STRENGTH_RANGE,
    STRENGTH_UNARY,
};
use crate::codegen::source::{
    args_out, binary_source, broken_text, case_source, cases_between, cases_inline, cases_lines,
    cases_source, expr_broken, expr_source, exprs_between, exprs_inline, exprs_lines,
    exprs_source, func_call_source, func_head, func_source, generics_out,
    indirection_source, interpolation_out, interpolation_source, kind_between, kind_broken,
    kind_source, lines_opt, named_args_out, named_params_out, needs_parens, params_out,
    range_source, separators_width, trailing_comments, ty_between, ty_out, ty_source, tys_inline,
    tys_lines, tys_source, unary_source, within,
};
use crate::codegen::writer::{Out, Writer};
use crate::pr::expr::{
    BinaryExpr, Expr, ExprKind, Func, FuncCall, FuncParam, GenericTypeParam, IndirectionKind,
    InterpolateItem, NamedParam, Range, SwitchCase, UnaryExpr,
};
use crate::pr::span::Span;
use crate::pr::types::Ty;
use crate::text::{double_braces, i64_to_string, str_has_line_break, str_width, view_opt};
use vstd::prelude::*;
use vstd::string::*;

verus! {

/// Writes an expression for lines as wide as lines can be. The expression
/// has to fit on them.
pub fn write_expr(expr: &Expr) -> (r: String)
    requires
        expr_source(*expr, WriteOpt::spec_new_width(u16::MAX)) is Some,
    ensures
        Some(r@) == expr_source(*expr, WriteOpt::spec_new_width(u16::MAX)),
{
    expr.write(WriteOpt::new_width(u16::MAX)).unwrap()
}

/// Writes an operand of an expression that binds with `parent`.
pub fn write_within(node: &Expr, parent: u8, opt: WriteOpt) -> (r: Option<String>)
    ensures
        view_opt(r) == within(*node, parent, opt),
    decreases *node, 1nat,
{
    node.write(opt.within(parent))
}

/// Whether `this` has to stand in parentheses where it is written under
/// `opt`.
pub fn needs_parenthesis(this: &Expr, opt: &WriteOpt) -> (r: bool)
    ensures
        r == needs_parens(this.kind, *opt),
{
    if opt.unbound_expr && can_bind_left(&this.kind) {
        return true;
    }
    let binding_strength = binding_strength(&this.kind);
    if opt.context_strength > binding_strength {
        // what surrounds binds more strongly and would take an operand
        // away from this expression
        return true;
    }
    if opt.context_strength < binding_strength {
        return false;
    }
    // equal strengths: the side decides
    let assoc_matches = match opt.binary_position {
        Position::Left => associativity(&this.kind) == Position::Left,
        Position::Right => associativity(&this.kind) == Position::Right,
        Position::Unspecified => false,
    };
    !assoc_matches
}

/// Writes the comments that follow the expression read from `span`.
pub fn write_trailing_comments(span: Option<Span>, opt: &WriteOpt) -> (r: String)
    ensures
        r@ == trailing_comments(span, *opt),
{
    if !opt.enable_comments {
        return String::new();
    }
    match (span, opt.tokens) {
        (Some(span), Some(tokens)) => {
            // a span that no token ends at has no comments after it
            match find_end(tokens, span.end) {
                Some(_) => {
                    let comments = find_comments_after(span, tokens);
                    write_trailing(&comments)
                },
                None => String::new(),
            }
        },
        _ => String::new(),
    }
}

/// Puts `inner` on lines of its own between parentheses.
fn wrap_broken(inner: &str, opt: &WriteOpt, inner_opt: &WriteOpt) -> (r: String)
    requires
        inner_opt.indent == opt.indent + 1,
    ensures
        r@ == broken_text(inner@, *opt),
{
    let mut r = String::from_str("(\n");
    let deep = inner_opt.write_indent();
    r.append(deep.as_str());
    r.append(inner);
    r.append("\n");
    let shallow = opt.write_indent();
    r.append(shallow.as_str());
    r.append(")");
    r
}

/// Writes an expression of kind `expr` between parentheses, on lines of
/// its own one step further in.
pub fn break_line_within_parenthesis(expr: &ExprKind, opt: WriteOpt) -> (r: Option<String>)
    ensures
        view_opt(r) == kind_broken(*expr, opt),
    decreases *expr, 1nat,
{
    let inner_opt = opt.deeper_line()?;
    let inner = expr.write(inner_opt)?;
    Some(wrap_broken(inner.as_str(), &opt, &inner_opt))
}

/// Writes an expression between parentheses, on lines of its own one
/// step further in.
fn break_line_around_expr(expr: &Expr, opt: WriteOpt) -> (r: Option<String>)
    ensures
        view_opt(r) == expr_broken(*expr, opt),
    decreases *expr, 1nat,
{
    let inner_opt = opt.deeper_line()?;
    let inner = expr.write(inner_opt)?;
    Some(wrap_broken(inner.as_str(), &opt, &inner_opt))
}

impl Expr {
    /// Writes the expression under `opt`. `None` says that it does not
    /// fit on what is left of the line.
    pub fn write(&self, opt: WriteOpt) -> (r: Option<String>)
        ensures
            view_opt(r) == expr_source(*self, opt),
        decreases *self, 0nat,
    {
        let mut w = Writer::new(opt);
        match &self.alias {
            Some(alias) => {
                w.emit(alias.as_str());
                w.emit(" = ");
                w.opt.unbound_expr = false;
            },
            None => {},
        }
        if !w.ok {
            return None;
        }
        let inner = w.opt;
        let body = if !needs_parenthesis(self, &inner) {
            self.kind.write(inner)
        } else {
            match self.kind.write_between(inner) {
                Some(value) => Some(value),
                None => break_line_within_parenthesis(&self.kind, inner),
            }
        };
        w.put_opt(&body);
        let comments = write_trailing_comments(self.span, &inner);
        w.put(comments.as_str());
        w.done()
    }
}

impl ExprKind {
    /// Writes an expression of this kind between parentheses on one
    /// line.
    pub fn write_between(&self, opt: WriteOpt) -> (r: Option<String>)
        ensures
            view_opt(r) == kind_between(*self, opt),
        decreases *self, 1nat,
    {
        let mut w = Writer::new(opt);
        w.emit("(");
        w.opt = w.opt.inside();
        if !w.ok {
            return None;
        }
        let source = self.write(w.opt);
        w.emit_opt(&source);
        w.emit(")");
        w.done()
    }

    /// Writes an expression of this kind under `opt`.
    pub fn write(&self, opt: WriteOpt) -> (r: Option<String>)
        ensures
            view_opt(r) == kind_source(*self, opt),
        decreases *self, 0nat,
    {
        match self {
            ExprKind::Ident(ident) => Some(write_ident_part(ident.as_str())),
            ExprKind::Indirection { base, field } => write_indirection(base, field, opt),
            ExprKind::Pipeline(pipeline) => SeparatedExprs {
                exprs: &pipeline.exprs,
                inline: " | ",
                line_end: "",
            }.write_between("(", ")", opt),
            ExprKind::Tuple(fields) => SeparatedExprs {
                exprs: fields,
                inline: ", ",
                line_end: ",",
            }.write_between("{", "}", opt),
            ExprKind::Array(items) => SeparatedExprs {
                exprs: items,
                inline: ", ",
                line_end: ",",
            }.write_between("[", "]", opt),
            ExprKind::Range(range) => write_range(range, opt),
            ExprKind::Binary(binary) => write_binary(binary, opt),
            ExprKind::Unary(unary) => write_unary(unary, opt),
            ExprKind::FuncCall(func_call) => write_func_call(func_call, opt),
            ExprKind::Func(func) => write_func(func, opt),
            ExprKind::SString(parts) => display_interpolation("s", parts, opt),
            ExprKind::FString(parts) => display_interpolation("f", parts, opt),
            ExprKind::Literal(literal) => {
                let mut w = Writer::new(opt);
                let text = literal.to_text();
                w.emit(text.as_str());
                w.done()
            },
            ExprKind::Case(cases) => {
                let list = SeparatedCases { cases, inline: ", ", line_end: "," }.write_between(
                    "[",
                    "]",
                    opt,
                )?;
                let mut r = String::from_str("case ");
                r.append(list.as_str());
                Some(r)
            },
            ExprKind::Param(id) => {
                let mut r = String::from_str("$");
                r.append(id.as_str());
                Some(r)
            },
            ExprKind::Internal(operator_name) => {
                let mut r = String::from_str("internal ");
                r.append(operator_name.as_str());
                Some(r)
            },
        }
    }
}

fn write_indirection(base: &Expr, field: &IndirectionKind, opt: WriteOpt) -> (r: Option<String>)
    ensures
        view_opt(r) == indirection_source(*base, *field, opt),
    decreases *base, 1nat,
{
    let mut w = Writer::new(opt);
    let source = base.write(opt);
    w.emit_whole_opt(&source);
    w.emit(".");
    match field {
        IndirectionKind::Name(n) => {
            let name = write_ident_part(n.as_str());
            w.emit(name.as_str());
        },
        IndirectionKind::Position(i) => {
            let position = i64_to_string(*i);
            w.emit(position.as_str());
        },
        IndirectionKind::Star => {
            w.put("*");
        },
    }
    w.done()
}

fn write_range(range: &Range, opt: WriteOpt) -> (r: Option<String>)
    ensures
        view_opt(r) == range_source(*range, opt),
    decreases *range, 0nat,
{
    let mut w = Writer::new(opt);
    match &range.start {
        Some(start) => {
            let source = write_within(start, STRENGTH_RANGE, opt);
            w.emit_opt(&source);
        },
        None => {},
    }
    w.emit("..");
    match &range.end {
        Some(end) => {
            let source = write_within(end, STRENGTH_RANGE, w.opt);
            w.put_opt(&source);
        },
        None => {},
    }
    w.done()
}

fn write_binary(binary: &BinaryExpr, opt: WriteOpt) -> (r: Option<String>)
    ensures
        view_opt(r) == binary_source(*binary, opt),
    decreases *binary, 0nat,
{
    let strength = binary.op.binding_strength();
    let mut w = Writer::new(opt);

    let mut opt_left = opt;
    opt_left.binary_position = Position::Left;
    let left = write_within(&binary.left, strength, opt_left);
    w.emit_opt(&left);

    w.emit(" ");
    w.emit(binary.op.as_str());
    w.emit(" ");
    if !w.ok {
        return None;
    }
    let mut opt_right = w.opt;
    opt_right.binary_position = Position::Right;
    let right = write_within(&binary.right, strength, opt_right);
    w.put_opt(&right);
    w.done()
}

fn write_unary(unary: &UnaryExpr, opt: WriteOpt) -> (r: Option<String>)
    ensures
        view_opt(r) == unary_source(*unary, opt),
    decreases *unary, 0nat,
{
    let mut w = Writer::new(opt);
    w.emit(unary.op.as_str());
    if !w.ok {
        return None;
    }
    let operand = write_within(&unary.expr, STRENGTH_UNARY, w.opt);
    w.put_opt(&operand);
    w.done()
}

#[verifier::loop_isolation(false)]
fn write_func_call(call: &FuncCall, opt: WriteOpt) -> (r: Option<String>)
    ensures
        view_opt(r) == func_call_source(*call, opt),
    decreases *call, 0nat,
{
    let mut w = Writer::new(opt);
    let name = write_within(&call.name, STRENGTH_FUNC_CALL, opt);
    w.emit_opt(&name);
    w.opt.unbound_expr = true;

    let ghost start = w@;
    let mut i: usize = 0;
    while i < call.named_args.len()
        invariant
            i <= call.named_args.len(),
            named_args_out(call.named_args@, i as int, w@) == named_args_out(
                call.named_args@,
                0,
                start,
            ),
        decreases call.named_args.len() - i,
    {
        w.emit(" ");
        w.emit(call.named_args[i].0.as_str());
        w.emit(":");
        let arg = write_within(&call.named_args[i].1, STRENGTH_FUNC_CALL, w.opt);
        w.emit_opt(&arg);
        i += 1;
    }
    let ghost named = w@;
    let mut j: usize = 0;
    while j < call.args.len()
        invariant
            j <= call.args.len(),
            args_out(call.args@, j as int, w@) == args_out(call.args@, 0, named),
        decreases call.args.len() - j,
    {
        w.emit(" ");
        let arg = write_within(&call.args[j], STRENGTH_FUNC_CALL, w.opt);
        w.emit_opt(&arg);
        j += 1;
    }
    w.done()
}

/// Writes a type between angle brackets and a space, where there is a
/// type.
fn write_ty(ty: &Option<Ty>, w: &mut Writer)
    ensures
        final(w)@ == ty_out(*ty, old(w)@),
{
    match ty {
        Some(ty) => {
            let source = ty.write_between(w.opt);
            w.emit_opt(&source);
            w.emit(" ");
        },
        None => {},
    }
}

/// Writes the type parameters of a function literal.
#[verifier::loop_isolation(false)]
fn write_generics(v: &Vec<GenericTypeParam>, w: &mut Writer)
    ensures
        final(w)@ == generics_out(v@, 0, old(w)@),
{
    let mut i: usize = 0;
    while i < v.len()
        invariant
            i <= v.len(),
            generics_out(v@, i as int, w@) == generics_out(v@, 0, old(w)@),
        decreases v.len() - i,
    {
        let name = write_ident_part(v[i].name.as_str());
        w.emit(name.as_str());
        w.emit(": ");
        let domain = SeparatedTypes { types: &v[i].domain, inline: " | ", line_end: "|" }.write(
            w.opt,
        );
        w.emit_opt(&domain);
        i += 1;
    }
}

/// Writes the parameters that are given by position.
#[verifier::loop_isolation(false)]
fn write_params(v: &Vec<FuncParam>, w: &mut Writer)
    ensures
        final(w)@ == params_out(v@, 0, old(w)@),
{
    let mut i: usize = 0;
    while i < v.len()
        invariant
            i <= v.len(),
            params_out(v@, i as int, w@) == params_out(v@, 0, old(w)@),
        decreases v.len() - i,
    {
        let name = write_ident_part(v[i].name.as_str());
        w.emit(name.as_str());
        w.emit(" ");
        write_ty(&v[i].ty, w);
        i += 1;
    }
}

/// Writes the parameters that are given by name.
#[verifier::loop_isolation(false)]
fn write_named_params(v: &Vec<NamedParam>, w: &mut Writer)
    ensures
        final(w)@ == named_params_out(v@, 0, old(w)@),
    decreases v@, v@.len() + 1,
{
    let mut i: usize = 0;
    while i < v.len()
        invariant
            i <= v.len(),
            named_params_out(v@, i as int, w@) == named_params_out(v@, 0, old(w)@),
        decreases v.len() - i,
    {
        let name = write_ident_part(v[i].name.as_str());
        w.emit(name.as_str());
        w.emit(":");
        let value = v[i].default_value.write(w.opt);
        w.emit_opt(&value);
        w.emit(" ");
        i += 1;
    }
}

fn write_func_head<'a>(func: &Func, opt: WriteOpt<'a>) -> (w: Writer<'a>)
    ensures
        w@ == func_head(*func, opt),
    decreases *func, 0nat,
{
    let mut w = Writer::new(opt);
    w.put("func ");
    if func.generic_type_params.len() > 0 {
        w.emit("<");
        write_generics(&func.generic_type_params, &mut w);
        w.emit("> ");
    }
    write_params(&func.params, &mut w);
    write_named_params(&func.named_params, &mut w);
    w.emit("-> ");
    write_ty(&func.return_ty, &mut w);
    w
}

fn write_func(func: &Func, opt: WriteOpt) -> (r: Option<String>)
    ensures
        view_opt(r) == func_source(*func, opt),
    decreases *func, 1nat,
{
    let mut w = write_func_head(func, opt);
    if !w.ok {
        return None;
    }
    // try a single line
    let body = match func.body.write(w.opt) {
        Some(body) => Some(body),
        None => break_line_around_expr(&func.body, w.opt),
    };
    w.put_opt(&body);
    w.done()
}

/// Writes an interpolated string: the braces of its text doubled, its
/// expressions between braces.
#[verifier::loop_isolation(false)]
pub fn display_interpolation(prefix: &str, parts: &Vec<InterpolateItem>, opt: WriteOpt) -> (r:
    Option<String>)
    ensures
        view_opt(r) == interpolation_source(prefix@, parts@, opt),
    decreases parts@, parts@.len() + 1,
{
    let mut w = Writer::new(opt);
    w.put(prefix);
    w.put("\"");
    let ghost start = w@;
    let mut i: usize = 0;
    while i < parts.len()
        invariant
            i <= parts.len(),
            w.opt == opt,
            interpolation_out(parts@, i as int, w@) == interpolation_out(parts@, 0, start),
        decreases parts.len() - i,
    {
        match &parts[i] {
            // braces are written twice to tell them from those around
            // an expression
            InterpolateItem::String(s) => {
                let text = double_braces(s.as_str());
                w.put(text.as_str());
            },
            InterpolateItem::Expr { expr, format: _ } => {
                w.put("{");
                let source = expr.write(opt);
                w.put_opt(&source);
                w.put("}");
            },
        }
        i += 1;
    }
    w.put("\"");
    w.done()
}

impl SwitchCase {
    /// Writes the case as `condition => value`.
    pub fn write(&self, opt: WriteOpt) -> (r: Option<String>)
        ensures
            view_opt(r) == case_source(*self, opt),
        decreases *self, 0nat,
    {
        let mut w = Writer::new(opt);
        let condition = self.condition.write(opt);
        w.put_opt(&condition);
        w.put(" => ");
        if !w.ok {
            return None;
        }
        let value = self.value.write(opt);
        w.put_opt(&value);
        w.done()
    }
}

impl Ty {
    /// Writes the type under `opt`.
    pub fn write(&self, opt: WriteOpt) -> (r: Option<String>)
        ensures
            view_opt(r) == ty_source(*self, opt),
    {
        self.name.write(opt)
    }

    /// Writes the type between angle brackets.
    pub fn write_between(&self, opt: WriteOpt) -> (r: Option<String>)
        ensures
            view_opt(r) == ty_between(*self, opt),
    {
        let mut w = Writer::new(opt);
        w.emit("<");
        w.opt = w.opt.inside();
        let source = self.write(w.opt);
        w.emit_opt(&source);
        w.emit(">");
        w.done()
    }
}

/// Takes the width of the separators between `n` items from the line.
fn take_separators(w: &mut Writer, n: usize, sep: &str)
    ensures
        final(w)@ == old(w)@.take(separators_width(n as nat, sep@)),
{
    if n > 0 {
        let each = str_width(sep) as u128;
        let times = (n - 1) as u128;
        assert(each * times <= 0xffff_ffff_ffff_ffff * 0xffff_ffff_ffff_ffff) by (nonlinear_arith)
            requires
                each <= 0xffff_ffff_ffff_ffff,
                times <= 0xffff_ffff_ffff_ffff,
        ;
        let total: u128 = each * times;
        if total <= w.opt.rem_width as u128 {
            w.take(total as usize);
        } else {
            w.fail();
        }
    } else {
        w.take(0);
    }
}

/// The options for each item of a list that is written one item to a
/// line.
fn lines_options<'a>(n: usize, end: &str, opt: &WriteOpt<'a>) -> (r: Option<WriteOpt<'a>>)
    ensures
        r == lines_opt(n as nat, end@, *opt),
{
    if opt.indent == u16::MAX {
        return None;
    }
    if n == 0 {
        let mut o = *opt;
        o.indent = opt.indent + 1;
        return Some(o);
    }
    let mut o = opt.deeper_line()?;
    o.consume_width(str_width(end))?;
    Some(o)
}

/// Expressions that are written on one line where they fit, and one to a
/// line where they do not.
pub struct SeparatedExprs<'e> {
    pub exprs: &'e Vec<Expr>,
    pub inline: &'static str,
    pub line_end: &'static str,
}

impl<'e> SeparatedExprs<'e> {
    /// Writes the list between `prefix` and `suffix`.
    pub fn write_between(&self, prefix: &str, suffix: &str, opt: WriteOpt) -> (r: Option<String>)
        ensures
            view_opt(r) == exprs_between(
                self.exprs@,
                self.inline@,
                self.line_end@,
                prefix@,
                suffix@,
                opt,
            ),
        decreases self.exprs@, self.exprs@.len() + 2,
    {
        let mut w = Writer::new(opt);
        w.emit(prefix);
        w.opt = w.opt.inside();
        if !w.ok {
            return None;
        }
        let source = self.write(w.opt);
        w.emit_opt(&source);
        w.emit(suffix);
        w.done()
    }

    /// Writes the list on one line, or one item to a line where one line
    /// does not do.
    #[verifier::loop_isolation(false)]
    pub fn write(&self, opt: WriteOpt) -> (r: Option<String>)
        ensures
            view_opt(r) == exprs_source(self.exprs@, self.inline@, self.line_end@, opt),
        decreases self.exprs@, self.exprs@.len() + 1,
    {
        // try inline
        let inline = self.write_inline(opt);
        if inline.is_some() {
            return inline;
        }
        // one per line
        let item_opt = lines_options(self.exprs.len(), self.line_end, &opt)?;
        let indent = item_opt.write_indent();
        let mut w = Writer::new(opt);
        let mut i: usize = 0;
        while i < self.exprs.len()
            invariant
                i <= self.exprs.len(),
                indent@ == crate::codegen::options::indent_text(item_opt.indent as nat),
                exprs_lines(self.exprs@, self.line_end@, item_opt, i as int, w@) == exprs_lines(
                    self.exprs@,
                    self.line_end@,
                    item_opt,
                    0,
                    Out::start(opt),
                ),
            decreases self.exprs.len() - i,
        {
            w.put("\n");
            w.put(indent.as_str());
            let source = self.exprs[i].write(item_opt);
            w.put_opt(&source);
            w.put(self.line_end);
            i += 1;
        }
        w.put("\n");
        let outer = opt.write_indent();
        w.put(outer.as_str());
        w.done()
    }

    /// Writes the list on one line. `None` where it does not fit, or
    /// where an item spans several lines.
    #[verifier::loop_isolation(false)]
    pub fn write_inline(&self, opt: WriteOpt) -> (r: Option<String>)
        ensures
            view_opt(r) == exprs_inline(self.exprs@, self.inline@, 0, Out::start(opt)).take(
                separators_width(self.exprs@.len(), self.inline@),
            ).done(),
        decreases self.exprs@, self.exprs@.len() + 0,
    {
        let mut w = Writer::new(opt);
        let mut i: usize = 0;
        while i < self.exprs.len()
            invariant
                i <= self.exprs.len(),
                exprs_inline(self.exprs@, self.inline@, i as int, w@) == exprs_inline(
                    self.exprs@,
                    self.inline@,
                    0,
                    Out::start(opt),
                ),
            decreases self.exprs.len() - i,
        {
            let source = self.exprs[i].write(w.opt);
            if i > 0 {
                w.put(self.inline);
            }
            match source {
                Some(s) => {
                    if str_has_line_break(s.as_str()) {
                        w.fail();
                    } else {
                        w.emit_whole(s.as_str());
                    }
                },
                None => {
                    w.fail();
                },
            }
            i += 1;
        }
        take_separators(&mut w, self.exprs.len(), self.inline);
        w.done()
    }
}

/// Cases that are written on one line where they fit, and one to a line
/// where they do not.
pub struct SeparatedCases<'e> {
    pub cases: &'e Vec<SwitchCase>,
    pub inline: &'static str,
    pub line_end: &'static str,
}

impl<'e> SeparatedCases<'e> {
    /// Writes the list between `prefix` and `suffix`.
    pub fn write_between(&self, prefix: &str, suffix: &str, opt: WriteOpt) -> (r: Option<String>)
        ensures
            view_opt(r) == cases_between(
                self.cases@,
                self.inline@,
                self.line_end@,
                prefix@,
                suffix@,
                opt,
            ),
        decreases self.cases@, self.cases@.len() + 2,
    {
        let mut w = Writer::new(opt);
        w.emit(prefix);
        w.opt = w.opt.inside();
        if !w.ok {
            return None;
        }
        let source = self.write(w.opt);
        w.emit_opt(&source);
        w.emit(suffix);
        w.done()
    }

    /// Writes the list on one line, or one case to a line where one line
    /// does not do.
    #[verifier::loop_isolation(false)]
    pub fn write(&self, opt: WriteOpt) -> (r: Option<String>)
        ensures
            view_opt(r) == cases_source(self.cases@, self.inline@, self.line_end@, opt),
        decreases self.cases@, self.cases@.len() + 1,
    {
        let inline = self.write_inline(opt);
        if inline.is_some() {
            return inline;
        }
        let item_opt = lines_options(self.cases.len(), self.line_end, &opt)?;
        let indent = item_opt.write_indent();
        let mut w = Writer::new(opt);
        let mut i: usize = 0;
        while i < self.cases.len()
            invariant
                i <= self.cases.len(),
                indent@ == crate::codegen::options::indent_text(item_opt.indent as nat),
                cases_lines(self.cases@, self.line_end@, item_opt, i as int, w@) == cases_lines(
                    self.cases@,
                    self.line_end@,
                    item_opt,
                    0,
                    Out::start(opt),
                ),
            decreases self.cases.len() - i,
        {
            w.put("\n");
            w.put(indent.as_str());
            let source = self.cases[i].write(item_opt);
            w.put_opt(&source);
            w.put(self.line_end);
            i += 1;
        }
        w.put("\n");
        let outer = opt.write_indent();
        w.put(outer.as_str());
        w.done()
    }

    /// Writes the list on one line. `None` where it does not fit, or
    /// where a case spans several lines.
    #[verifier::loop_isolation(false)]
    pub fn write_inline(&self, opt: WriteOpt) -> (r: Option<String>)
        ensures
            view_opt(r) == cases_inline(self.cases@, self.inline@, 0, Out::start(opt)).take(
                separators_width(self.cases@.len(), self.inline@),
            ).done(),
        decreases self.cases@, self.cases@.len() + 0,
    {
        let mut w = Writer::new(opt);
        let mut i: usize = 0;
        while i < self.cases.len()
            invariant
                i <= self.cases.len(),
                cases_inline(self.cases@, self.inline@, i as int, w@) == cases_inline(
                    self.cases@,
                    self.inline@,
                    0,
                    Out::start(opt),
                ),
            decreases self.cases.len() - i,
        {
            let source = self.cases[i].write(w.opt);
            if i > 0 {
                w.put(self.inline);
            }
            match source {
                Some(s) => {
                    if str_has_line_break(s.as_str()) {
                        w.fail();
                    } else {
                        w.emit_whole(s.as_str());
                    }
                },
                None => {
                    w.fail();
                },
            }
            i += 1;
        }
        take_separators(&mut w, self.cases.len(), self.inline);
        w.done()
    }
}

/// Types that are written on one line where they fit, and one to a line
/// where they do not.
pub struct SeparatedTypes<'e> {
    pub types: &'e Vec<Ty>,
    pub inline: &'static str,
    pub line_end: &'static str,
}

impl<'e> SeparatedTypes<'e> {
    /// Writes the list on one line, or one type to a line where one line
    /// does not do.
    #[verifier::loop_isolation(false)]
    pub fn write(&self, opt: WriteOpt) -> (r: Option<String>)
        ensures
            view_opt(r) == tys_source(self.types@, self.inline@, self.line_end@, opt),
    {
        let inline = self.write_inline(opt);
        if inline.is_some() {
            return inline;
        }
        let item_opt = lines_options(self.types.len(), self.line_end, &opt)?;
        let indent = item_opt.write_indent();
        let mut w = Writer::new(opt);
        let mut i: usize = 0;
        while i < self.types.len()
            invariant
                i <= self.types.len(),
                indent@ == crate::codegen::options::indent_text(item_opt.indent as nat),
                tys_lines(self.types@, self.line_end@, item_opt, i as int, w@) == tys_lines(
                    self.types@,
                    self.line_end@,
                    item_opt,
                    0,
                    Out::start(opt),
                ),
            decreases self.types.len() - i,
        {
            w.put("\n");
            w.put(indent.as_str());
            let source = self.types[i].write(item_opt);
            w.put_opt(&source);
            w.put(self.line_end);
            i += 1;
        }
        w.put("\n");
        let outer = opt.write_indent();
        w.put(outer.as_str());
        w.done()
    }

    /// Writes the list on one line. `None` where it does not fit.
    #[verifier::loop_isolation(false)]
    pub fn write_inline(&self, opt: WriteOpt) -> (r: Option<String>)
        ensures
            view_opt(r) == tys_inline(self.types@, self.inline@, 0, Out::start(opt)).take(
                separators_width(self.types@.len(), self.inline@),
            ).done(),
    {
        let mut w = Writer::new(opt);
        let mut i: usize = 0;
        while i < self.types.len()
            invariant
                i <= self.types.len(),
                tys_inline(self.types@, self.inline@, i as int, w@) == tys_inline(
                    self.types@,
                    self.inline@,
                    0,
                    Out::start(opt),
                ),
            decreases self.types.len() - i,
        {
            let source = self.types[i].write(w.opt);
            if i > 0 {
                w.put(self.inline);
            }
            match source {
                Some(s) => {
                    if str_has_line_break(s.as_str()) {
                        w.fail();
                    } else {
                        w.emit_whole(s.as_str());
                    }
                },
                None => {
                    w.fail();
                },
            }
            i += 1;
        }
        take_separators(&mut w, self.types.len(), self.inline);
        w.done()
    }
}

} // verus!
