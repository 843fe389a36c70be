//! Writers for statements.

use crate::codegen::ident::{ident_part, ident_source, write_ident_part};
use crate::codegen::options::{indent_text, WriteOpt};
use crate::codegen::source::{expr_source, ty_source};
use crate::codegen::writer::{Out, Writer};
use crate::pr::expr::{Expr, ExprKind};
use crate::pr::stmt::{
    Annotation, ImportDef, ModuleDef, QueryDef, Stmt, StmtKind, TypeDef, VarDef, VarDefKind,
};
use crate::text::view_opt;
use vstd::prelude::*;
use vstd::string::*;

verus! {

/// The options after a fresh line is started; where the indentation
/// leaves no room, writing has failed.
pub open spec fn fresh_line<'a>(out: Out<'a>) -> Out<'a> {
    match out.opt.spec_reset_line() {
        Some(o) => out.with_opt(o),
        None => out.fail(),
    }
}

/// The annotations from index `i` on, each on a line of its own after an
/// at sign.
pub open spec fn annotations_out<'a>(v: Seq<Annotation>, i: int, out: Out<'a>) -> Out<'a>
    decreases v.len() - i,
{
    if 0 <= i < v.len() {
        let a = out.put("@"@).put_opt(expr_source(*v[i].expr, out.opt)).put("\n"@).put(
            indent_text(out.opt.indent as nat),
        );
        annotations_out(v, i + 1, fresh_line(a))
    } else {
        out
    }
}

/// The options of a query header from index `i` on, each as a space, the
/// key, a colon and the value.
pub open spec fn query_options_text(v: Seq<(String, String)>) -> Seq<char>
    decreases v.len(),
{
    if v.len() == 0 {
        Seq::empty()
    } else {
        query_options_text(v.drop_last()) + " "@ + v.last().0@ + ":"@ + v.last().1@
    }
}

/// `prql`, the version asked for, the other options, and a line break.
pub open spec fn query_def_text(query: QueryDef) -> Seq<char> {
    let version = match query.version {
        Some(v) => " version:\""@ + v@ + "\""@,
        None => Seq::empty(),
    };
    "prql"@ + version + query_options_text(query.other@) + "\n"@
}

/// The stages of a pipeline from index `i` on, each on a line of its
/// own.
pub open spec fn stages_out<'a>(v: Seq<Expr>, i: int, out: Out<'a>) -> Out<'a>
    decreases v.len() - i,
{
    if 0 <= i < v.len() {
        stages_out(v, i + 1, out.put_opt(expr_source(v[i], out.opt)).put("\n"@))
    } else {
        out
    }
}

/// A definition with `let`, where it has a type or no value: the name,
/// the type between angle brackets, and the value after an equals sign.
pub open spec fn declared_out<'a>(var_def: VarDef, out: Out<'a>) -> Out<'a> {
    let typed = match var_def.ty {
        Some(ty) => match ty_source(ty, out.opt) {
            Some(t) => out.emit("let "@ + var_def.name@ + " "@ + "<"@ + t + "> "@),
            None => out.fail(),
        },
        None => out.emit("let "@ + var_def.name@ + " "@),
    };
    let valued = match var_def.value {
        Some(value) => {
            let a = typed.emit("= "@);
            a.put_opt(expr_source(*value, a.opt))
        },
        None => typed,
    };
    valued.put("\n"@)
}

/// A definition of a variable, in the form that its kind asks for.
pub open spec fn var_def_out<'a>(var_def: VarDef, out: Out<'a>) -> Out<'a> {
    match var_def.value {
        Some(value) if var_def.ty is None => {
            match var_def.kind {
                VarDefKind::Let => {
                    let a = out.emit("let "@ + var_def.name@ + " = "@);
                    a.put_opt(expr_source(*value, a.opt)).put("\n"@)
                },
                _ => {
                    let body = match value.kind {
                        ExprKind::Pipeline(pipeline) => stages_out(pipeline.exprs@, 0, out),
                        _ => out.put_opt(expr_source(*value, out.opt)).put("\n"@),
                    };
                    if var_def.kind == VarDefKind::Into {
                        body.put("into "@ + var_def.name@).put("\n"@)
                    } else {
                        body
                    }
                },
            }
        },
        _ => declared_out(var_def, out),
    }
}

/// `type`, the name, and the type after an equals sign.
pub open spec fn type_def_out<'a>(type_def: TypeDef, out: Out<'a>) -> Out<'a> {
    let a = out.emit("type "@ + type_def.name@);
    let b = match type_def.value {
        Some(ty) => {
            let c = a.emit(" = "@);
            c.put_opt(ty_source(ty, c.opt))
        },
        None => a,
    };
    b.put("\n"@)
}

/// `import`, the alias before an equals sign, and the name.
pub open spec fn import_def_out<'a>(import_def: ImportDef, out: Out<'a>) -> Out<'a> {
    let a = out.put("import "@);
    let b = match import_def.alias {
        Some(alias) => a.put(ident_part(alias@)).put(" = "@),
        None => a,
    };
    b.put_opt(ident_source(import_def.name, b.opt)).put("\n"@)
}

/// A module: its name, then its statements one step further in between
/// braces.
pub open spec fn module_def_out<'a>(module_def: ModuleDef, out: Out<'a>) -> Out<'a>
    decreases module_def, 0nat,
{
    let a = out.put("module "@ + module_def.name@ + " {\n"@);
    if out.opt.indent < u16::MAX {
        let inner = WriteOpt { indent: (out.opt.indent + 1) as u16, ..out.opt };
        a.put_opt(stmts_source(module_def.stmts@, inner)).put(
            indent_text(out.opt.indent as nat),
        ).put("}\n"@)
    } else {
        a.fail()
    }
}

/// A statement: its annotations, then what its kind is written as.
pub open spec fn stmt_source(stmt: Stmt, opt: WriteOpt) -> Option<Seq<char>>
    decreases stmt, 0nat,
{
    let a = annotations_out(stmt.annotations@, 0, Out::start(opt));
    let b = match stmt.kind {
        StmtKind::QueryDef(query) => a.put(query_def_text(*query)),
        StmtKind::VarDef(var_def) => var_def_out(var_def, a),
        StmtKind::TypeDef(type_def) => type_def_out(type_def, a),
        StmtKind::ModuleDef(module_def) => module_def_out(module_def, a),
        StmtKind::ImportDef(import_def) => import_def_out(import_def, a),
    };
    b.done()
}

/// The options for lines half as wide again, at the start of a fresh
/// line; `None` where the lines cannot be made wider.
pub open spec fn wider<'a>(opt: WriteOpt<'a>) -> Option<WriteOpt<'a>> {
    let width = opt.max_width + opt.max_width / 2;
    if opt.max_width >= 2 && width <= u16::MAX {
        let o = WriteOpt { max_width: width as u16, ..opt };
        match o.spec_reset_line() {
            Some(fresh) => Some(fresh),
            None => Some(o),
        }
    } else {
        None
    }
}

/// A statement as it is written on the narrowest lines that it fits on,
/// starting from those of `opt` and making them half as wide again each
/// time; `None` where it fits on none.
pub open spec fn expanded(stmt: Stmt, opt: WriteOpt) -> Option<Seq<char>>
    decreases stmt, (u16::MAX - opt.max_width + 1) as nat,
{
    let source = stmt_source(stmt, opt);
    if source is Some {
        source
    } else {
        match wider(opt) {
            Some(o) => expanded(stmt, o),
            None => None,
        }
    }
}

/// The statements from index `i` on, each at the indentation of `opt`,
/// with an empty line between one and the next.
pub open spec fn stmts_out<'a>(v: Seq<Stmt>, opt: WriteOpt<'a>, i: int, out: Out<'a>) -> Out<'a>
    decreases v, v.len() - i,
{
    if 0 <= i < v.len() {
        let lead = if out.text.len() > 0 {
            out.put("\n"@)
        } else {
            out
        };
        stmts_out(
            v,
            opt,
            i + 1,
            lead.put(indent_text(opt.indent as nat)).put_opt(expanded(v[i], opt)),
        )
    } else {
        out
    }
}

/// A sequence of statements, written from the start of a fresh line.
pub open spec fn stmts_source(v: Seq<Stmt>, opt: WriteOpt) -> Option<Seq<char>>
    decreases v, v.len() + 1,
{
    match opt.spec_reset_line() {
        Some(o) => stmts_out(v, o, 0, Out::start(o)).done(),
        None => None,
    }
}

/// The options for lines half as wide again.
pub fn widen<'a>(opt: &WriteOpt<'a>) -> (r: Option<WriteOpt<'a>>)
    ensures
        r == wider(*opt),
{
    let width: u32 = opt.max_width as u32 + (opt.max_width as u32) / 2;
    if opt.max_width >= 2 && width <= u16::MAX as u32 {
        let mut o = *opt;
        o.max_width = width as u16;
        let _ = o.reset_line();
        Some(o)
    } else {
        None
    }
}

#[verifier::loop_isolation(false)]
fn write_annotations(v: &Vec<Annotation>, w: &mut Writer)
    ensures
        final(w)@ == annotations_out(v@, 0, old(w)@),
{
    let mut i: usize = 0;
    while i < v.len()
        invariant
            i <= v.len(),
            annotations_out(v@, i as int, w@) == annotations_out(v@, 0, old(w)@),
        decreases v.len() - i,
    {
        w.put("@");
        let source = v[i].expr.write(w.opt);
        w.put_opt(&source);
        w.put("\n");
        let indent = w.opt.write_indent();
        w.put(indent.as_str());
        match w.opt.reset_line() {
            Some(_) => {},
            None => {
                w.fail();
            },
        }
        i += 1;
    }
}

fn write_query_def(query: &QueryDef) -> (r: String)
    ensures
        r@ == query_def_text(*query),
{
    let mut r = String::from_str("prql");
    match &query.version {
        Some(version) => {
            r.append(" version:\"");
            r.append(version.as_str());
            r.append("\"");
            assert(r@ =~= "prql"@ + (" version:\""@ + version@ + "\""@));
        },
        None => {
            assert(r@ =~= "prql"@ + Seq::<char>::empty());
        },
    }
    let ghost head = r@;
    assert(head + Seq::<char>::empty() =~= head);
    let mut i: usize = 0;
    while i < query.other.len()
        invariant
            i <= query.other.len(),
            r@ == head + query_options_text(query.other@.take(i as int)),
        decreases query.other.len() - i,
    {
        proof {
            assert(query.other@.take(i + 1).drop_last() == query.other@.take(i as int));
        }
        r.append(" ");
        r.append(query.other[i].0.as_str());
        r.append(":");
        r.append(query.other[i].1.as_str());
        assert(r@ =~= head + query_options_text(query.other@.take(i + 1)));
        i += 1;
    }
    proof {
        assert(query.other@.take(i as int) == query.other@);
    }
    r.append("\n");
    r
}

#[verifier::loop_isolation(false)]
fn write_stages(v: &Vec<Expr>, w: &mut Writer)
    ensures
        final(w)@ == stages_out(v@, 0, old(w)@),
{
    let mut i: usize = 0;
    while i < v.len()
        invariant
            i <= v.len(),
            stages_out(v@, i as int, w@) == stages_out(v@, 0, old(w)@),
        decreases v.len() - i,
    {
        let source = v[i].write(w.opt);
        w.put_opt(&source);
        w.put("\n");
        i += 1;
    }
}

fn write_declared(var_def: &VarDef, w: &mut Writer)
    ensures
        final(w)@ == declared_out(*var_def, old(w)@),
{
    let mut head = String::from_str("let ");
    head.append(var_def.name.as_str());
    head.append(" ");
    match &var_def.ty {
        Some(ty) => {
            match ty.write(w.opt) {
                Some(t) => {
                    head.append("<");
                    head.append(t.as_str());
                    head.append("> ");
                    w.emit(head.as_str());
                },
                None => {
                    w.fail();
                },
            }
        },
        None => {
            w.emit(head.as_str());
        },
    }
    match &var_def.value {
        Some(value) => {
            w.emit("= ");
            let source = value.write(w.opt);
            w.put_opt(&source);
        },
        None => {},
    }
    w.put("\n");
}

fn write_var_def(var_def: &VarDef, w: &mut Writer)
    ensures
        final(w)@ == var_def_out(*var_def, old(w)@),
{
    match &var_def.value {
        Some(value) => {
            if var_def.ty.is_some() {
                write_declared(var_def, w);
                return ;
            }
            match var_def.kind {
                VarDefKind::Let => {
                    let mut head = String::from_str("let ");
                    head.append(var_def.name.as_str());
                    head.append(" = ");
                    w.emit(head.as_str());
                    let source = value.write(w.opt);
                    w.put_opt(&source);
                    w.put("\n");
                },
                VarDefKind::Into | VarDefKind::Main => {
                    match &value.kind {
                        ExprKind::Pipeline(pipeline) => {
                            write_stages(&pipeline.exprs, w);
                        },
                        _ => {
                            let source = value.write(w.opt);
                            w.put_opt(&source);
                            w.put("\n");
                        },
                    }
                    if var_def.kind == VarDefKind::Into {
                        let mut tail = String::from_str("into ");
                        tail.append(var_def.name.as_str());
                        w.put(tail.as_str());
                        w.put("\n");
                    }
                },
            }
        },
        None => {
            write_declared(var_def, w);
        },
    }
}

fn write_type_def(type_def: &TypeDef, w: &mut Writer)
    ensures
        final(w)@ == type_def_out(*type_def, old(w)@),
{
    let mut head = String::from_str("type ");
    head.append(type_def.name.as_str());
    w.emit(head.as_str());
    match &type_def.value {
        Some(ty) => {
            w.emit(" = ");
            let source = ty.write(w.opt);
            w.put_opt(&source);
        },
        None => {},
    }
    w.put("\n");
}

fn write_import_def(import_def: &ImportDef, w: &mut Writer)
    ensures
        final(w)@ == import_def_out(*import_def, old(w)@),
{
    w.put("import ");
    match &import_def.alias {
        Some(alias) => {
            let name = write_ident_part(alias.as_str());
            w.put(name.as_str());
            w.put(" = ");
        },
        None => {},
    }
    let source = import_def.name.write(w.opt);
    w.put_opt(&source);
    w.put("\n");
}

fn write_module_def(module_def: &ModuleDef, w: &mut Writer)
    ensures
        final(w)@ == module_def_out(*module_def, old(w)@),
    decreases *module_def, 0nat,
{
    let mut head = String::from_str("module ");
    head.append(module_def.name.as_str());
    head.append(" {\n");
    w.put(head.as_str());
    if w.opt.indent < u16::MAX {
        let mut inner = w.opt;
        inner.indent = w.opt.indent + 1;
        let source = write_stmts(&module_def.stmts, inner);
        w.put_opt(&source);
        let indent = w.opt.write_indent();
        w.put(indent.as_str());
        w.put("}\n");
    } else {
        w.fail();
    }
}

impl Stmt {
    /// Writes the statement under `opt`. `None` says that it does not fit
    /// on lines of that width.
    pub fn write(&self, opt: WriteOpt) -> (r: Option<String>)
        ensures
            view_opt(r) == stmt_source(*self, opt),
        decreases *self, 0nat,
    {
        let mut w = Writer::new(opt);
        write_annotations(&self.annotations, &mut w);
        match &self.kind {
            StmtKind::QueryDef(query) => {
                let text = write_query_def(query);
                w.put(text.as_str());
            },
            StmtKind::VarDef(var_def) => {
                write_var_def(var_def, &mut w);
            },
            StmtKind::TypeDef(type_def) => {
                write_type_def(type_def, &mut w);
            },
            StmtKind::ModuleDef(module_def) => {
                write_module_def(module_def, &mut w);
            },
            StmtKind::ImportDef(import_def) => {
                write_import_def(import_def, &mut w);
            },
        }
        w.done()
    }

    /// Writes the statement on the narrowest lines that it fits on: those
    /// of `opt`, or lines made half as wide again as often as it takes.
    /// `None` where the lines cannot be made wide enough.
    pub fn write_or_expand(&self, opt: WriteOpt) -> (r: Option<String>)
        ensures
            view_opt(r) == expanded(*self, opt),
        decreases *self, (u16::MAX - opt.max_width + 1) as nat,
    {
        match self.write(opt) {
            Some(s) => Some(s),
            None => match widen(&opt) {
                Some(o) => self.write_or_expand(o),
                None => None,
            },
        }
    }
}

/// Writes a sequence of statements, an empty line between one and the
/// next.
#[verifier::loop_isolation(false)]
pub fn write_stmts(stmts: &Vec<Stmt>, opt: WriteOpt) -> (r: Option<String>)
    ensures
        view_opt(r) == stmts_source(stmts@, opt),
    decreases stmts@, stmts@.len() + 1,
{
    let mut opt = opt;
    opt.reset_line()?;
    let indent = opt.write_indent();
    let mut w = Writer::new(opt);
    let mut i: usize = 0;
    while i < stmts.len()
        invariant
            i <= stmts.len(),
            stmts_out(stmts@, opt, i as int, w@) == stmts_out(stmts@, opt, 0, Out::start(opt)),
        decreases stmts.len() - i,
    {
        if !w.text.as_str().is_empty() {
            w.put("\n");
        }
        w.put(indent.as_str());
        let source = stmts[i].write_or_expand(opt);
        w.put_opt(&source);
        i += 1;
    }
    w.done()
}

} // verus!
