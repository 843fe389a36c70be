//! Operators of the standard library, written as SQL text from the
//! templates that the library holds for each dialect.

use crate::pr::expr::{Expr, ExprKind, Func, InterpolateItem};
use crate::pr::literal::Literal;
use crate::pr::stmt::Annotation;
use crate::rq;
use crate::semantic::{lemma_last_named_in_range, last_named, Decl, DeclKind, Module};
use crate::sql::dialect::Dialect;
use crate::sql::error::{Error, ErrorView, Reason};
use crate::text::{last_segment, parse_i32, parsed_i32, str_eq, str_last_segment};
use itertools::Itertools;
use vstd::prelude::*;
use vstd::string::*;

verus! {

/// Strength of an operator whose definition names none: that of text
/// which never needs parentheses.
pub const DEFAULT_STRENGTH: i32 = 100;

/// The definitions of the operators, checked to be such: every function
/// in it, and in each of its modules, has a template over its parameters
/// for a body, or `null`.
#[derive(Debug)]
pub struct OperatorLibrary {
    root: Module,
}

impl OperatorLibrary {
    #[verifier::type_invariant]
    spec fn well_formed(self) -> bool {
        is_operator_library(self.root)
    }

    /// The module that holds the definitions.
    pub closed spec fn module(self) -> Module {
        self.root
    }

    /// The module that holds the definitions.
    pub fn root(&self) -> (r: &Module)
        ensures
            *r == self.module(),
            is_operator_library(*r),
    {
        proof {
            use_type_invariant(self);
        }
        &self.root
    }
}

/// What a translation needs to know of its surroundings: the dialect
/// that is written for, and the library of operators.
pub struct Context<'a> {
    pub dialect_enum: Dialect,
    pub std: &'a OperatorLibrary,
}

/// SQL text with the strength that it binds with.
#[derive(Debug, PartialEq, Eq)]
pub struct Source {
    pub text: String,
    pub binding_strength: i32,
}

impl Source {
    pub fn into_source(self) -> (r: String)
        ensures
            r == self.text,
    {
        self.text
    }
}

/// What a translation gives, as contracts speak of it: the text and its
/// strength, or the error.
pub type Sql = Result<(Seq<char>, i32), ErrorView>;

pub open spec fn source_view(r: Result<Source, Error>) -> Sql {
    match r {
        Ok(s) => Ok((s.text@, s.binding_strength)),
        Err(e) => Err(e@),
    }
}

pub open spec fn pair_view(r: Result<(String, i32), Error>) -> Sql {
    match r {
        Ok(s) => Ok((s.0@, s.1)),
        Err(e) => Err(e@),
    }
}

// Looking up an operator

/// Whether `name` is a name of the standard library.
pub open spec fn has_std_prefix(name: Seq<char>) -> bool {
    name.len() >= 4 && name[0] == 's' && name[1] == 't' && name[2] == 'd' && name[3] == '.'
}

/// The function that `d` declares, if it declares one.
pub open spec fn decl_func(d: Decl) -> Option<Func> {
    match d.kind {
        DeclKind::Expr(e) => match e.kind {
            ExprKind::Func(f) => Some(*f),
            _ => None,
        },
        _ => None,
    }
}

/// The declaration of the operator `key`: that of the module of the
/// dialect, where there is one, and that of the library itself
/// otherwise. Only a function is an operator.
pub open spec fn operator_decl(std: Module, dialect: Dialect, key: Seq<char>) -> Option<Decl> {
    let in_dialect = match std.spec_get(dialect.name()) {
        Some(d) => match d.kind {
            DeclKind::Module(m) => m.spec_get(key),
            _ => None,
        },
        None => None,
    };
    let found = if in_dialect is Some {
        in_dialect
    } else {
        std.spec_get(key)
    };
    match found {
        Some(d) if decl_func(d) is Some => Some(d),
        _ => None,
    }
}

/// Index of the first item from `i` on that has the alias `alias`.
pub open spec fn first_aliased(items: Seq<Expr>, alias: Seq<char>, i: int) -> Option<int>
    decreases items.len() - i,
{
    if 0 <= i < items.len() {
        if items[i].alias matches Some(a) && a@ == alias {
            Some(i)
        } else {
            first_aliased(items, alias, i + 1)
        }
    } else {
        None
    }
}

/// The item that gives the binding strength in the annotations of a
/// declaration: the first that is named `binding_strength` in the tuple
/// of the one annotation, where there is exactly one annotation, it is a
/// tuple, and each of its items has a name.
pub open spec fn strength_item(annotations: Seq<Annotation>) -> Option<ExprKind> {
    if annotations.len() == 1 {
        match annotations[0].expr.kind {
            ExprKind::Tuple(items) => {
                if forall|i: int| 0 <= i < items@.len() ==> (#[trigger] items@[i]).alias is Some {
                    match first_aliased(items@, "binding_strength"@, 0) {
                        Some(i) => Some(items@[i].kind),
                        None => None,
                    }
                } else {
                    None
                }
            },
            _ => None,
        }
    } else {
        None
    }
}

/// The strength that `kind` gives: it has to be a whole number that fits
/// 32 bits.
pub open spec fn strength_value(kind: ExprKind) -> Option<i32> {
    match kind {
        ExprKind::Literal(Literal::Integer(v)) if i32::MIN <= v <= i32::MAX => Some(v as i32),
        _ => None,
    }
}

/// The binding strength that the annotations of a declaration give.
pub open spec fn annotated_strength(annotations: Seq<Annotation>) -> Option<i32> {
    match strength_item(annotations) {
        Some(kind) => strength_value(kind),
        None => None,
    }
}

/// Calls `Itertools::exactly_one` on the items of `v`: the one item
/// where `v` holds exactly one, and nothing where it holds none or
/// more.
#[verifier::external_body]
fn exactly_one<T>(v: &Vec<T>) -> (r: Option<&T>)
    ensures
        match r {
            Some(item) => v@.len() == 1 && *item == v@[0],
            None => v@.len() != 1,
        },
{
    v.iter().exactly_one().ok()
}

/// Whether `name` starts with `std.`.
pub fn starts_with_std(name: &str) -> (r: bool)
    ensures
        r == has_std_prefix(name@),
{
    name.unicode_len() >= 4 && name.get_char(0) == 's' && name.get_char(1) == 't' && name.get_char(
        2,
    ) == 'd' && name.get_char(3) == '.'
}

/// Finds the item that gives the binding strength in the annotations of
/// a declaration.
#[verifier::loop_isolation(false)]
fn find_strength_item(annotations: &Vec<Annotation>) -> (r: Option<&ExprKind>)
    ensures
        match r {
            Some(kind) => strength_item(annotations@) == Some(*kind),
            None => strength_item(annotations@) is None,
        },
{
    let annotation = exactly_one(annotations)?;
    let items = match &annotation.expr.kind {
        ExprKind::Tuple(items) => items,
        _ => {
            return None;
        },
    };
    let mut k: usize = 0;
    while k < items.len()
        invariant
            k <= items.len(),
            forall|i: int| 0 <= i < k ==> (#[trigger] items@[i]).alias is Some,
        decreases items.len() - k,
    {
        if items[k].alias.is_none() {
            return None;
        }
        k += 1;
    }
    let mut i: usize = 0;
    while i < items.len()
        invariant
            i <= items.len(),
            first_aliased(items@, "binding_strength"@, i as int) == first_aliased(
                items@,
                "binding_strength"@,
                0,
            ),
        decreases items.len() - i,
    {
        let found = match &items[i].alias {
            Some(alias) => str_eq(alias.as_str(), "binding_strength"),
            None => false,
        };
        if found {
            return Some(&items[i].kind);
        }
        i += 1;
    }
    None
}

/// Reads a binding strength from the expression that gives it.
fn read_strength_value(kind: &ExprKind) -> (r: Option<i32>)
    ensures
        r == strength_value(*kind),
{
    match kind {
        ExprKind::Literal(Literal::Integer(v)) => {
            if -0x8000_0000 <= *v && *v <= 0x7fff_ffff {
                Some(*v as i32)
            } else {
                None
            }
        },
        _ => None,
    }
}

/// Reads the binding strength from the annotations of a declaration:
/// the strength that they name, and nothing where they name none. The
/// annotations have to be well formed, which `check_annotations` tells.
pub fn read_strength(annotations: &Vec<Annotation>) -> (r: Option<i32>)
    requires
        annotations_ok(annotations@),
    ensures
        r == annotated_strength(annotations@),
        r is None <==> strength_item(annotations@) is None,
{
    match find_strength_item(annotations) {
        Some(kind) => read_strength_value(kind),
        None => None,
    }
}

/// Finds the function that defines `operator_name` for `dialect`, and
/// the binding strength that the definition is annotated with: `None`
/// for the strength says that the definition names none.
pub fn find_operator_impl<'a>(
    std: &'a OperatorLibrary,
    operator_name: &str,
    dialect: Dialect,
) -> (r: Option<(&'a Func, Option<i32>)>)
    requires
        has_std_prefix(operator_name@),
    ensures
        match r {
            Some((f, s)) => operator_decl(std.module(), dialect, operator_name@.skip(4))
                matches Some(d) && decl_func(d) == Some(*f) && s == annotated_strength(
                d.annotations@,
            ) && (s is None <==> strength_item(d.annotations@) is None),
            None => operator_decl(std.module(), dialect, operator_name@.skip(4)) is None,
        },
{
    let root = std.root();
    let key = operator_name.substring_char(4, operator_name.unicode_len());
    let dialect_module = root.get(dialect.as_str());

    let mut func_def: Option<&'a Decl> = None;
    match dialect_module {
        Some(decl) => match &decl.kind {
            DeclKind::Module(module) => {
                func_def = module.get(key);
            },
            _ => {},
        },
        None => {},
    }
    if func_def.is_none() {
        func_def = root.get(key);
    }
    let decl = func_def?;
    match &decl.kind {
        DeclKind::Expr(e) => match &e.kind {
            ExprKind::Func(f) => {
                proof {
                    lemma_operator_decl_ok(*root, dialect, key@);
                }
                let binding_strength = read_strength(&decl.annotations);
                Some((f, binding_strength))
            },
            _ => None,
        },
        _ => None,
    }
}

// Binding arguments to parameters

/// The names that the arguments are bound to: those of the parameters by
/// name first, then those of the parameters by position, each less what
/// stands before its last dot.
pub open spec fn param_keys(f: Func) -> Seq<Seq<char>> {
    Seq::new(
        f.named_params@.len() + f.params@.len(),
        |i: int|
            if i < f.named_params@.len() {
                last_segment(f.named_params@[i].name@)
            } else {
                last_segment(f.params@[i - f.named_params@.len()].name@)
            },
    )
}

/// Index of the last of `keys` that is `key`.
pub open spec fn last_key(keys: Seq<Seq<char>>, key: Seq<char>) -> Option<int>
    decreases keys.len(),
{
    if keys.len() == 0 {
        None
    } else if keys.last() == key {
        Some(keys.len() - 1)
    } else {
        last_key(keys.drop_last(), key)
    }
}

/// The characters of each of `v`.
pub open spec fn views(v: Seq<String>) -> Seq<Seq<char>> {
    Seq::new(v.len(), |i: int| v[i]@)
}

/// Index of the argument that an interpolated expression of kind `kind`
/// stands for, among `n` arguments bound to `keys`.
pub open spec fn bound_arg(kind: ExprKind, keys: Seq<Seq<char>>, n: nat) -> Option<int> {
    match kind {
        ExprKind::Ident(name) => match last_key(keys, last_segment(name@)) {
            Some(j) if 0 <= j < n => Some(j),
            _ => None,
        },
        _ => None,
    }
}

#[verifier::loop_isolation(false)]
fn param_names(f: &Func) -> (r: Vec<String>)
    ensures
        views(r@) == param_keys(*f),
{
    let mut r: Vec<String> = Vec::new();
    let mut i: usize = 0;
    while i < f.named_params.len()
        invariant
            i <= f.named_params.len(),
            r@.len() == i,
            forall|j: int| 0 <= j < i ==> (#[trigger] r@[j])@ == last_segment(f.named_params@[j].name@),
        decreases f.named_params.len() - i,
    {
        r.push(str_last_segment(f.named_params[i].name.as_str()));
        i += 1;
    }
    let mut k: usize = 0;
    while k < f.params.len()
        invariant
            k <= f.params.len(),
            r@.len() == f.named_params@.len() + k,
            forall|j: int|
                0 <= j < f.named_params@.len() ==> (#[trigger] r@[j])@ == last_segment(
                    f.named_params@[j].name@,
                ),
            forall|j: int|
                f.named_params@.len() <= j < f.named_params@.len() + k ==> (#[trigger] r@[j])@
                    == last_segment(f.params@[j - f.named_params@.len()].name@),
        decreases f.params.len() - k,
    {
        r.push(str_last_segment(f.params[k].name.as_str()));
        k += 1;
    }
    assert(views(r@) =~= param_keys(*f));
    r
}

fn find_key(keys: &Vec<String>, key: &str) -> (r: Option<usize>)
    ensures
        match r {
            Some(j) => last_key(views(keys@), key@) == Some(j as int) && j < keys@.len(),
            None => last_key(views(keys@), key@) is None,
        },
{
    let ghost all = views(keys@);
    let mut i: usize = keys.len();
    assert(all.take(i as int) == all);
    while i > 0
        invariant
            i <= keys.len(),
            all == views(keys@),
            last_key(all, key@) == last_key(all.take(i as int), key@),
        decreases i,
    {
        proof {
            let t = all.take(i as int);
            assert(t.last() == keys@[i - 1]@);
            assert(t.drop_last() == all.take(i - 1));
        }
        if str_eq(keys[i - 1].as_str(), key) {
            return Some(i - 1);
        }
        i -= 1;
    }
    None
}

/// Finds the argument that an interpolated expression stands for.
fn find_bound_arg(kind: &ExprKind, keys: &Vec<String>, n: usize) -> (r: Option<usize>)
    ensures
        match r {
            Some(j) => bound_arg(*kind, views(keys@), n as nat) == Some(j as int) && j < n,
            None => bound_arg(*kind, views(keys@), n as nat) is None,
        },
{
    match kind {
        ExprKind::Ident(ident) => {
            let key = str_last_segment(ident.as_str());
            match find_key(keys, key.as_str()) {
                Some(j) if j < n => Some(j),
                _ => None,
            }
        },
        _ => None,
    }
}

// Writing the template

/// The strength that an argument is written under: the number that the
/// format of its place in the template gives, and the strength of the
/// operator where it gives none.
pub open spec fn required_strength(format: Option<String>, parent: i32) -> i32 {
    match format {
        Some(f) => match parsed_i32(f@) {
            Some(v) => v,
            None => parent,
        },
        None => parent,
    }
}

/// `text` as an operand: between parentheses where that is asked for, or
/// where `text` binds less strongly than `required`.
pub open spec fn wrapped(text: Seq<char>, strength: i32, required: i32, force_paren: bool) -> (
    Seq<char>,
    i32,
) {
    if force_paren || strength < required {
        ("("@ + text + ")"@, DEFAULT_STRENGTH)
    } else {
        (text, strength)
    }
}

pub open spec fn failure(reason: Reason, operator: Seq<char>, dialect: Dialect) -> ErrorView {
    ErrorView { reason, operator, dialect, span: None }
}

/// An expression as an operand that has to bind with `required` at
/// least.
pub open spec fn operand_sql(
    std: Module,
    dialect: Dialect,
    e: rq::Expr,
    required: i32,
    force_paren: bool,
) -> Sql
    decreases e, 1nat,
{
    match expr_sql(std, dialect, e) {
        Ok((text, strength)) => Ok(wrapped(text, strength, required, force_paren)),
        Err(x) => Err(x),
    }
}

/// An expression as SQL text. An error that has no place yet gets that
/// of the expression.
pub open spec fn expr_sql(std: Module, dialect: Dialect, e: rq::Expr) -> Sql
    decreases e, 0nat,
{
    match e.kind {
        rq::ExprKind::Source { text, binding_strength } => Ok((text@, binding_strength)),
        rq::ExprKind::Operator { name, args } => match operator_sql(std, dialect, name@, args@) {
            Ok(v) => Ok(v),
            Err(x) => Err(x.with_span(e.span)),
        },
    }
}

/// The parts of a template from index `i` on, added to `acc`: text as it
/// is, and for each name the argument bound to it, written as an
/// operand. The first argument that fails ends the translation.
pub open spec fn template_sql(
    std: Module,
    dialect: Dialect,
    items: Seq<InterpolateItem>,
    i: int,
    keys: Seq<Seq<char>>,
    args: Seq<rq::Expr>,
    parent: i32,
    acc: Result<Seq<char>, ErrorView>,
) -> Result<Seq<char>, ErrorView>
    decreases args, 0nat, items.len() - i,
{
    if 0 <= i < items.len() {
        let next = match acc {
            Ok(text) => match items[i] {
                InterpolateItem::String(s) => Ok(text + s@),
                InterpolateItem::Expr { expr, format } => match bound_arg(
                    expr.kind,
                    keys,
                    args.len(),
                ) {
                    Some(j) => if 0 <= j < args.len() {
                        match operand_sql(
                            std,
                            dialect,
                            args[j],
                            required_strength(format, parent),
                            false,
                        ) {
                            Ok((t, _)) => Ok(text + t),
                            Err(x) => Err(x),
                        }
                    } else {
                        Ok(text)
                    },
                    None => Ok(text),
                },
            },
            Err(x) => Err(x),
        };
        template_sql(std, dialect, items, i + 1, keys, args, parent, next)
    } else {
        acc
    }
}

/// The call of the operator `name` with `args` as SQL text, with the
/// strength of the operator.
pub open spec fn operator_sql(std: Module, dialect: Dialect, name: Seq<char>, args: Seq<rq::Expr>)
    -> Sql
    decreases args, 1nat, 0nat,
{
    let found = if has_std_prefix(name) {
        operator_decl(std, dialect, name.skip(4))
    } else {
        None
    };
    match found {
        Some(d) => {
            let f = decl_func(d)->0;
            let parent = match annotated_strength(d.annotations@) {
                Some(s) => s,
                None => DEFAULT_STRENGTH,
            };
            match f.body.kind {
                ExprKind::SString(items) => {
                    if param_keys(f).len() != args.len() {
                        Err(failure(Reason::Arity, name, dialect))
                    } else {
                        match template_sql(
                            std,
                            dialect,
                            items@,
                            0,
                            param_keys(f),
                            args,
                            parent,
                            Ok(Seq::empty()),
                        ) {
                            Ok(text) => Ok((text, parent)),
                            Err(x) => Err(x),
                        }
                    }
                },
                _ => Err(failure(Reason::Unsupported, name, dialect)),
            }
        },
        None => Err(failure(Reason::UnknownOperator, name, dialect)),
    }
}

// What a library of operators has to be like

/// Whether every name in the template is that of a parameter.
pub open spec fn template_ok(items: Seq<InterpolateItem>, keys: Seq<Seq<char>>) -> bool {
    forall|i: int|
        0 <= i < items.len() ==> (#[trigger] items[i] matches InterpolateItem::Expr { expr, .. }
            ==> bound_arg(expr.kind, keys, keys.len()) is Some)
}

/// Whether the body of `f` is a template over its parameters, or `null`
/// for an operator that is not available.
pub open spec fn func_ok(f: Func) -> bool {
    match f.body.kind {
        ExprKind::Literal(Literal::Null) => true,
        ExprKind::SString(items) => template_ok(items@, param_keys(f)),
        _ => false,
    }
}

/// Whether the binding strength, where the annotations name one, is a
/// whole number that fits 32 bits.
pub open spec fn annotations_ok(annotations: Seq<Annotation>) -> bool {
    strength_item(annotations) matches Some(kind) ==> strength_value(kind) is Some
}

pub open spec fn decl_ok(d: Decl) -> bool {
    decl_func(d) matches Some(f) ==> func_ok(f) && annotations_ok(d.annotations@)
}

pub open spec fn module_ok(m: Module) -> bool {
    forall|i: int| 0 <= i < m.names@.len() ==> decl_ok(#[trigger] m.names@[i].1)
}

/// Whether `std` can serve as a library of operators: every function
/// that it or one of its modules declares is the definition of an
/// operator.
pub open spec fn is_operator_library(std: Module) -> bool {
    &&& module_ok(std)
    &&& forall|i: int|
        0 <= i < std.names@.len() ==> ((#[trigger] std.names@[i]).1.kind matches DeclKind::Module(
            m,
        ) ==> module_ok(m))
}

/// In a library of operators, what is looked up as an operator is the
/// definition of one.
pub proof fn lemma_operator_decl_ok(std: Module, dialect: Dialect, key: Seq<char>)
    requires
        is_operator_library(std),
    ensures
        operator_decl(std, dialect, key) matches Some(d) ==> decl_ok(d),
{
    lemma_last_named_in_range(std.names@, dialect.name());
    lemma_last_named_in_range(std.names@, key);
    match std.spec_get(dialect.name()) {
        Some(d) => match d.kind {
            DeclKind::Module(m) => {
                let k = last_named(std.names@, dialect.name())->0;
                assert(std.names@[k].1.kind == DeclKind::Module(m));
                assert(module_ok(m));
                lemma_last_named_in_range(m.names@, key);
            },
            _ => {},
        },
        None => {},
    }
}

// Translating

/// Writes `fragment` as an operand: between parentheses where
/// `force_paren` asks for them, or where it binds less strongly than
/// `required_strength`.
pub fn wrap_operand(fragment: Source, required_strength: i32, force_paren: bool) -> (r: Source)
    ensures
        (r.text@, r.binding_strength) == wrapped(
            fragment.text@,
            fragment.binding_strength,
            required_strength,
            force_paren,
        ),
{
    if force_paren || fragment.binding_strength < required_strength {
        let mut text = String::from_str("(");
        text.append(fragment.text.as_str());
        text.append(")");
        Source { text, binding_strength: DEFAULT_STRENGTH }
    } else {
        fragment
    }
}

/// Translates an expression and writes it as an operand of something
/// that binds with `required_strength`.
pub fn translate_operand(
    expr: &rq::Expr,
    required_strength: i32,
    force_paren: bool,
    ctx: &Context,
) -> (r: Result<Source, Error>)
    ensures
        source_view(r) == operand_sql(
            ctx.std.module(),
            ctx.dialect_enum,
            *expr,
            required_strength,
            force_paren,
        ),
    decreases *expr, 1nat,
{
    let fragment = match &expr.kind {
        rq::ExprKind::Source { text, binding_strength } => Source {
            text: text.clone(),
            binding_strength: *binding_strength,
        },
        rq::ExprKind::Operator { .. } => match translate_operator_expr(expr, ctx) {
            Ok(fragment) => fragment,
            Err(e) => {
                return Err(e);
            },
        },
    };
    Ok(wrap_operand(fragment, required_strength, force_paren))
}

/// Translates the call of an operator.
pub fn translate_operator_expr(expr: &rq::Expr, ctx: &Context) -> (r: Result<Source, Error>)
    requires
        expr.kind is Operator,
    ensures
        source_view(r) == expr_sql(ctx.std.module(), ctx.dialect_enum, *expr),
    decreases *expr, 0nat,
{
    match &expr.kind {
        rq::ExprKind::Operator { name, args } => {
            match translate_operator(name.as_str(), args, ctx) {
                Ok((text, binding_strength)) => Ok(Source { text, binding_strength }),
                Err(e) => Err(e.with_span(expr.span)),
            }
        },
        rq::ExprKind::Source { text, binding_strength } => Ok(
            Source { text: text.clone(), binding_strength: *binding_strength },
        ),
    }
}

/// Translates the operator `name`, called with `args`, to the SQL text
/// of the dialect, and gives the strength that the text binds with.
#[verifier::loop_isolation(false)]
pub fn translate_operator(name: &str, args: &Vec<rq::Expr>, ctx: &Context) -> (r: Result<
    (String, i32),
    Error,
>)
    ensures
        pair_view(r) == operator_sql(ctx.std.module(), ctx.dialect_enum, name@, args@),
    decreases args@, 1nat, 0nat,
{
    let dialect = ctx.dialect_enum;
    if !starts_with_std(name) {
        return Err(Error::new(Reason::UnknownOperator, name, dialect));
    }
    let std = ctx.std.root();
    let (func_def, binding_strength) = match find_operator_impl(ctx.std, name, dialect) {
        Some(found) => found,
        None => {
            return Err(Error::new(Reason::UnknownOperator, name, dialect));
        },
    };
    proof {
        lemma_operator_decl_ok(*std, dialect, name@.skip(4));
    }
    let parent_binding_strength = match binding_strength {
        Some(s) => s,
        None => DEFAULT_STRENGTH,
    };

    // body can only be an s-string
    let body = match &func_def.body.kind {
        ExprKind::Literal(Literal::Null) => {
            return Err(Error::new(Reason::Unsupported, name, dialect));
        },
        ExprKind::SString(items) => items,
        _ => {
            assert(false);
            return Err(Error::new(Reason::Unsupported, name, dialect));
        },
    };
    let params = param_names(func_def);
    if params.len() != args.len() {
        return Err(Error::new(Reason::Arity, name, dialect));
    }
    let ghost keys = param_keys(*func_def);

    let mut text = String::new();
    let mut i: usize = 0;
    while i < body.len()
        invariant
            i <= body.len(),
            template_sql(
                *std,
                dialect,
                body@,
                i as int,
                keys,
                args@,
                parent_binding_strength,
                Ok(text@),
            ) == template_sql(
                *std,
                dialect,
                body@,
                0,
                keys,
                args@,
                parent_binding_strength,
                Ok(Seq::empty()),
            ),
        decreases body.len() - i,
    {
        match &body[i] {
            InterpolateItem::Expr { expr, format } => {
                // s-string exprs can only contain idents
                match find_bound_arg(&expr.kind, &params, args.len()) {
                    Some(j) => {
                        // binding strength
                        let required_strength = match format {
                            Some(f) => match parse_i32(f.as_str()) {
                                Some(v) => v,
                                None => parent_binding_strength,
                            },
                            None => parent_binding_strength,
                        };
                        // translate args
                        match translate_operand(&args[j], required_strength, false, ctx) {
                            Ok(arg) => {
                                text.append(arg.into_source().as_str());
                            },
                            Err(e) => {
                                proof {
                                    lemma_template_fails(
                                        *std,
                                        dialect,
                                        body@,
                                        i + 1,
                                        keys,
                                        args@,
                                        parent_binding_strength,
                                        e@,
                                    );
                                }
                                return Err(e);
                            },
                        }
                    },
                    None => {
                        assert(false);
                    },
                }
            },
            InterpolateItem::String(s) => {
                text.append(s.as_str());
            },
        }
        i += 1;
    }
    Ok((text, parent_binding_strength))
}

/// Once an argument has failed, the template gives its error.
pub proof fn lemma_template_fails(
    std: Module,
    dialect: Dialect,
    items: Seq<InterpolateItem>,
    i: int,
    keys: Seq<Seq<char>>,
    args: Seq<rq::Expr>,
    parent: i32,
    x: ErrorView,
)
    ensures
        template_sql(std, dialect, items, i, keys, args, parent, Err(x)) == Err::<
            Seq<char>,
            ErrorView,
        >(x),
    decreases items.len() - i,
{
    if 0 <= i < items.len() {
        lemma_template_fails(std, dialect, items, i + 1, keys, args, parent, x);
    }
}

/// The text of a translated expression stands without parentheses as an
/// operand of whatever binds no more strongly than the text itself, as
/// long as parentheses are not asked for.
pub proof fn lemma_strength_propagation(std: Module, dialect: Dialect, e: rq::Expr, context: i32)
    requires
        expr_sql(std, dialect, e) is Ok,
        context <= expr_sql(std, dialect, e)->Ok_0.1,
    ensures
        operand_sql(std, dialect, e, context, false) == expr_sql(std, dialect, e),
{
}

/// An operand that binds less strongly than what holds it is written
/// between parentheses.
pub proof fn lemma_weaker_operand_wrapped(
    std: Module,
    dialect: Dialect,
    e: rq::Expr,
    context: i32,
)
    requires
        expr_sql(std, dialect, e) is Ok,
        context > expr_sql(std, dialect, e)->Ok_0.1,
    ensures
        operand_sql(std, dialect, e, context, false) matches Ok(operand) && operand.0 == "("@
            + expr_sql(std, dialect, e)->Ok_0.0 + ")"@,
{
}

/// An operator is translated only where it is called with as many
/// arguments as it has parameters, and it carries the strength of its
/// definition: the one that its annotations give, and 100 where they
/// give none.
pub proof fn lemma_operator_strength(
    std: Module,
    dialect: Dialect,
    name: Seq<char>,
    args: Seq<rq::Expr>,
)
    requires
        operator_sql(std, dialect, name, args) is Ok,
    ensures
        has_std_prefix(name),
        operator_decl(std, dialect, name.skip(4)) matches Some(d) && param_keys(
            decl_func(d)->0,
        ).len() == args.len() && operator_sql(std, dialect, name, args)->Ok_0.1 == (
        match annotated_strength(d.annotations@) {
            Some(s) => s,
            None => DEFAULT_STRENGTH,
        }),
{
}

// Checking a library

#[verifier::loop_isolation(false)]
fn check_template(items: &Vec<InterpolateItem>, keys: &Vec<String>) -> (r: bool)
    ensures
        r == template_ok(items@, views(keys@)),
{
    let mut i: usize = 0;
    while i < items.len()
        invariant
            i <= items.len(),
            forall|k: int|
                0 <= k < i ==> (#[trigger] items@[k] matches InterpolateItem::Expr { expr, .. }
                    ==> bound_arg(expr.kind, views(keys@), views(keys@).len()) is Some),
        decreases items.len() - i,
    {
        match &items[i] {
            InterpolateItem::Expr { expr, format: _ } => {
                if find_bound_arg(&expr.kind, keys, keys.len()).is_none() {
                    return false;
                }
            },
            InterpolateItem::String(_) => {},
        }
        i += 1;
    }
    true
}

fn check_func(f: &Func) -> (r: bool)
    ensures
        r == func_ok(*f),
{
    match &f.body.kind {
        ExprKind::Literal(Literal::Null) => true,
        ExprKind::SString(items) => {
            let keys = param_names(f);
            check_template(items, &keys)
        },
        _ => false,
    }
}

/// Whether the annotations of a declaration are well formed.
pub fn check_annotations(annotations: &Vec<Annotation>) -> (r: bool)
    ensures
        r == annotations_ok(annotations@),
{
    match find_strength_item(annotations) {
        Some(kind) => read_strength_value(kind).is_some(),
        None => true,
    }
}

fn check_decl(d: &Decl) -> (r: bool)
    ensures
        r == decl_ok(*d),
{
    match &d.kind {
        DeclKind::Expr(e) => match &e.kind {
            ExprKind::Func(f) => check_func(f) && check_annotations(&d.annotations),
            _ => true,
        },
        _ => true,
    }
}

#[verifier::loop_isolation(false)]
fn check_module(m: &Module) -> (r: bool)
    ensures
        r == module_ok(*m),
{
    let mut i: usize = 0;
    while i < m.names.len()
        invariant
            i <= m.names.len(),
            forall|k: int| 0 <= k < i ==> decl_ok(#[trigger] m.names@[k].1),
        decreases m.names.len() - i,
    {
        if !check_decl(&m.names[i].1) {
            return false;
        }
        i += 1;
    }
    true
}

/// Whether `std` can serve as a library of operators.
#[verifier::loop_isolation(false)]
pub fn check_library(std: &Module) -> (r: bool)
    ensures
        r == is_operator_library(*std),
{
    if !check_module(std) {
        return false;
    }
    let mut i: usize = 0;
    while i < std.names.len()
        invariant
            i <= std.names.len(),
            forall|k: int|
                0 <= k < i ==> ((#[trigger] std.names@[k]).1.kind matches DeclKind::Module(m)
                    ==> module_ok(m)),
        decreases std.names.len() - i,
    {
        match &std.names[i].1.kind {
            DeclKind::Module(m) => {
                if !check_module(m) {
                    return false;
                }
            },
            _ => {},
        }
        i += 1;
    }
    true
}

/// Takes the resolved definitions of the operators as the library to
/// translate with. `None` where a definition is not that of an
/// operator, so that nothing can be translated with it.
pub fn load_std_sql(root_mod: Module) -> (r: Option<OperatorLibrary>)
    ensures
        match r {
            Some(std) => is_operator_library(root_mod) && std.module() == root_mod,
            None => !is_operator_library(root_mod),
        },
{
    if check_library(&root_mod) {
        Some(OperatorLibrary { root: root_mod })
    } else {
        None
    }
}

} // verus!
