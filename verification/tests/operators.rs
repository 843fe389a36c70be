use prqlc::pr::expr::{Expr, ExprKind, Func, FuncParam, InterpolateItem, NamedParam};
use prqlc::pr::literal::Literal;
use prqlc::pr::span::Span;
use prqlc::pr::stmt::Annotation;
use prqlc::rq;
use prqlc::semantic::{Decl, DeclKind, Module};
use prqlc::sql::dialect::Dialect;
use prqlc::sql::error::Reason;
use prqlc::sql::operators::{
    check_annotations, check_library, find_operator_impl, load_std_sql, read_strength, translate_operand,
    translate_operator, translate_operator_expr, wrap_operand, Context, OperatorLibrary, Source,
};

fn text(s: &str) -> InterpolateItem {
    InterpolateItem::String(s.to_string())
}

fn param(name: &str) -> InterpolateItem {
    InterpolateItem::Expr {
        expr: Box::new(Expr::new(ExprKind::Ident(name.to_string()))),
        format: None,
    }
}

fn param_with(name: &str, format: &str) -> InterpolateItem {
    InterpolateItem::Expr {
        expr: Box::new(Expr::new(ExprKind::Ident(name.to_string()))),
        format: Some(format.to_string()),
    }
}

fn strength_annotation(value: ExprKind) -> Vec<Annotation> {
    let mut item = Expr::new(value);
    item.alias = Some("binding_strength".to_string());
    vec![Annotation { expr: Box::new(Expr::new(ExprKind::Tuple(vec![item]))) }]
}

fn operator(params: &[&str], body: ExprKind, strength: Option<i64>) -> Decl {
    let func = Func {
        return_ty: None,
        body: Box::new(Expr::new(body)),
        params: params.iter().map(|p| FuncParam { name: p.to_string(), ty: None }).collect(),
        named_params: vec![],
        generic_type_params: vec![],
    };
    Decl {
        kind: DeclKind::Expr(Box::new(Expr::new(ExprKind::Func(Box::new(func))))),
        annotations: match strength {
            Some(s) => strength_annotation(ExprKind::Literal(Literal::Integer(s))),
            None => vec![],
        },
    }
}

fn template(params: &[&str], items: Vec<InterpolateItem>, strength: Option<i64>) -> Decl {
    operator(params, ExprKind::SString(items), strength)
}

fn std_library() -> OperatorLibrary {
    load_std_sql(library()).unwrap()
}

fn library() -> Module {
    let mssql = Module {
        names: vec![
            (
                "concat".to_string(),
                template(
                    &["a", "b", "c"],
                    vec![param("a"), text(" + "), param("b"), text(" + "), param("c")],
                    Some(17),
                ),
            ),
            ("regex_search".to_string(), operator(&["text", "pattern"], ExprKind::Literal(Literal::Null), None)),
        ],
    };
    Module {
        names: vec![
            (
                "add".to_string(),
                template(&["l", "r"], vec![param("l"), text(" + "), param("r")], Some(17)),
            ),
            (
                "mul".to_string(),
                template(&["l", "r"], vec![param("l"), text(" * "), param("r")], Some(18)),
            ),
            (
                "sub".to_string(),
                template(
                    &["_param.l", "_param.r"],
                    vec![param("l"), text(" - "), param_with("r", "18")],
                    Some(17),
                ),
            ),
            (
                "concat".to_string(),
                template(
                    &["a", "b", "c"],
                    vec![text("CONCAT("), param("a"), text(", "), param("b"), text(", "), param("c"), text(")")],
                    None,
                ),
            ),
            (
                "regex_search".to_string(),
                template(
                    &["text", "pattern"],
                    vec![text("REGEXP("), param("text"), text(", "), param("pattern"), text(")")],
                    None,
                ),
            ),
            ("mssql".to_string(), Decl { kind: DeclKind::Module(mssql), annotations: vec![] }),
        ],
    }
}

fn column(name: &str) -> rq::Expr {
    rq::Expr::new(rq::ExprKind::Source { text: name.to_string(), binding_strength: 100 })
}

fn op(name: &str, args: Vec<rq::Expr>) -> rq::Expr {
    rq::Expr::new(rq::ExprKind::Operator { name: name.to_string(), args })
}

fn translate(
    std: &OperatorLibrary,
    dialect: Dialect,
    name: &str,
    args: Vec<rq::Expr>,
) -> (String, i32) {
    let ctx = Context { dialect_enum: dialect, std };
    translate_operator(name, &args, &ctx).unwrap()
}

#[test]
fn concat_per_dialect() {
    let std = std_library();
    let args = || vec![column("a"), column("b"), column("c")];
    assert_eq!(
        translate(&std, Dialect::MsSql, "std.concat", args()),
        ("a + b + c".to_string(), 17)
    );
    assert_eq!(
        translate(&std, Dialect::Generic, "std.concat", args()),
        ("CONCAT(a, b, c)".to_string(), 100)
    );
    assert_eq!(
        translate(&std, Dialect::Postgres, "std.concat", args()),
        ("CONCAT(a, b, c)".to_string(), 100)
    );
}

#[test]
fn nested_operators_and_strength() {
    let std = std_library();
    let inner = op("std.mul", vec![column("x"), column("y")]);
    assert_eq!(
        translate(&std, Dialect::Generic, "std.add", vec![inner, column("z")]),
        ("x * y + z".to_string(), 17)
    );
    let inner = op("std.add", vec![column("x"), column("y")]);
    assert_eq!(
        translate(&std, Dialect::Generic, "std.mul", vec![inner, column("z")]),
        ("(x + y) * z".to_string(), 18)
    );
}

#[test]
fn format_gives_required_strength() {
    let std = std_library();
    // the right operand of `sub` has to bind with 18, the left with 17
    let left = op("std.sub", vec![column("a"), column("b")]);
    let right = op("std.sub", vec![column("c"), column("d")]);
    assert_eq!(
        translate(&std, Dialect::Generic, "std.sub", vec![left, right]),
        ("a - b - (c - d)".to_string(), 17)
    );
}

#[test]
fn unknown_operator() {
    let std = std_library();
    let ctx = Context { dialect_enum: Dialect::Generic, std: &std };
    let error = translate_operator("std.nothing", &vec![], &ctx).unwrap_err();
    assert_eq!(error.reason, Reason::UnknownOperator);
    assert_eq!(error.operator, "std.nothing");
    assert_eq!(error.dialect, Dialect::Generic);
    assert_eq!(error.span, None);
    assert_eq!(error.message(), "unknown operator std.nothing");

    // a name outside the standard library names no operator
    let error = translate_operator("add", &vec![column("a"), column("b")], &ctx).unwrap_err();
    assert_eq!(error.reason, Reason::UnknownOperator);
    // the module of a dialect is no operator
    let error = translate_operator("std.mssql", &vec![], &ctx).unwrap_err();
    assert_eq!(error.reason, Reason::UnknownOperator);
}

#[test]
fn unsupported_in_dialect() {
    let std = std_library();
    let ctx = Context { dialect_enum: Dialect::MsSql, std: &std };
    let args = vec![column("a"), column("b")];
    let error = translate_operator("std.regex_search", &args, &ctx).unwrap_err();
    assert_eq!(error.reason, Reason::Unsupported);
    assert_eq!(
        error.message(),
        "operator std.regex_search not supported for dialect mssql"
    );
    let ctx = Context { dialect_enum: Dialect::SQLite, std: &std };
    assert_eq!(
        translate_operator("std.regex_search", &args, &ctx).unwrap(),
        ("REGEXP(a, b)".to_string(), 100)
    );
}

#[test]
fn wrong_number_of_arguments() {
    let std = std_library();
    let ctx = Context { dialect_enum: Dialect::Generic, std: &std };
    let error = translate_operator("std.add", &vec![column("a")], &ctx).unwrap_err();
    assert_eq!(error.reason, Reason::Arity);
    let args = vec![column("a"), column("b"), column("c")];
    let error = translate_operator("std.add", &args, &ctx).unwrap_err();
    assert_eq!(error.reason, Reason::Arity);
    assert_eq!(
        error.message(),
        "operator std.add called with a wrong number of arguments"
    );
}

#[test]
fn errors_carry_the_span_of_the_call() {
    let std = std_library();
    let ctx = Context { dialect_enum: Dialect::Generic, std: &std };
    let mut inner = op("std.nothing", vec![]);
    inner.span = Some(Span { start: 4, end: 9, source_id: 1 });
    let mut outer = op("std.add", vec![column("a"), inner]);
    outer.span = Some(Span { start: 0, end: 9, source_id: 1 });
    let error = translate_operator_expr(&outer, &ctx).unwrap_err();
    assert_eq!(error.reason, Reason::UnknownOperator);
    assert_eq!(error.span, Some(Span { start: 4, end: 9, source_id: 1 }));

    let mut outer = op("std.add", vec![column("a"), op("std.nothing", vec![])]);
    outer.span = Some(Span { start: 0, end: 9, source_id: 1 });
    let error = translate_operator_expr(&outer, &ctx).unwrap_err();
    assert_eq!(error.span, Some(Span { start: 0, end: 9, source_id: 1 }));
}

#[test]
fn operands_are_wrapped_by_strength() {
    let fragment = || Source { text: "a + b".to_string(), binding_strength: 17 };
    assert_eq!(wrap_operand(fragment(), 17, false), fragment());
    assert_eq!(wrap_operand(fragment(), 10, false), fragment());
    assert_eq!(
        wrap_operand(fragment(), 18, false),
        Source { text: "(a + b)".to_string(), binding_strength: 100 }
    );
    assert_eq!(
        wrap_operand(fragment(), 0, true),
        Source { text: "(a + b)".to_string(), binding_strength: 100 }
    );

    let std = std_library();
    let ctx = Context { dialect_enum: Dialect::Generic, std: &std };
    let call = op("std.add", vec![column("x"), column("y")]);
    assert_eq!(
        translate_operand(&call, 17, false, &ctx).unwrap(),
        Source { text: "x + y".to_string(), binding_strength: 17 }
    );
    assert_eq!(
        translate_operand(&call, 18, false, &ctx).unwrap(),
        Source { text: "(x + y)".to_string(), binding_strength: 100 }
    );
}

#[test]
fn finds_dialect_before_library() {
    let std = std_library();
    let (func, strength) = find_operator_impl(&std, "std.concat", Dialect::MsSql).unwrap();
    assert_eq!(func.params.len(), 3);
    assert_eq!(strength, Some(17));
    let (_, strength) = find_operator_impl(&std, "std.concat", Dialect::Generic).unwrap();
    assert_eq!(strength, None);
    let (_, strength) = find_operator_impl(&std, "std.mul", Dialect::MsSql).unwrap();
    assert_eq!(strength, Some(18));
    assert!(find_operator_impl(&std, "std.div", Dialect::MsSql).is_none());
}

#[test]
fn reads_strength_from_annotations() {
    assert_eq!(read_strength(&vec![]), None);
    let integer = |i| ExprKind::Literal(Literal::Integer(i));
    assert_eq!(read_strength(&strength_annotation(integer(-3))), Some(-3));
    assert_eq!(read_strength(&strength_annotation(integer(i32::MAX as i64))), Some(i32::MAX));
    // two annotations
    let mut two = strength_annotation(integer(5));
    two.extend(strength_annotation(integer(5)));
    assert_eq!(read_strength(&two), None);
    // not a tuple
    let plain = vec![Annotation { expr: Box::new(Expr::new(integer(5))) }];
    assert_eq!(read_strength(&plain), None);
    // an item without a name
    let mut named = Expr::new(integer(5));
    named.alias = Some("binding_strength".to_string());
    let tuple = Expr::new(ExprKind::Tuple(vec![Expr::new(integer(1)), named]));
    assert_eq!(read_strength(&vec![Annotation { expr: Box::new(tuple) }]), None);
    // the first item of that name counts
    let mut other = Expr::new(integer(1));
    other.alias = Some("other".to_string());
    let mut first = Expr::new(integer(7));
    first.alias = Some("binding_strength".to_string());
    let mut second = Expr::new(integer(8));
    second.alias = Some("binding_strength".to_string());
    let tuple = Expr::new(ExprKind::Tuple(vec![other, first, second]));
    assert_eq!(read_strength(&vec![Annotation { expr: Box::new(tuple) }]), Some(7));
}

#[test]
fn strength_has_to_be_a_whole_number() {
    let integer = |i| ExprKind::Literal(Literal::Integer(i));
    assert!(check_annotations(&vec![]));
    assert!(check_annotations(&strength_annotation(integer(18))));
    assert!(check_annotations(&strength_annotation(integer(i32::MIN as i64))));
    // a strength that is no whole number, or does not fit
    assert!(!check_annotations(&strength_annotation(ExprKind::Literal(Literal::Null))));
    assert!(!check_annotations(&strength_annotation(ExprKind::Literal(Literal::Float(
        "1.5".to_string()
    )))));
    assert!(!check_annotations(&strength_annotation(ExprKind::Ident("strong".to_string()))));
    assert!(!check_annotations(&strength_annotation(integer(1 << 40))));
    // annotations that name no strength are none of its business
    let plain = vec![Annotation { expr: Box::new(Expr::new(ExprKind::Literal(Literal::Null))) }];
    assert!(check_annotations(&plain));

    // a library with such a definition is not taken
    let mut bad = template(&["x"], vec![param("x")], None);
    bad.annotations = strength_annotation(ExprKind::Literal(Literal::String("18".to_string())));
    assert!(load_std_sql(Module { names: vec![("bad".to_string(), bad)] }).is_none());
}

#[test]
fn named_parameters_are_bound_first() {
    let func = Func {
        return_ty: None,
        body: Box::new(Expr::new(ExprKind::SString(vec![
            text("F("),
            param("x"),
            text(", "),
            param("n"),
            text(")"),
        ]))),
        params: vec![FuncParam { name: "x".to_string(), ty: None }],
        named_params: vec![NamedParam {
            name: "n".to_string(),
            ty: None,
            default_value: Expr::new(ExprKind::Literal(Literal::Integer(0))),
        }],
        generic_type_params: vec![],
    };
    let decl = Decl {
        kind: DeclKind::Expr(Box::new(Expr::new(ExprKind::Func(Box::new(func))))),
        annotations: vec![],
    };
    let std = load_std_sql(Module { names: vec![("f".to_string(), decl)] }).unwrap();
    assert_eq!(
        translate(&std, Dialect::Generic, "std.f", vec![column("first"), column("second")]),
        ("F(second, first)".to_string(), 100)
    );
}

#[test]
fn later_declaration_counts() {
    let std = load_std_sql(Module {
        names: vec![
            ("neg".to_string(), template(&["x"], vec![text("NEG("), param("x"), text(")")], None)),
            ("neg".to_string(), template(&["x"], vec![text("-"), param("x")], Some(20))),
        ],
    })
    .unwrap();
    assert_eq!(
        translate(&std, Dialect::Generic, "std.neg", vec![column("a")]),
        ("-a".to_string(), 20)
    );
}

#[test]
fn library_is_checked_when_loaded() {
    assert!(check_library(&library()));
    assert_eq!(load_std_sql(library()).unwrap().root(), &library());
    assert!(load_std_sql(Module::new()).is_some());

    // the body is neither a template nor null
    let bad = operator(&["x"], ExprKind::Literal(Literal::Integer(1)), None);
    assert!(load_std_sql(Module { names: vec![("bad".to_string(), bad)] }).is_none());

    // the template names what is no parameter
    let bad = template(&["x"], vec![param("y")], None);
    assert!(load_std_sql(Module { names: vec![("bad".to_string(), bad)] }).is_none());

    // the template holds something else than a name
    let item = InterpolateItem::Expr {
        expr: Box::new(Expr::new(ExprKind::Literal(Literal::Integer(1)))),
        format: None,
    };
    let bad = template(&["x"], vec![item], None);
    assert!(load_std_sql(Module { names: vec![("bad".to_string(), bad)] }).is_none());

    // the strength is no whole number
    let mut bad = template(&["x"], vec![param("x")], None);
    bad.annotations = strength_annotation(ExprKind::Literal(Literal::Boolean(true)));
    assert!(load_std_sql(Module { names: vec![("bad".to_string(), bad)] }).is_none());

    // a bad definition inside the module of a dialect
    let bad = template(&["x"], vec![param("y")], None);
    let dialect = Module { names: vec![("bad".to_string(), bad)] };
    let std = Module {
        names: vec![("mssql".to_string(), Decl { kind: DeclKind::Module(dialect), annotations: vec![] })],
    };
    assert!(load_std_sql(std).is_none());
}
