use prqlc::codegen::ast::write_expr;
use prqlc::codegen::ident::write_ident_part;
use prqlc::codegen::options::WriteOpt;
use prqlc::codegen::stmt::write_stmts;
use prqlc::pr::expr::{
    BinaryExpr, Expr, ExprKind, Func, FuncCall, FuncParam, GenericTypeParam, IndirectionKind,
    InterpolateItem, NamedParam, Pipeline, Range, SwitchCase, UnaryExpr,
};
use prqlc::pr::ident::Ident;
use prqlc::pr::literal::Literal;
use prqlc::pr::ops::{BinOp, UnOp};
use prqlc::pr::stmt::{
    Annotation, ImportDef, ModuleDef, QueryDef, Stmt, StmtKind, TypeDef, VarDef, VarDefKind,
};
use prqlc::pr::types::Ty;

fn ident(name: &str) -> Expr {
    Expr::new(ExprKind::Ident(name.to_string()))
}

fn integer(i: i64) -> Expr {
    Expr::new(ExprKind::Literal(Literal::Integer(i)))
}

fn boolean(b: bool) -> Expr {
    Expr::new(ExprKind::Literal(Literal::Boolean(b)))
}

fn binary(left: Expr, op: BinOp, right: Expr) -> Expr {
    Expr::new(ExprKind::Binary(BinaryExpr { left: Box::new(left), op, right: Box::new(right) }))
}

fn unary(op: UnOp, expr: Expr) -> Expr {
    Expr::new(ExprKind::Unary(UnaryExpr { op, expr: Box::new(expr) }))
}

fn call(name: Expr, args: Vec<Expr>) -> Expr {
    Expr::new(ExprKind::FuncCall(FuncCall { name: Box::new(name), args, named_args: vec![] }))
}

fn tuple(fields: Vec<Expr>) -> Expr {
    Expr::new(ExprKind::Tuple(fields))
}

fn range(start: Option<Expr>, end: Option<Expr>) -> Expr {
    Expr::new(ExprKind::Range(Range { start: start.map(Box::new), end: end.map(Box::new) }))
}

fn aliased(alias: &str, mut expr: Expr) -> Expr {
    expr.alias = Some(alias.to_string());
    expr
}

fn var_def(kind: VarDefKind, name: &str, value: Option<Expr>, ty: Option<Ty>) -> Stmt {
    Stmt::new(StmtKind::VarDef(VarDef {
        kind,
        name: name.to_string(),
        value: value.map(Box::new),
        ty,
    }))
}

fn let_def(name: &str, value: Expr) -> Stmt {
    var_def(VarDefKind::Let, name, Some(value), None)
}

fn main_def(value: Expr) -> Stmt {
    var_def(VarDefKind::Main, "main", Some(value), None)
}

fn format_single_stmt(stmt: &Stmt) -> String {
    stmt.write(WriteOpt::default()).unwrap()
}

fn assert_is_formatted(input: &str, stmt: &Stmt) {
    let formatted = format_single_stmt(stmt);
    assert_eq!(input.trim(), formatted.trim());
}

#[test]
fn test_pipeline() {
    let short = || Expr::new(ExprKind::Ident("short".to_string()));
    let long = || Expr::new(ExprKind::Ident("some_really_long_and_really_long_name".to_string()));

    let mut opt = WriteOpt { indent: 1, ..Default::default() };

    // short pipelines should be inlined
    let pipeline = Expr::new(ExprKind::Pipeline(Pipeline { exprs: vec![short(), short(), short()] }));
    assert_eq!(pipeline.write(opt.clone()).unwrap(), "(short | short | short)");

    // long pipelines should be indented
    let pipeline =
        Expr::new(ExprKind::Pipeline(Pipeline { exprs: vec![short(), long(), long(), short()] }));
    assert_eq!(
        pipeline.write(opt.clone()).unwrap(),
        "(\n    short\n    some_really_long_and_really_long_name\n    some_really_long_and_really_long_name\n    short\n  )"
    );

    // sometimes, there is just not enough space
    opt.rem_width = 4;
    opt.indent = 100;
    let pipeline = Expr::new(ExprKind::Pipeline(Pipeline { exprs: vec![short()] }));
    assert!(pipeline.write(opt).is_none());
}

#[test]
fn test_escaped_string() {
    let stmt = main_def(call(
        ident("filter"),
        vec![binary(
            ident("name"),
            BinOp::RegexSearch,
            Expr::new(ExprKind::Literal(Literal::String(
                "\\(I Can't Help\\) Falling".to_string(),
            ))),
        )],
    ));
    assert_is_formatted(r#"filter name ~= "\\(I Can't Help\\) Falling""#, &stmt);
}

#[test]
fn test_double_braces() {
    let stmt = let_def(
        "has_valid_title",
        Expr::new(ExprKind::SString(vec![InterpolateItem::String(
            "regexp_contains(title, '([a-z0-9]*-){2,}')".to_string(),
        )])),
    );
    assert_is_formatted(
        r#"let has_valid_title = s"regexp_contains(title, '([a-z0-9]*-){{2,}}')""#,
        &stmt,
    );
}

#[test]
fn test_unary() {
    let stmt = main_def(call(ident("sort"), vec![tuple(vec![unary(UnOp::Neg, ident("duration"))])]));
    assert_is_formatted(r#"sort {-duration}"#, &stmt);

    let stmt = main_def(call(ident("select"), vec![aliased("a", unary(UnOp::Neg, ident("b")))]));
    assert_is_formatted(r#"select a = -b"#, &stmt);

    let stmt = main_def(call(
        ident("join"),
        vec![ident("project-bar.dataset.table"), unary(UnOp::EqSelf, ident("col_bax"))],
    ));
    assert_is_formatted(r#"join `project-bar.dataset.table` (==col_bax)"#, &stmt);
}

#[test]
fn test_binary() {
    // `and` is a plain name, so the whole comparison is called with it
    let stmt = let_def(
        "a",
        call(
            binary(
                binary(integer(5), BinOp::Mul, binary(integer(4), BinOp::Add, integer(3))),
                BinOp::Coalesce,
                binary(
                    binary(binary(integer(5), BinOp::DivFloat, integer(2)), BinOp::DivInt, integer(2)),
                    BinOp::Eq,
                    integer(1),
                ),
            ),
            vec![ident("and"), boolean(true)],
        ),
    );
    assert_is_formatted(r#"let a = 5 * (4 + 3) ?? 5 / 2 // 2 == 1 and true"#, &stmt);

    let stmt = let_def(
        "a",
        binary(binary(integer(5), BinOp::DivFloat, integer(2)), BinOp::DivFloat, integer(2)),
    );
    assert_is_formatted(r#"let a = 5 / 2 / 2"#, &stmt);

    let stmt = let_def(
        "a",
        binary(integer(5), BinOp::DivFloat, binary(integer(2), BinOp::DivFloat, integer(2))),
    );
    assert_is_formatted(r#"let a = 5 / (2 / 2)"#, &stmt);
}

#[test]
fn test_func() {
    let func = Func {
        return_ty: None,
        body: Box::new(call(ident("x"), vec![ident("and"), ident("y")])),
        params: vec![FuncParam { name: "x".to_string(), ty: None }],
        named_params: vec![NamedParam {
            name: "y".to_string(),
            ty: None,
            default_value: boolean(false),
        }],
        generic_type_params: vec![],
    };
    let stmt = let_def("a", Expr::new(ExprKind::Func(Box::new(func))));
    assert_is_formatted(r#"let a = func x y:false -> x and y"#, &stmt);
}

#[test]
fn test_simple() {
    let stmt = main_def(call(
        ident("aggregate"),
        vec![aliased("average_country_salary", call(ident("average"), vec![ident("salary")]))],
    ));
    assert_is_formatted(
        r#"
aggregate average_country_salary = (
  average salary
)"#,
        &stmt,
    );
}

#[test]
fn test_assign() {
    let stmt = main_def(call(
        ident("group"),
        vec![
            tuple(vec![ident("title"), ident("country")]),
            call(
                ident("aggregate"),
                vec![tuple(vec![
                    call(ident("average"), vec![ident("salary")]),
                    call(ident("average"), vec![ident("gross_salary")]),
                    call(ident("sum"), vec![ident("salary")]),
                    call(ident("sum"), vec![ident("gross_salary")]),
                    call(ident("average"), vec![ident("gross_cost")]),
                    aliased("sum_gross_cost", call(ident("sum"), vec![ident("gross_cost")])),
                    aliased("ct", call(ident("count"), vec![ident("salary")])),
                ])],
            ),
        ],
    ));
    assert_is_formatted(
        r#"
group {title, country} (aggregate {
  average salary,
  average gross_salary,
  sum salary,
  sum gross_salary,
  average gross_cost,
  sum_gross_cost = sum gross_cost,
  ct = count salary,
})"#,
        &stmt,
    );
}

#[test]
fn test_range() {
    let stmt = let_def("negative", range(Some(unary(UnOp::Neg, integer(100))), Some(integer(0))));
    assert_is_formatted(
        r#"
let negative = -100..0
"#,
        &stmt,
    );

    let stmt = let_def("negative", unary(UnOp::Neg, range(Some(integer(100)), Some(integer(0)))));
    assert_is_formatted(
        r#"
let negative = -(100..0)
"#,
        &stmt,
    );

    let stmt = let_def("negative", range(Some(unary(UnOp::Neg, integer(100))), None));
    assert_is_formatted(
        r#"
let negative = -100..
"#,
        &stmt,
    );

    let stmt = let_def("negative", range(None, Some(unary(UnOp::Neg, integer(100)))));
    assert_is_formatted(
        r#"
let negative = ..-100
"#,
        &stmt,
    );
}

#[test]
fn test_annotation() {
    let mut stmt = Stmt::new(StmtKind::ModuleDef(ModuleDef {
        name: "hello".to_string(),
        stmts: vec![],
    }));
    stmt.annotations = vec![Annotation { expr: Box::new(ident("deprecated")) }];
    assert_is_formatted(
        r#"
@deprecated
module hello {
}
"#,
        &stmt,
    );
}

#[test]
fn test_var_def() {
    let stmt = var_def(VarDefKind::Let, "a", None, None);
    assert_is_formatted(
        r#"
let a
"#,
        &stmt,
    );

    let named_ty = Ty::new(Ident::from_name("int".to_string()));
    let stmt = var_def(VarDefKind::Let, "a", None, Some(named_ty));
    assert_is_formatted(
        r#"
let a <int>
"#,
        &stmt,
    );

    let stmt = let_def("a", integer(5));
    assert_is_formatted(
        r#"
let a = 5
"#,
        &stmt,
    );

    let stmt = var_def(VarDefKind::Into, "a", Some(integer(5)), None);
    assert_is_formatted(
        r#"
5
into a
"#,
        &stmt,
    );
}

#[test]
fn test_query_def() {
    let stmt = Stmt::new(StmtKind::QueryDef(Box::new(QueryDef {
        version: Some("^0.9".to_string()),
        other: vec![("target".to_string(), "sql.sqlite".to_string())],
    })));
    assert_is_formatted(
        r#"
prql version:"^0.9" target:sql.sqlite
"#,
        &stmt,
    );
}

#[test]
fn empty_tuple_and_array() {
    assert_eq!(write_expr(&tuple(vec![])), "{}");
    assert_eq!(write_expr(&Expr::new(ExprKind::Array(vec![]))), "[]");
}

#[test]
fn range_without_sides() {
    assert_eq!(write_expr(&range(None, None)), "..");
}

#[test]
fn braces_in_s_string_are_doubled() {
    let expr = Expr::new(ExprKind::SString(vec![
        InterpolateItem::String("a{b}".to_string()),
        InterpolateItem::Expr { expr: Box::new(ident("x")), format: None },
        InterpolateItem::String("}".to_string()),
    ]));
    assert_eq!(write_expr(&expr), "s\"a{{b}}{x}}}\"");
    let expr = Expr::new(ExprKind::FString(vec![InterpolateItem::String("{".to_string())]));
    assert_eq!(write_expr(&expr), "f\"{{\"");
}

#[test]
fn keywords_are_backticked() {
    for keyword in ["let", "into", "case", "prql", "type", "module", "internal", "func"] {
        assert_eq!(write_ident_part(keyword), format!("`{}`", keyword));
    }
}

#[test]
fn ident_parts() {
    assert_eq!(write_ident_part("*"), "*");
    assert_eq!(write_ident_part("a_b$1"), "a_b$1");
    assert_eq!(write_ident_part("_x"), "_x");
    assert_eq!(write_ident_part("$x"), "$x");
    assert_eq!(write_ident_part("1a"), "`1a`");
    assert_eq!(write_ident_part(""), "``");
    assert_eq!(write_ident_part("**"), "`**`");
    assert_eq!(write_ident_part("a b"), "`a b`");
    assert_eq!(write_ident_part("a\n"), "`a\n`");
    assert_eq!(write_ident_part("lets"), "lets");
    assert_eq!(write_ident_part("é"), "`é`");
    assert_eq!(write_ident_part("a`b"), "`a`b`");
}

#[test]
fn indirection_fields() {
    let name = Expr::new(ExprKind::Indirection {
        base: Box::new(ident("a")),
        field: IndirectionKind::Name("b c".to_string()),
    });
    assert_eq!(write_expr(&name), "a.`b c`");
    let position = Expr::new(ExprKind::Indirection {
        base: Box::new(ident("a")),
        field: IndirectionKind::Position(-12),
    });
    assert_eq!(write_expr(&position), "a.-12");
    let star = Expr::new(ExprKind::Indirection {
        base: Box::new(ident("a")),
        field: IndirectionKind::Star,
    });
    assert_eq!(write_expr(&star), "a.*");
}

#[test]
fn case_and_params() {
    let case = Expr::new(ExprKind::Case(vec![
        SwitchCase { condition: Box::new(ident("a")), value: Box::new(integer(1)) },
        SwitchCase { condition: Box::new(boolean(true)), value: Box::new(integer(2)) },
    ]));
    assert_eq!(write_expr(&case), "case [a => 1, true => 2]");
    assert_eq!(write_expr(&Expr::new(ExprKind::Param("1".to_string()))), "$1");
    assert_eq!(
        write_expr(&Expr::new(ExprKind::Internal("std.add".to_string()))),
        "internal std.add"
    );
}

#[test]
fn equal_strength_and_sides() {
    // comparisons group to neither side
    let chain = binary(binary(ident("a"), BinOp::Eq, ident("b")), BinOp::Eq, ident("c"));
    assert_eq!(write_expr(&chain), "(a == b) == c");
    // subtraction groups to the left
    let left = binary(binary(ident("a"), BinOp::Sub, ident("b")), BinOp::Sub, ident("c"));
    assert_eq!(write_expr(&left), "a - b - c");
    let right = binary(ident("a"), BinOp::Sub, binary(ident("b"), BinOp::Sub, ident("c")));
    assert_eq!(write_expr(&right), "a - (b - c)");
    // powers group to the right
    let power = binary(ident("a"), BinOp::Pow, binary(ident("b"), BinOp::Pow, ident("c")));
    assert_eq!(write_expr(&power), "a ** b ** c");
    let power = binary(binary(ident("a"), BinOp::Pow, ident("b")), BinOp::Pow, ident("c"));
    assert_eq!(write_expr(&power), "(a ** b) ** c");
}

#[test]
fn statements_widen_their_lines() {
    let long = "some really long and really long text that goes on and on";
    let value = || Expr::new(ExprKind::Literal(Literal::String(long.to_string())));
    let stmt = let_def("a", value());
    assert_eq!(stmt.write(WriteOpt::default()), None);
    assert_eq!(stmt.write(WriteOpt::new_width(66)), None);
    assert_eq!(
        stmt.write(WriteOpt::new_width(67)).unwrap(),
        format!("let a = \"{}\"\n", long)
    );
    assert_eq!(
        stmt.write_or_expand(WriteOpt::default()).unwrap(),
        format!("let a = \"{}\"\n", long)
    );
    // lines of one byte cannot be made wider
    assert_eq!(stmt.write_or_expand(WriteOpt::new_width(1)), None);
    assert_eq!(stmt.write_or_expand(WriteOpt::new_width(0)), None);
    // a name is written whatever room is left
    let stmt = let_def("a", ident("some_really_long_and_really_long_name_that_goes_on_and_on"));
    assert!(stmt.write(WriteOpt::new_width(10)).is_some());
}

#[test]
fn statements_are_set_apart() {
    let stmts = vec![
        let_def("a", integer(1)),
        Stmt::new(StmtKind::TypeDef(TypeDef {
            name: "t".to_string(),
            value: Some(Ty::new(Ident::from_name("int".to_string()))),
        })),
        Stmt::new(StmtKind::ImportDef(ImportDef {
            alias: Some("m".to_string()),
            name: Ident { path: vec!["a".to_string()], name: "b".to_string() },
        })),
        Stmt::new(StmtKind::ModuleDef(ModuleDef {
            name: "inner".to_string(),
            stmts: vec![let_def("b", integer(2)), main_def(call(ident("from"), vec![ident("x")]))],
        })),
        var_def(VarDefKind::Main, "main", Some(Expr::new(ExprKind::Pipeline(Pipeline {
            exprs: vec![call(ident("from"), vec![ident("x")]), call(ident("take"), vec![integer(5)])],
        }))), None),
    ];
    assert_eq!(
        write_stmts(&stmts, WriteOpt::default()).unwrap(),
        "let a = 1\n\ntype t = int\n\nimport m = a.b\n\nmodule inner {\n  let b = 2\n\n  from x\n}\n\nfrom x\ntake 5\n"
    );
    assert_eq!(write_stmts(&vec![], WriteOpt::default()).unwrap(), "");
}

#[test]
fn function_literal_with_types() {
    let ty = |name: &str| Ty::new(Ident::from_name(name.to_string()));
    let func = Func {
        return_ty: Some(ty("bool")),
        body: Box::new(ident("x")),
        params: vec![FuncParam { name: "x".to_string(), ty: Some(ty("T")) }],
        named_params: vec![],
        generic_type_params: vec![GenericTypeParam {
            name: "T".to_string(),
            domain: vec![ty("int"), ty("float")],
        }],
    };
    assert_eq!(
        write_expr(&Expr::new(ExprKind::Func(Box::new(func)))),
        "func <T: int | float> x <T> -> <bool> x"
    );
}

#[test]
fn named_arguments_come_first() {
    let call = Expr::new(ExprKind::FuncCall(FuncCall {
        name: Box::new(ident("f")),
        args: vec![ident("a"), unary(UnOp::Neg, ident("b"))],
        named_args: vec![("n".to_string(), integer(1))],
    }));
    assert_eq!(write_expr(&call), "f n:1 a (-b)");
}

#[test]
fn lists_break_into_lines() {
    let list = || vec![ident("aaaaaaaaaa"), ident("bbbbbbbbbb")];
    assert_eq!(
        tuple(list()).write(WriteOpt::new_width(24)).unwrap(),
        "{aaaaaaaaaa, bbbbbbbbbb}"
    );
    // the items fit, the closing bracket does not: the caller has to
    // make room
    assert_eq!(tuple(list()).write(WriteOpt::new_width(23)), None);
    assert_eq!(
        tuple(list()).write(WriteOpt::new_width(22)).unwrap(),
        "{\n  aaaaaaaaaa,\n  bbbbbbbbbb,\n}"
    );
    assert_eq!(
        Expr::new(ExprKind::Array(list())).write(WriteOpt::new_width(20)).unwrap(),
        "[\n  aaaaaaaaaa,\n  bbbbbbbbbb,\n]"
    );
    // no room for the opening bracket
    assert_eq!(tuple(list()).write(WriteOpt::new_width(0)), None);
    // a list that holds a broken list is broken itself
    let nested = tuple(vec![ident("x"), tuple(list())]);
    assert_eq!(
        nested.write(WriteOpt::new_width(23)).unwrap(),
        "{\n  x,\n  {\n    aaaaaaaaaa,\n    bbbbbbbbbb,\n  },\n}"
    );
    // the indentation cannot go deeper
    let opt = WriteOpt { indent: u16::MAX, ..WriteOpt::new_width(20) };
    assert_eq!(tuple(list()).write(opt), None);
}

#[test]
fn cases_break_into_lines() {
    let case = Expr::new(ExprKind::Case(vec![
        SwitchCase { condition: Box::new(ident("aaaaaaaaaa")), value: Box::new(integer(1)) },
        SwitchCase { condition: Box::new(boolean(true)), value: Box::new(integer(2)) },
    ]));
    assert_eq!(
        case.write(WriteOpt::new_width(12)).unwrap(),
        "case [\n  aaaaaaaaaa => 1,\n  true => 2,\n]"
    );
}

#[test]
fn function_body_breaks_into_lines() {
    let text = "abcdefghijklmnopqrstuvwx";
    let func = || {
        Expr::new(ExprKind::Func(Box::new(Func {
            return_ty: None,
            body: Box::new(Expr::new(ExprKind::Literal(Literal::String(text.to_string())))),
            params: vec![FuncParam { name: "x".to_string(), ty: None }],
            named_params: vec![],
            generic_type_params: vec![],
        })))
    };
    assert_eq!(
        func().write(WriteOpt::new_width(31)).unwrap(),
        format!("func x -> \"{}\"", text)
    );
    assert_eq!(
        func().write(WriteOpt::new_width(30)).unwrap(),
        format!("func x -> (\n  \"{}\"\n)", text)
    );
    assert_eq!(func().write(WriteOpt::new_width(27)), None);
}

#[test]
fn alias_takes_room() {
    let expr = aliased("average_country_salary", integer(1));
    assert_eq!(expr.write(WriteOpt::new_width(26)).unwrap(), "average_country_salary = 1");
    assert_eq!(expr.write(WriteOpt::new_width(25)), None);
}

#[test]
fn annotations_start_fresh_lines() {
    let mut stmt = let_def("a", integer(1));
    stmt.annotations = vec![
        Annotation { expr: Box::new(tuple(vec![aliased("binding_strength", integer(11))])) },
        Annotation { expr: Box::new(ident("deprecated")) },
    ];
    assert_eq!(
        stmt.write(WriteOpt::default()).unwrap(),
        "@{binding_strength = 11}\n@deprecated\nlet a = 1\n"
    );
    let module = Stmt::new(StmtKind::ModuleDef(ModuleDef { name: "m".to_string(), stmts: vec![stmt] }));
    assert_eq!(
        module.write(WriteOpt::default()).unwrap(),
        "module m {\n  @{binding_strength = 11}\n  @deprecated\n  let a = 1\n}\n"
    );
}

#[test]
fn operands_of_ranges_and_unaries() {
    // a range is weaker than a unary and as strong as a power
    let expr = range(Some(binary(ident("a"), BinOp::Add, ident("b"))), Some(ident("c")));
    assert_eq!(write_expr(&expr), "(a + b)..c");
    let expr = unary(UnOp::Not, unary(UnOp::Not, ident("a")));
    assert_eq!(write_expr(&expr), "!(!a)");
    let expr = unary(UnOp::Neg, binary(ident("a"), BinOp::Mul, ident("b")));
    assert_eq!(write_expr(&expr), "-(a * b)");
    let expr = binary(unary(UnOp::Neg, ident("a")), BinOp::Mul, ident("b"));
    assert_eq!(write_expr(&expr), "-a * b");
    // a call is weaker than any operator
    let expr = binary(call(ident("f"), vec![ident("x")]), BinOp::Or, ident("b"));
    assert_eq!(write_expr(&expr), "(f x) || b");
    let expr = call(ident("f"), vec![call(ident("g"), vec![ident("x")])]);
    assert_eq!(write_expr(&expr), "f (g x)");
}

#[test]
fn room_does_not_change_a_line() {
    // whatever room there is, what comes out on one line is the same text
    let expr = || {
        call(
            ident("derive"),
            vec![tuple(vec![
                aliased("x", binary(ident("a"), BinOp::Mul, binary(ident("b"), BinOp::Add, integer(1)))),
                unary(UnOp::Neg, ident("c")),
            ])],
        )
    };
    let text = "derive {x = a * (b + 1), -c}";
    for width in [28, 29, 50, 1000, u16::MAX] {
        assert_eq!(expr().write(WriteOpt::new_width(width)).unwrap(), text);
    }
    assert_eq!(expr().write(WriteOpt::new_width(27)), None);
    // with less room the list is broken, and the text is another
    let narrow = expr().write(WriteOpt::new_width(26)).unwrap();
    assert_eq!(narrow, "derive {\n  x = a * (b + 1),\n  -c,\n}");
}
