use prqlc::codegen::options::WriteOpt;
use prqlc::codegen::precedence::{associativity, binding_strength, can_bind_left, Position};
use prqlc::pr::expr::{BinaryExpr, Expr, ExprKind, Func, FuncCall, Range, UnaryExpr};
use prqlc::pr::ident::Ident;
use prqlc::pr::literal::Literal;
use prqlc::pr::ops::{BinOp, UnOp};
use prqlc::text::{
    double_braces, i64_to_string, parse_i32, quote_string, reverse_vec, str_eq,
    str_has_line_break, str_last_segment, str_line_width, str_width,
};

fn ident(name: &str) -> Expr {
    Expr::new(ExprKind::Ident(name.to_string()))
}

fn binary_kind(op: BinOp) -> ExprKind {
    ExprKind::Binary(BinaryExpr { left: Box::new(ident("a")), op, right: Box::new(ident("b")) })
}

#[test]
fn widths() {
    assert_eq!(str_width(""), 0);
    assert_eq!(str_width("abc"), 3);
    assert_eq!(str_width("é"), 2);
    assert_eq!(str_line_width("abc"), 3);
    assert_eq!(str_line_width("ab\ncd"), 3);
    assert_eq!(str_line_width("ab\n"), 1);
    assert_eq!(str_line_width("a\nb\ncdef"), 5);
    assert!(str_has_line_break("a\nb"));
    assert!(!str_has_line_break("ab"));
    assert!(str_eq("ab", "ab"));
    assert!(!str_eq("ab", "ac"));
    assert!(!str_eq("ab", "abc"));
}

#[test]
fn integers_in_base_ten() {
    assert_eq!(i64_to_string(0), "0");
    assert_eq!(i64_to_string(7), "7");
    assert_eq!(i64_to_string(-100), "-100");
    assert_eq!(i64_to_string(1234567890), "1234567890");
    assert_eq!(i64_to_string(i64::MAX), "9223372036854775807");
    assert_eq!(i64_to_string(i64::MIN), "-9223372036854775808");
}

#[test]
fn integers_are_read() {
    assert_eq!(parse_i32("20"), Some(20));
    assert_eq!(parse_i32("-7"), Some(-7));
    assert_eq!(parse_i32("+7"), Some(7));
    assert_eq!(parse_i32("007"), Some(7));
    assert_eq!(parse_i32("2147483647"), Some(i32::MAX));
    assert_eq!(parse_i32("-2147483648"), Some(i32::MIN));
    assert_eq!(parse_i32("2147483648"), None);
    assert_eq!(parse_i32("-2147483649"), None);
    assert_eq!(parse_i32("99999999999999999999999"), None);
    assert_eq!(parse_i32(""), None);
    assert_eq!(parse_i32("-"), None);
    assert_eq!(parse_i32("+"), None);
    assert_eq!(parse_i32(" 1"), None);
    assert_eq!(parse_i32("1 "), None);
    assert_eq!(parse_i32("1-"), None);
    assert_eq!(parse_i32("--1"), None);
    assert_eq!(parse_i32("1a"), None);
    assert_eq!(parse_i32("٣"), None);
    for s in ["20", "-7", "+7", "007", "2147483648", "", "-", "1a", " 1"] {
        assert_eq!(parse_i32(s), s.parse::<i32>().ok());
    }
}

#[test]
fn strings_are_quoted() {
    assert_eq!(quote_string("abc"), "\"abc\"");
    assert_eq!(quote_string("a\"b"), "\"a\\\"b\"");
    assert_eq!(quote_string("a\\b"), "\"a\\\\b\"");
    assert_eq!(quote_string("a\nb\tc\rd"), "\"a\\nb\\tc\\rd\"");
    assert_eq!(quote_string("it's"), "\"it's\"");
    assert_eq!(double_braces("{a}"), "{{a}}");
    assert_eq!(double_braces("plain"), "plain");
    assert_eq!(str_last_segment("_param.l"), "l");
    assert_eq!(str_last_segment("a.b.c"), "c");
    assert_eq!(str_last_segment("plain"), "plain");
    assert_eq!(str_last_segment("a."), "");
    assert_eq!(reverse_vec(vec![1, 2, 3]), vec![3, 2, 1]);
    assert_eq!(reverse_vec(Vec::<u8>::new()), Vec::<u8>::new());
}

#[test]
fn literals_as_text() {
    assert_eq!(Literal::Null.to_text(), "null");
    assert_eq!(Literal::Integer(-5).to_text(), "-5");
    assert_eq!(Literal::Float("1.5".to_string()).to_text(), "1.5");
    assert_eq!(Literal::Boolean(true).to_text(), "true");
    assert_eq!(Literal::Boolean(false).to_text(), "false");
    assert_eq!(Literal::String("a".to_string()).to_text(), "\"a\"");
    assert_eq!(Literal::RawString("a\\b".to_string()).to_text(), "r\"a\\b\"");
    assert_eq!(Literal::Date("2020-01-01".to_string()).to_text(), "@2020-01-01");
    assert_eq!(Literal::Time("10:00".to_string()).to_text(), "@10:00");
    assert_eq!(Literal::Timestamp("2020-01-01T10:00".to_string()).to_text(), "@2020-01-01T10:00");
    assert_eq!(Literal::ValueAndUnit { n: 3, unit: "days".to_string() }.to_text(), "3days");
}

#[test]
fn strengths_and_sides() {
    let strengths = [
        (BinOp::Pow, 19, Position::Right),
        (BinOp::Mul, 18, Position::Left),
        (BinOp::DivInt, 18, Position::Left),
        (BinOp::DivFloat, 18, Position::Left),
        (BinOp::Mod, 18, Position::Left),
        (BinOp::Add, 17, Position::Left),
        (BinOp::Sub, 17, Position::Left),
        (BinOp::Eq, 16, Position::Unspecified),
        (BinOp::Ne, 16, Position::Unspecified),
        (BinOp::Gt, 16, Position::Unspecified),
        (BinOp::Lt, 16, Position::Unspecified),
        (BinOp::Gte, 16, Position::Unspecified),
        (BinOp::Lte, 16, Position::Unspecified),
        (BinOp::RegexSearch, 16, Position::Unspecified),
        (BinOp::Coalesce, 15, Position::Left),
        (BinOp::And, 14, Position::Left),
        (BinOp::Or, 13, Position::Left),
    ];
    for (op, strength, side) in strengths {
        assert_eq!(binding_strength(&binary_kind(op)), strength);
        assert_eq!(associativity(&binary_kind(op)), side);
    }
    let unary = |op| ExprKind::Unary(UnaryExpr { op, expr: Box::new(ident("a")) });
    assert_eq!(binding_strength(&unary(UnOp::Neg)), 20);
    assert_eq!(associativity(&unary(UnOp::Neg)), Position::Unspecified);
    assert_eq!(binding_strength(&ExprKind::Range(Range { start: None, end: None })), 19);
    let call = ExprKind::FuncCall(FuncCall {
        name: Box::new(ident("f")),
        args: vec![],
        named_args: vec![],
    });
    assert_eq!(binding_strength(&call), 10);
    let func = ExprKind::Func(Box::new(Func {
        return_ty: None,
        body: Box::new(ident("a")),
        params: vec![],
        named_params: vec![],
        generic_type_params: vec![],
    }));
    assert_eq!(binding_strength(&func), 7);
    assert_eq!(binding_strength(&ExprKind::Ident("a".to_string())), 100);
    assert_eq!(binding_strength(&ExprKind::Tuple(vec![])), 100);
    assert_eq!(binding_strength(&ExprKind::Literal(Literal::Null)), 100);

    assert!(can_bind_left(&unary(UnOp::Neg)));
    assert!(can_bind_left(&unary(UnOp::Add)));
    assert!(can_bind_left(&unary(UnOp::EqSelf)));
    assert!(!can_bind_left(&unary(UnOp::Not)));
    assert!(!can_bind_left(&binary_kind(BinOp::Sub)));
}

#[test]
fn options_count_the_line() {
    let mut opt = WriteOpt::new_width(10);
    assert_eq!(opt.consume("abcd"), Some("abcd"));
    assert_eq!(opt.rem_width, 6);
    assert_eq!(opt.consume("abcdefg"), None);
    assert_eq!(opt.rem_width, 6);
    assert_eq!(opt.consume("abcdefg\nxy"), Some("abcdefg\nxy"));
    assert_eq!(opt.rem_width, 3);
    assert_eq!(opt.consume_width(3), Some(()));
    assert_eq!(opt.consume_width(1), None);
    assert_eq!(opt.consume(""), Some(""));

    opt.indent = 2;
    assert_eq!(opt.write_indent(), "    ");
    assert_eq!(opt.reset_line(), Some(()));
    assert_eq!(opt.rem_width, 6);
    opt.indent = 6;
    assert_eq!(opt.reset_line(), None);
    assert_eq!(opt.rem_width, 6);
    opt.indent = 5;
    assert_eq!(opt.reset_line(), Some(()));
    assert_eq!(opt.rem_width, 0);

    let default = WriteOpt::default();
    assert_eq!(default.max_width, 50);
    assert_eq!(default.rem_width, 50);
    assert_eq!(default.indent, 0);
    assert_eq!(default.context_strength, 0);
    assert_eq!(default.binary_position, Position::Unspecified);
    assert!(!default.unbound_expr);
    assert_eq!(WriteOpt::new_width(u16::MAX).rem_width, u16::MAX);
}

#[test]
fn names_with_paths() {
    let ident = Ident { path: vec!["a".to_string(), "let".to_string()], name: "b c".to_string() };
    assert_eq!(ident.write(WriteOpt::default()).unwrap(), "a.`let`.`b c`");
    // the parts and dots are counted, the backticks are not
    assert_eq!(ident.write(WriteOpt::new_width(9)).unwrap(), "a.`let`.`b c`");
    assert_eq!(ident.write(WriteOpt::new_width(8)), None);
    assert_eq!(Ident::from_name("x".to_string()).write(WriteOpt::new_width(1)).unwrap(), "x");
    assert_eq!(Ident::from_name("xy".to_string()).write(WriteOpt::new_width(1)), None);
}
