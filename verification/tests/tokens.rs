use prqlc::codegen::attach::{add_comments_to_pl, AestheticTokensAdder};
use prqlc::codegen::comments::{find_comments_after, find_end};
use prqlc::codegen::options::WriteOpt;
use prqlc::fmt::{fmt, fmt_of_ast};
use prqlc::lexer::{Token, TokenKind, TokenSpan, Tokens};
use prqlc::parser::prepare_stream;
use prqlc::pr::expr::{Expr, ExprKind};
use prqlc::pr::literal::Literal;
use prqlc::pr::span::Span;
use prqlc::pr::stmt::{ModuleDef, Stmt, StmtKind, VarDef, VarDefKind};

fn token(kind: TokenKind, start: usize, end: usize) -> Token {
    Token { kind, span: TokenSpan { start, end } }
}

fn comment(text: &str, start: usize, end: usize) -> Token {
    token(TokenKind::Comment(text.to_string()), start, end)
}

fn new_line(start: usize) -> Token {
    token(TokenKind::NewLine, start, start + 1)
}

/// The tokens of
/// "\n            let a = 5 # on side\n            # below\n            # and another\n            ".
fn commented_source() -> Tokens {
    Tokens(vec![
        token(TokenKind::Start, 0, 0),
        new_line(0),
        token(TokenKind::Keyword("let".to_string()), 13, 16),
        token(TokenKind::Ident("a".to_string()), 17, 18),
        token(TokenKind::Control('='), 19, 20),
        token(TokenKind::Literal(Literal::Integer(5)), 21, 22),
        comment(" on side", 23, 32),
        new_line(32),
        comment(" below", 45, 52),
        new_line(52),
        comment(" and another", 65, 78),
        new_line(78),
    ])
}

#[test]
fn test_find_comments_after() {
    let tokens = commented_source();
    let span = tokens
        .0
        .iter()
        .find(|t| t.kind == TokenKind::Literal(Literal::Integer(5)))
        .unwrap()
        .span;
    let span = Span { start: span.start, end: span.end, source_id: 0 };
    let comment = find_comments_after(span, &tokens);
    assert_eq!(
        comment,
        vec![
            self::comment(" on side", 23, 32),
            new_line(32),
            self::comment(" below", 45, 52),
            new_line(52),
            self::comment(" and another", 65, 78),
            new_line(78),
        ]
    );
}

#[test]
fn comments_stop_at_the_next_token() {
    let tokens = Tokens(vec![
        token(TokenKind::Ident("a".to_string()), 0, 1),
        comment(" one", 2, 7),
        new_line(7),
        token(TokenKind::Ident("b".to_string()), 8, 9),
        comment(" two", 10, 15),
    ]);
    let after_a = find_comments_after(Span { start: 0, end: 1, source_id: 0 }, &tokens);
    assert_eq!(after_a, vec![comment(" one", 2, 7), new_line(7)]);
    let after_b = find_comments_after(Span { start: 8, end: 9, source_id: 0 }, &tokens);
    assert_eq!(after_b, vec![comment(" two", 10, 15)]);
    assert_eq!(find_end(&tokens, 9), Some(3));
    assert_eq!(find_end(&tokens, 3), None);
}

#[test]
fn trailing_comments_are_written() {
    let tokens = Tokens(vec![
        token(TokenKind::Ident("a".to_string()), 0, 1),
        comment(" one", 2, 7),
        new_line(7),
        comment(" two", 8, 13),
        token(TokenKind::Ident("b".to_string()), 14, 15),
        new_line(15),
        comment(" three", 16, 23),
    ]);
    let mut opt = WriteOpt::default();
    opt.tokens = Some(&tokens);

    let mut a = Expr::new(ExprKind::Ident("a".to_string()));
    a.span = Some(Span { start: 0, end: 1, source_id: 0 });
    assert_eq!(a.write(opt).unwrap(), "a  # one\n# two");

    // a comment on a later line is not set off by spaces
    let mut b = Expr::new(ExprKind::Ident("b".to_string()));
    b.span = Some(Span { start: 14, end: 15, source_id: 0 });
    assert_eq!(b.write(opt).unwrap(), "b\n# three");

    // no token ends where the expression ends
    let mut c = Expr::new(ExprKind::Ident("c".to_string()));
    c.span = Some(Span { start: 30, end: 31, source_id: 0 });
    assert_eq!(c.write(opt).unwrap(), "c");

    opt.enable_comments = false;
    assert_eq!(a.write(opt).unwrap(), "a");
}

#[test]
fn adder_keeps_tokens_reversed() {
    let adder = AestheticTokensAdder::new(vec![comment(" a", 0, 3), new_line(3), comment(" b", 4, 7)]);
    assert_eq!(
        adder.aesthetic_tokens,
        vec![comment(" b", 4, 7), new_line(3), comment(" a", 0, 3)]
    );
}

#[test]
fn comments_go_to_the_next_expression() {
    let mut adder = AestheticTokensAdder::new(vec![
        comment(" first", 0, 7),
        new_line(7),
        comment(" second", 20, 28),
    ]);
    let mut expr = Expr::new(ExprKind::Ident("a".to_string()));
    expr.span = Some(Span { start: 8, end: 9, source_id: 0 });
    let expr = adder.fold_expr(expr);
    assert_eq!(expr.comments_before, vec![comment(" first", 0, 7), new_line(7)]);
    assert_eq!(adder.aesthetic_tokens, vec![comment(" second", 20, 28)]);

    // an expression without a span takes nothing
    let expr = adder.fold_expr(Expr::new(ExprKind::Ident("b".to_string())));
    assert!(expr.comments_before.is_empty());
    assert_eq!(adder.aesthetic_tokens.len(), 1);
}

#[test]
fn comments_are_added_to_statements() {
    let value = |name: &str, start: usize| {
        let mut e = Expr::new(ExprKind::Ident(name.to_string()));
        e.span = Some(Span { start, end: start + 1, source_id: 0 });
        e
    };
    let def = |name: &str, e: Expr| {
        Stmt::new(StmtKind::VarDef(VarDef {
            kind: VarDefKind::Let,
            name: name.to_string(),
            value: Some(Box::new(e)),
            ty: None,
        }))
    };
    let tokens = Tokens(vec![
        token(TokenKind::Start, 0, 0),
        comment(" one", 0, 5),
        new_line(5),
        token(TokenKind::Ident("x".to_string()), 14, 15),
        token(TokenKind::LineWrap(" wrapped".to_string()), 16, 30),
        token(TokenKind::DocComment(" doc".to_string()), 31, 36),
        token(TokenKind::Ident("y".to_string()), 40, 41),
        comment(" last", 42, 48),
    ]);
    let mut pl = vec![
        def("a", value("x", 14)),
        Stmt::new(StmtKind::ModuleDef(ModuleDef {
            name: "m".to_string(),
            stmts: vec![def("b", value("y", 40))],
        })),
    ];
    add_comments_to_pl(&tokens, &mut pl);

    let StmtKind::VarDef(first) = &pl[0].kind else { panic!("a variable") };
    assert_eq!(
        first.value.as_ref().unwrap().comments_before,
        vec![comment(" one", 0, 5), new_line(5)]
    );
    let StmtKind::ModuleDef(module) = &pl[1].kind else { panic!("a module") };
    let StmtKind::VarDef(second) = &module.stmts[0].kind else { panic!("a variable") };
    assert_eq!(
        second.value.as_ref().unwrap().comments_before,
        vec![token(TokenKind::LineWrap(" wrapped".to_string()), 16, 30)]
    );
    assert_eq!(first.name, "a");
    assert_eq!(second.name, "b");
}

/// The tokens of "[2, 3, 4]".
fn array_tokens() -> Vec<Token> {
    vec![
        token(TokenKind::Start, 0, 0),
        token(TokenKind::Control('['), 0, 1),
        token(TokenKind::Literal(Literal::Integer(2)), 1, 2),
        token(TokenKind::Control(','), 2, 3),
        token(TokenKind::Literal(Literal::Integer(3)), 4, 5),
        token(TokenKind::Control(','), 5, 6),
        token(TokenKind::Literal(Literal::Integer(4)), 7, 8),
        token(TokenKind::Control(']'), 8, 9),
    ]
}

/// The statements of "[2, 3, 4]".
fn array_statements() -> Vec<Stmt> {
    let item = |i: i64, start: usize| {
        let mut e = Expr::new(ExprKind::Literal(Literal::Integer(i)));
        e.span = Some(Span { start, end: start + 1, source_id: 0 });
        e
    };
    let mut array = Expr::new(ExprKind::Array(vec![item(2, 1), item(3, 4), item(4, 7)]));
    array.span = Some(Span { start: 0, end: 9, source_id: 0 });
    let mut stmt = Stmt::new(StmtKind::VarDef(VarDef {
        kind: VarDefKind::Main,
        name: "main".to_string(),
        value: Some(Box::new(array)),
        ty: None,
    }));
    stmt.span = Some(Span { start: 0, end: 9, source_id: 0 });
    vec![stmt]
}

#[test]
fn test_fmt() {
    let lr = Tokens(array_tokens());
    let pr = array_statements();
    assert_eq!(fmt(&lr, &pr).unwrap().trim(), "[2, 3, 4]");
    assert_eq!(fmt(&lr, &pr).unwrap(), "[2, 3, 4]\n");
    assert_eq!(fmt_of_ast(&lr, &pr).unwrap(), "[2, 3, 4]\n");
}

#[test]
fn fmt_keeps_comments() {
    // the tokens of "[2, 3, 4] # three numbers"
    let mut tokens = array_tokens();
    tokens.push(comment(" three numbers", 10, 25));
    let lr = Tokens(tokens);
    assert_eq!(fmt(&lr, &array_statements()).unwrap(), "[2, 3, 4]  # three numbers\n");
}

#[test]
fn fmt_writes_every_statement() {
    let value = |name: &str| Expr::new(ExprKind::Ident(name.to_string()));
    let def = |name: &str, e: Expr| {
        Stmt::new(StmtKind::VarDef(VarDef {
            kind: VarDefKind::Let,
            name: name.to_string(),
            value: Some(Box::new(e)),
            ty: None,
        }))
    };
    let pr = vec![
        def("a", value("x")),
        Stmt::new(StmtKind::ModuleDef(ModuleDef {
            name: "m".to_string(),
            stmts: vec![def("b", value("let"))],
        })),
    ];
    let lr = Tokens(vec![]);
    assert_eq!(fmt(&lr, &pr).unwrap(), "let a = x\n\nmodule m {\n  let b = `let`\n}\n");
    assert_eq!(fmt(&lr, &vec![]).unwrap(), "");
}

#[test]
fn stream_leaves_comments_out() {
    let tokens = commented_source().0;
    let (stream, eoi) = prepare_stream(tokens, "let a = 5 # é", 3);
    let kinds: Vec<&TokenKind> = stream.iter().map(|(kind, _)| kind).collect();
    assert_eq!(
        kinds,
        vec![
            &TokenKind::Start,
            &TokenKind::NewLine,
            &TokenKind::Keyword("let".to_string()),
            &TokenKind::Ident("a".to_string()),
            &TokenKind::Control('='),
            &TokenKind::Literal(Literal::Integer(5)),
            &TokenKind::NewLine,
            &TokenKind::NewLine,
            &TokenKind::NewLine,
        ]
    );
    assert_eq!(stream[2].1, Span { start: 13, end: 16, source_id: 3 });
    // the end of input is counted in characters
    assert_eq!(eoi, Span { start: 13, end: 14, source_id: 3 });

    let wrapped = vec![
        token(TokenKind::LineWrap(String::new()), 0, 2),
        token(TokenKind::DocComment(" doc".to_string()), 2, 8),
        token(TokenKind::Ident("a".to_string()), 8, 9),
    ];
    let (stream, eoi) = prepare_stream(wrapped, "", 0);
    assert_eq!(stream, vec![(TokenKind::Ident("a".to_string()), Span { start: 8, end: 9, source_id: 0 })]);
    assert_eq!(eoi, Span { start: 0, end: 1, source_id: 0 });
}
