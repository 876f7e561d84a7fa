use pratt::ast::{
    Expression, ExpressionKind, ExpressionStatement, FunctionArgument, FunctionParameter,
    InfixOperator, PrefixOperator, Program, Type,
};
use pratt::error::Error;
use pratt::parser::Parser;
use pratt::span::Span;
use pratt::token::{Token, TokenKind};

fn tok(kind: TokenKind, start: usize, end: usize) -> Token {
    Token { kind, span: Span { start, end } }
}

fn parse(src: &str, tokens: Vec<Token>) -> Result<Program, Error> {
    let mut parser = Parser::new(src, tokens);
    parser.parse()
}

fn int_expr(v: i64, start: usize, end: usize) -> Expression {
    Expression::new(ExpressionKind::IntLiteral(v), Span { start, end })
}

fn infix(left: Expression, op: InfixOperator, right: Expression, start: usize, end: usize) -> Expression {
    Expression::new(
        ExpressionKind::Infix { left: Box::new(left), operator: op, right: Box::new(right) },
        Span { start, end },
    )
}

fn stmt(expr: Expression) -> ExpressionStatement {
    ExpressionStatement { expr, discarded: false }
}

#[test]
fn single_int_literal_with_span() {
    let prog = parse("42", vec![tok(TokenKind::IntLiteral, 0, 2)]).unwrap();
    assert_eq!(prog, Program(vec![stmt(int_expr(42, 0, 2))]));
}

#[test]
fn multiplicative_binds_tighter_than_additive() {
    // 1 + 2 * 3
    let prog = parse(
        "1 + 2 * 3",
        vec![
            tok(TokenKind::IntLiteral, 0, 1),
            tok(TokenKind::Plus, 2, 3),
            tok(TokenKind::IntLiteral, 4, 5),
            tok(TokenKind::Asterisk, 6, 7),
            tok(TokenKind::IntLiteral, 8, 9),
        ],
    )
    .unwrap();
    let expected = infix(
        int_expr(1, 0, 1),
        InfixOperator::Plus,
        infix(int_expr(2, 4, 5), InfixOperator::Multiply, int_expr(3, 8, 9), 4, 9),
        0,
        9,
    );
    assert_eq!(prog, Program(vec![stmt(expected)]));
}

#[test]
fn equal_precedence_is_left_associative() {
    // 1 - 2 - 3
    let prog = parse(
        "1 - 2 - 3",
        vec![
            tok(TokenKind::IntLiteral, 0, 1),
            tok(TokenKind::Minus, 2, 3),
            tok(TokenKind::IntLiteral, 4, 5),
            tok(TokenKind::Minus, 6, 7),
            tok(TokenKind::IntLiteral, 8, 9),
        ],
    )
    .unwrap();
    let expected = infix(
        infix(int_expr(1, 0, 1), InfixOperator::Minus, int_expr(2, 4, 5), 0, 5),
        InfixOperator::Minus,
        int_expr(3, 8, 9),
        0,
        9,
    );
    assert_eq!(prog, Program(vec![stmt(expected)]));
}

#[test]
fn grouping_overrides_precedence() {
    // (1 + 2) * 3
    let prog = parse(
        "(1 + 2) * 3",
        vec![
            tok(TokenKind::LParen, 0, 1),
            tok(TokenKind::IntLiteral, 1, 2),
            tok(TokenKind::Plus, 3, 4),
            tok(TokenKind::IntLiteral, 5, 6),
            tok(TokenKind::RParen, 6, 7),
            tok(TokenKind::Asterisk, 8, 9),
            tok(TokenKind::IntLiteral, 10, 11),
        ],
    )
    .unwrap();
    let expected = infix(
        infix(int_expr(1, 1, 2), InfixOperator::Plus, int_expr(2, 5, 6), 0, 7),
        InfixOperator::Multiply,
        int_expr(3, 10, 11),
        0,
        11,
    );
    assert_eq!(prog, Program(vec![stmt(expected)]));
}

#[test]
fn mutable_declaration_with_type() {
    // a: Int = 1
    let prog = parse(
        "a: Int = 1",
        vec![
            tok(TokenKind::Identifier, 0, 1),
            tok(TokenKind::Colon, 1, 2),
            tok(TokenKind::Identifier, 3, 6),
            tok(TokenKind::SingleEqual, 7, 8),
            tok(TokenKind::IntLiteral, 9, 10),
        ],
    )
    .unwrap();
    let expected = Expression::new(
        ExpressionKind::VariableDecl {
            name: "a".to_string(),
            value: Box::new(int_expr(1, 9, 10)),
            mutable: true,
            ty: Some(Type::Ident("Int".to_string())),
        },
        Span { start: 0, end: 10 },
    );
    assert_eq!(prog, Program(vec![stmt(expected)]));
}

#[test]
fn immutable_declaration_with_type() {
    // a: Int: 1
    let prog = parse(
        "a: Int: 1",
        vec![
            tok(TokenKind::Identifier, 0, 1),
            tok(TokenKind::Colon, 1, 2),
            tok(TokenKind::Identifier, 3, 6),
            tok(TokenKind::Colon, 6, 7),
            tok(TokenKind::IntLiteral, 8, 9),
        ],
    )
    .unwrap();
    let expected = Expression::new(
        ExpressionKind::VariableDecl {
            name: "a".to_string(),
            value: Box::new(int_expr(1, 8, 9)),
            mutable: false,
            ty: Some(Type::Ident("Int".to_string())),
        },
        Span { start: 0, end: 9 },
    );
    assert_eq!(prog, Program(vec![stmt(expected)]));
}

#[test]
fn declaration_without_type() {
    // a:: 1
    let prog = parse(
        "a:: 1",
        vec![
            tok(TokenKind::Identifier, 0, 1),
            tok(TokenKind::Colon, 1, 2),
            tok(TokenKind::Colon, 2, 3),
            tok(TokenKind::IntLiteral, 4, 5),
        ],
    )
    .unwrap();
    let expected = Expression::new(
        ExpressionKind::VariableDecl {
            name: "a".to_string(),
            value: Box::new(int_expr(1, 4, 5)),
            mutable: false,
            ty: None,
        },
        Span { start: 0, end: 5 },
    );
    assert_eq!(prog, Program(vec![stmt(expected)]));
}

#[test]
fn call_with_labeled_and_positional_arguments() {
    // f(x: 1, 2)
    let prog = parse(
        "f(x: 1, 2)",
        vec![
            tok(TokenKind::Identifier, 0, 1),
            tok(TokenKind::LParen, 1, 2),
            tok(TokenKind::Identifier, 2, 3),
            tok(TokenKind::Colon, 3, 4),
            tok(TokenKind::IntLiteral, 5, 6),
            tok(TokenKind::Comma, 6, 7),
            tok(TokenKind::IntLiteral, 8, 9),
            tok(TokenKind::RParen, 9, 10),
        ],
    )
    .unwrap();
    let expected = Expression::new(
        ExpressionKind::FunctionCall {
            name: "f".to_string(),
            arguments: vec![
                FunctionArgument { label: Some("x".to_string()), value: int_expr(1, 5, 6) },
                FunctionArgument { label: None, value: int_expr(2, 8, 9) },
            ],
        },
        Span { start: 0, end: 10 },
    );
    assert_eq!(prog, Program(vec![stmt(expected)]));
}

#[test]
fn function_literal_parameters_and_return_type() {
    // fun (~a: Int, b c: Int) Int { a }
    let prog = parse(
        "fun (~a: Int, b c: Int) Int { a }",
        vec![
            tok(TokenKind::Fun, 0, 3),
            tok(TokenKind::LParen, 4, 5),
            tok(TokenKind::Tilde, 5, 6),
            tok(TokenKind::Identifier, 6, 7),
            tok(TokenKind::Colon, 7, 8),
            tok(TokenKind::Identifier, 9, 12),
            tok(TokenKind::Comma, 12, 13),
            tok(TokenKind::Identifier, 14, 15),
            tok(TokenKind::Identifier, 16, 17),
            tok(TokenKind::Colon, 17, 18),
            tok(TokenKind::Identifier, 19, 22),
            tok(TokenKind::RParen, 22, 23),
            tok(TokenKind::Identifier, 24, 27),
            tok(TokenKind::LBrace, 28, 29),
            tok(TokenKind::Identifier, 30, 31),
            tok(TokenKind::RBrace, 32, 33),
        ],
    )
    .unwrap();
    let body_expr = Expression::new(
        ExpressionKind::Ident("a".to_string()),
        Span { start: 30, end: 31 },
    );
    let expected = Expression::new(
        ExpressionKind::Function {
            parameters: vec![
                FunctionParameter::UnlabeledAtCallsite {
                    name: "a".to_string(),
                    ty: Type::Ident("Int".to_string()),
                },
                FunctionParameter::LabeledAtCallsite {
                    internal_name: "c".to_string(),
                    external_name: Some("b".to_string()),
                    ty: Type::Ident("Int".to_string()),
                },
            ],
            return_type: Some(Type::Ident("Int".to_string())),
            body: vec![stmt(body_expr)],
        },
        Span { start: 0, end: 33 },
    );
    assert_eq!(prog, Program(vec![stmt(expected)]));
}

#[test]
fn consecutive_int_literals_are_rejected() {
    // 1 2
    let r = parse(
        "1 2",
        vec![tok(TokenKind::IntLiteral, 0, 1), tok(TokenKind::IntLiteral, 2, 3)],
    );
    assert_eq!(r, Err(Error::Syntax("syntax error: consecutive ints".to_string())));
}

#[test]
fn empty_input_parses_to_empty_program() {
    let prog = parse("", vec![]).unwrap();
    assert_eq!(prog, Program(vec![]));
}

fn same_shape(a: &Expression, b: &Expression) -> bool {
    match (&a.kind, &b.kind) {
        (ExpressionKind::IntLiteral(x), ExpressionKind::IntLiteral(y)) => x == y,
        (ExpressionKind::Ident(x), ExpressionKind::Ident(y)) => x == y,
        (
            ExpressionKind::Infix { left: l1, operator: o1, right: r1 },
            ExpressionKind::Infix { left: l2, operator: o2, right: r2 },
        ) => o1 == o2 && same_shape(l1, l2) && same_shape(r1, r2),
        _ => false,
    }
}

#[test]
fn reparsing_a_rendering_reproduces_the_tree() {
    // "1 + 2 * 3" against its fully parenthesised rendering "1 + (2 * 3)":
    // label, structure, operator and literal values agree; spans differ.
    let first = parse(
        "1 + 2 * 3",
        vec![
            tok(TokenKind::IntLiteral, 0, 1),
            tok(TokenKind::Plus, 2, 3),
            tok(TokenKind::IntLiteral, 4, 5),
            tok(TokenKind::Asterisk, 6, 7),
            tok(TokenKind::IntLiteral, 8, 9),
        ],
    )
    .unwrap();
    let second = parse(
        "1 + (2 * 3)",
        vec![
            tok(TokenKind::IntLiteral, 0, 1),
            tok(TokenKind::Plus, 2, 3),
            tok(TokenKind::LParen, 4, 5),
            tok(TokenKind::IntLiteral, 5, 6),
            tok(TokenKind::Asterisk, 7, 8),
            tok(TokenKind::IntLiteral, 9, 10),
            tok(TokenKind::RParen, 10, 11),
        ],
    )
    .unwrap();
    assert_eq!(first.0.len(), 1);
    assert_eq!(second.0.len(), 1);
    assert!(same_shape(&first.0[0].expr, &second.0[0].expr));
    assert_ne!(first.0[0].expr.span, second.0[0].expr.span);
}

#[test]
fn semicolon_discards_statement_value() {
    // 1; 2
    let prog = parse(
        "1; 2",
        vec![
            tok(TokenKind::IntLiteral, 0, 1),
            tok(TokenKind::Semicolon, 1, 2),
            tok(TokenKind::IntLiteral, 3, 4),
        ],
    )
    .unwrap();
    assert_eq!(
        prog,
        Program(vec![
            ExpressionStatement { expr: int_expr(1, 0, 1), discarded: true },
            ExpressionStatement { expr: int_expr(2, 3, 4), discarded: false },
        ])
    );
}

#[test]
fn equality_binds_looser_than_comparison() {
    // 1 < 2 == true
    let prog = parse(
        "1 < 2 == true",
        vec![
            tok(TokenKind::IntLiteral, 0, 1),
            tok(TokenKind::LessThan, 2, 3),
            tok(TokenKind::IntLiteral, 4, 5),
            tok(TokenKind::DoubleEqual, 6, 8),
            tok(TokenKind::True, 9, 13),
        ],
    )
    .unwrap();
    let expected = infix(
        infix(int_expr(1, 0, 1), InfixOperator::LessThan, int_expr(2, 4, 5), 0, 5),
        InfixOperator::Equal,
        Expression::new(ExpressionKind::BoolLiteral(true), Span { start: 9, end: 13 }),
        0,
        13,
    );
    assert_eq!(prog, Program(vec![stmt(expected)]));
}

#[test]
fn prefix_operators() {
    // !true
    let prog = parse(
        "!true",
        vec![tok(TokenKind::ExclamationMark, 0, 1), tok(TokenKind::True, 1, 5)],
    )
    .unwrap();
    let expected = Expression::new(
        ExpressionKind::Prefix {
            operator: PrefixOperator::LogicalNot,
            expression: Box::new(Expression::new(
                ExpressionKind::BoolLiteral(true),
                Span { start: 1, end: 5 },
            )),
        },
        Span { start: 0, end: 5 },
    );
    assert_eq!(prog, Program(vec![stmt(expected)]));

    // -5
    let prog = parse(
        "-5",
        vec![tok(TokenKind::Minus, 0, 1), tok(TokenKind::IntLiteral, 1, 2)],
    )
    .unwrap();
    let expected = Expression::new(
        ExpressionKind::Prefix {
            operator: PrefixOperator::Negative,
            expression: Box::new(int_expr(5, 1, 2)),
        },
        Span { start: 0, end: 2 },
    );
    assert_eq!(prog, Program(vec![stmt(expected)]));
}

#[test]
fn unit_literal() {
    let prog = parse("()", vec![tok(TokenKind::Unit, 0, 2)]).unwrap();
    assert_eq!(
        prog,
        Program(vec![stmt(Expression::new(ExpressionKind::Unit, Span { start: 0, end: 2 }))])
    );
}

#[test]
fn empty_function_literal() {
    // fun () { }
    let prog = parse(
        "fun () { }",
        vec![
            tok(TokenKind::Fun, 0, 3),
            tok(TokenKind::LParen, 4, 5),
            tok(TokenKind::RParen, 5, 6),
            tok(TokenKind::LBrace, 7, 8),
            tok(TokenKind::RBrace, 9, 10),
        ],
    )
    .unwrap();
    let expected = Expression::new(
        ExpressionKind::Function { parameters: vec![], return_type: None, body: vec![] },
        Span { start: 0, end: 10 },
    );
    assert_eq!(prog, Program(vec![stmt(expected)]));
}

#[test]
fn call_with_no_arguments_and_trailing_comma() {
    // f()
    let prog = parse(
        "f()",
        vec![
            tok(TokenKind::Identifier, 0, 1),
            tok(TokenKind::LParen, 1, 2),
            tok(TokenKind::RParen, 2, 3),
        ],
    )
    .unwrap();
    let expected = Expression::new(
        ExpressionKind::FunctionCall { name: "f".to_string(), arguments: vec![] },
        Span { start: 0, end: 3 },
    );
    assert_eq!(prog, Program(vec![stmt(expected)]));

    // f(1,)
    let prog = parse(
        "f(1,)",
        vec![
            tok(TokenKind::Identifier, 0, 1),
            tok(TokenKind::LParen, 1, 2),
            tok(TokenKind::IntLiteral, 2, 3),
            tok(TokenKind::Comma, 3, 4),
            tok(TokenKind::RParen, 4, 5),
        ],
    )
    .unwrap();
    let expected = Expression::new(
        ExpressionKind::FunctionCall {
            name: "f".to_string(),
            arguments: vec![FunctionArgument { label: None, value: int_expr(1, 2, 3) }],
        },
        Span { start: 0, end: 5 },
    );
    assert_eq!(prog, Program(vec![stmt(expected)]));
}

#[test]
fn bare_identifier_argument_stands_for_itself() {
    // f(a)
    let prog = parse(
        "f(a)",
        vec![
            tok(TokenKind::Identifier, 0, 1),
            tok(TokenKind::LParen, 1, 2),
            tok(TokenKind::Identifier, 2, 3),
            tok(TokenKind::RParen, 3, 4),
        ],
    )
    .unwrap();
    let expected = Expression::new(
        ExpressionKind::FunctionCall {
            name: "f".to_string(),
            arguments: vec![FunctionArgument {
                label: None,
                value: Expression::new(
                    ExpressionKind::Ident("a".to_string()),
                    Span { start: 2, end: 3 },
                ),
            }],
        },
        Span { start: 0, end: 4 },
    );
    assert_eq!(prog, Program(vec![stmt(expected)]));
}

#[test]
fn labeled_argument_takes_a_full_expression() {
    // f(x: 1 + 2)
    let prog = parse(
        "f(x: 1 + 2)",
        vec![
            tok(TokenKind::Identifier, 0, 1),
            tok(TokenKind::LParen, 1, 2),
            tok(TokenKind::Identifier, 2, 3),
            tok(TokenKind::Colon, 3, 4),
            tok(TokenKind::IntLiteral, 5, 6),
            tok(TokenKind::Plus, 7, 8),
            tok(TokenKind::IntLiteral, 9, 10),
            tok(TokenKind::RParen, 10, 11),
        ],
    )
    .unwrap();
    let expected = Expression::new(
        ExpressionKind::FunctionCall {
            name: "f".to_string(),
            arguments: vec![FunctionArgument {
                label: Some("x".to_string()),
                value: infix(int_expr(1, 5, 6), InfixOperator::Plus, int_expr(2, 9, 10), 5, 10),
            }],
        },
        Span { start: 0, end: 11 },
    );
    assert_eq!(prog, Program(vec![stmt(expected)]));
}

#[test]
fn positional_argument_may_be_a_full_expression() {
    // f(a + 1)
    let prog = parse(
        "f(a + 1)",
        vec![
            tok(TokenKind::Identifier, 0, 1),
            tok(TokenKind::LParen, 1, 2),
            tok(TokenKind::Identifier, 2, 3),
            tok(TokenKind::Plus, 4, 5),
            tok(TokenKind::IntLiteral, 6, 7),
            tok(TokenKind::RParen, 7, 8),
        ],
    )
    .unwrap();
    let expected = Expression::new(
        ExpressionKind::FunctionCall {
            name: "f".to_string(),
            arguments: vec![FunctionArgument {
                label: None,
                value: infix(
                    Expression::new(
                        ExpressionKind::Ident("a".to_string()),
                        Span { start: 2, end: 3 },
                    ),
                    InfixOperator::Plus,
                    int_expr(1, 6, 7),
                    2,
                    7,
                ),
            }],
        },
        Span { start: 0, end: 8 },
    );
    assert_eq!(prog, Program(vec![stmt(expected)]));
}

#[test]
fn positional_argument_may_be_a_nested_call() {
    // f(g(1))
    let prog = parse(
        "f(g(1))",
        vec![
            tok(TokenKind::Identifier, 0, 1),
            tok(TokenKind::LParen, 1, 2),
            tok(TokenKind::Identifier, 2, 3),
            tok(TokenKind::LParen, 3, 4),
            tok(TokenKind::IntLiteral, 4, 5),
            tok(TokenKind::RParen, 5, 6),
            tok(TokenKind::RParen, 6, 7),
        ],
    )
    .unwrap();
    let inner = Expression::new(
        ExpressionKind::FunctionCall {
            name: "g".to_string(),
            arguments: vec![FunctionArgument { label: None, value: int_expr(1, 4, 5) }],
        },
        Span { start: 2, end: 6 },
    );
    let expected = Expression::new(
        ExpressionKind::FunctionCall {
            name: "f".to_string(),
            arguments: vec![FunctionArgument { label: None, value: inner }],
        },
        Span { start: 0, end: 7 },
    );
    assert_eq!(prog, Program(vec![stmt(expected)]));
}
