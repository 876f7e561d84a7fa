use pratt::ast::{Expression, ExpressionKind, ExpressionStatement, Program};
use pratt::error::Error;
use pratt::parser::Parser;
use pratt::span::Span;
use pratt::token::{Token, TokenKind};

fn tok(kind: TokenKind, start: usize, end: usize) -> Token {
    Token { kind, span: Span { start, end } }
}

fn parse(src: &str, tokens: Vec<Token>) -> Result<Program, Error> {
    let mut parser = Parser::new(src, tokens);
    parser.parse()
}

#[test]
fn expected_constructor_copies_both_texts() {
    assert_eq!(
        Error::expected("identifier", "fun"),
        Error::Expected { expected: "identifier".to_string(), got: "fun".to_string() }
    );
}

#[test]
fn syntax_err_constructor_prefixes_message() {
    assert_eq!(
        Error::syntax_err("consecutive ints"),
        Error::Syntax("syntax error: consecutive ints".to_string())
    );
}

#[test]
fn token_that_begins_no_expression() {
    let r = parse("+", vec![tok(TokenKind::Plus, 0, 1)]);
    assert_eq!(r, Err(Error::NoPrefixParseFn(TokenKind::Plus)));
}

#[test]
fn missing_closing_parenthesis() {
    // (1
    let r = parse(
        "(1",
        vec![tok(TokenKind::LParen, 0, 1), tok(TokenKind::IntLiteral, 1, 2)],
    );
    assert_eq!(
        r,
        Err(Error::Expected { expected: ")".to_string(), got: "end of input".to_string() })
    );
}

#[test]
fn declaration_missing_delimiter() {
    // a:
    let r = parse(
        "a:",
        vec![tok(TokenKind::Identifier, 0, 1), tok(TokenKind::Colon, 1, 2)],
    );
    assert_eq!(
        r,
        Err(Error::Expected { expected: ": or =".to_string(), got: "end of input".to_string() })
    );
}

#[test]
fn function_keyword_at_end_of_input() {
    let r = parse("fun", vec![tok(TokenKind::Fun, 0, 3)]);
    assert_eq!(r, Err(Error::UnexpectedEof));
}

#[test]
fn mismatched_token_reports_required_and_found() {
    // fun )
    let r = parse(
        "fun )",
        vec![tok(TokenKind::Fun, 0, 3), tok(TokenKind::RParen, 4, 5)],
    );
    assert_eq!(
        r,
        Err(Error::Expected { expected: "(".to_string(), got: ")".to_string() })
    );
}

#[test]
fn fun_is_no_type_annotation() {
    // a: fun
    let r = parse(
        "a: fun",
        vec![
            tok(TokenKind::Identifier, 0, 1),
            tok(TokenKind::Colon, 1, 2),
            tok(TokenKind::Fun, 3, 6),
        ],
    );
    assert_eq!(
        r,
        Err(Error::Expected { expected: ": or =".to_string(), got: "fun".to_string() })
    );
}

#[test]
fn opening_parenthesis_after_expression_is_no_operator() {
    // 1 (
    let r = parse(
        "1 (",
        vec![tok(TokenKind::IntLiteral, 0, 1), tok(TokenKind::LParen, 2, 3)],
    );
    assert_eq!(r, Err(Error::Syntax("syntax error: invalid operator: (".to_string())));
}

#[test]
fn parameter_must_start_with_tilde_or_name() {
    // fun (1
    let r = parse(
        "fun (1",
        vec![
            tok(TokenKind::Fun, 0, 3),
            tok(TokenKind::LParen, 4, 5),
            tok(TokenKind::IntLiteral, 5, 6),
        ],
    );
    assert_eq!(
        r,
        Err(Error::Expected { expected: "parameter name".to_string(), got: "int literal".to_string() })
    );
}

#[test]
fn integer_literal_out_of_range() {
    // one past the largest 64-bit value
    let r = parse("9223372036854775808", vec![tok(TokenKind::IntLiteral, 0, 19)]);
    assert_eq!(r, Err(Error::Syntax("syntax error: invalid integer literal".to_string())));
}

#[test]
fn largest_integer_literal_parses() {
    let prog = parse("9223372036854775807", vec![tok(TokenKind::IntLiteral, 0, 19)]).unwrap();
    assert_eq!(
        prog,
        Program(vec![ExpressionStatement {
            expr: Expression::new(
                ExpressionKind::IntLiteral(9223372036854775807),
                Span { start: 0, end: 19 }
            ),
            discarded: false,
        }])
    );
}

#[test]
fn empty_integer_literal_text_is_rejected() {
    // a zero-width literal span slices to an empty text
    let r = parse("x", vec![tok(TokenKind::IntLiteral, 0, 0)]);
    assert_eq!(r, Err(Error::Syntax("syntax error: invalid integer literal".to_string())));
}

#[test]
fn boolean_literals_parse() {
    let prog = parse("true", vec![tok(TokenKind::True, 0, 4)]).unwrap();
    assert_eq!(
        prog,
        Program(vec![ExpressionStatement {
            expr: Expression::new(ExpressionKind::BoolLiteral(true), Span { start: 0, end: 4 }),
            discarded: false,
        }])
    );
    let prog = parse("false", vec![tok(TokenKind::False, 0, 5)]).unwrap();
    assert_eq!(
        prog,
        Program(vec![ExpressionStatement {
            expr: Expression::new(ExpressionKind::BoolLiteral(false), Span { start: 0, end: 5 }),
            discarded: false,
        }])
    );
}

#[test]
fn bare_identifier_expression() {
    let prog = parse("abc", vec![tok(TokenKind::Identifier, 0, 3)]).unwrap();
    assert_eq!(
        prog,
        Program(vec![ExpressionStatement {
            expr: Expression::new(
                ExpressionKind::Ident("abc".to_string()),
                Span { start: 0, end: 3 }
            ),
            discarded: false,
        }])
    );
}

#[test]
fn smallest_integer_via_negation() {
    // -9223372036854775808 lexes as a minus and a literal; the literal
    // alone is out of range, so the parse fails
    let r = parse(
        "-9223372036854775808",
        vec![tok(TokenKind::Minus, 0, 1), tok(TokenKind::IntLiteral, 1, 20)],
    );
    assert_eq!(r, Err(Error::Syntax("syntax error: invalid integer literal".to_string())));
}
