use pratt::ast::Precedence;
use pratt::num::parse_i64_text;
use pratt::span::Span;
use pratt::token::TokenKind;

#[test]
fn merge_gives_the_enclosing_range() {
    let a = Span { start: 1, end: 3 };
    let b = Span { start: 2, end: 5 };
    assert_eq!(a.merge(b), Span { start: 1, end: 5 });
    let c = Span { start: 4, end: 6 };
    let d = Span { start: 0, end: 2 };
    assert_eq!(c.merge(d), Span { start: 0, end: 6 });
}

#[test]
fn slice_extracts_the_denoted_substring() {
    let sp = Span { start: 2, end: 5 };
    assert_eq!(sp.slice("hello"), "llo");
    let whole = Span { start: 0, end: 5 };
    assert_eq!(whole.slice("hello"), "hello");
    let empty = Span { start: 3, end: 3 };
    assert_eq!(empty.slice("hello"), "");
}

#[test]
fn token_kinds_render_their_display_text() {
    assert_eq!(TokenKind::Plus.text(), "+");
    assert_eq!(TokenKind::GreaterThanOrEqual.text(), ">=");
    assert_eq!(TokenKind::Identifier.text(), "identifier");
    assert_eq!(TokenKind::Eof.text(), "end of input");
}

#[test]
fn precedence_is_totally_ordered_ascending() {
    assert!(Precedence::Lowest < Precedence::Equality);
    assert!(Precedence::Equality < Precedence::Comparison);
    assert!(Precedence::Comparison < Precedence::Sum);
    assert!(Precedence::Sum < Precedence::Product);
    assert!(Precedence::Product < Precedence::Prefix);
    assert!(Precedence::Prefix < Precedence::Group);
    assert!(Precedence::Product.exceeds(Precedence::Sum));
    assert!(!Precedence::Sum.exceeds(Precedence::Sum));
}

#[test]
fn integer_texts_parse_exactly() {
    assert_eq!(parse_i64_text("0"), Some(0));
    assert_eq!(parse_i64_text("123"), Some(123));
    assert_eq!(parse_i64_text("+7"), Some(7));
    assert_eq!(parse_i64_text("-42"), Some(-42));
    assert_eq!(parse_i64_text("9223372036854775807"), Some(i64::MAX));
    assert_eq!(parse_i64_text("-9223372036854775808"), Some(i64::MIN));
    assert_eq!(parse_i64_text("9223372036854775808"), None);
    assert_eq!(parse_i64_text("-9223372036854775809"), None);
    assert_eq!(parse_i64_text(""), None);
    assert_eq!(parse_i64_text("-"), None);
    assert_eq!(parse_i64_text("12a"), None);
    assert_eq!(parse_i64_text("007"), Some(7));
}
