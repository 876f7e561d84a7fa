//! The token vocabulary handed over by the external lexer.

use vstd::prelude::*;
use vstd::string::StringExecFns;
use crate::span::Span;

verus! {

/// The closed set of lexical token kinds.  `Eof` is the end-of-input
/// sentinel: the lexer never emits it, the parser reports it when it peeks
/// past the last token.
#[derive(Clone, Copy, PartialEq, Eq, Structural, Debug)]
pub enum TokenKind {
    IntLiteral,
    True,
    False,
    Unit,
    Identifier,
    Fun,
    LParen,
    RParen,
    LBrace,
    RBrace,
    Comma,
    Colon,
    Semicolon,
    Tilde,
    ExclamationMark,
    Plus,
    Minus,
    Asterisk,
    Slash,
    GreaterThan,
    LessThan,
    GreaterThanOrEqual,
    LessThanOrEqual,
    DoubleEqual,
    NotEqual,
    SingleEqual,
    Eof,
}

/// One lexical token: a kind together with the span of source text it
/// covers.  Literal and identifier tokens carry no payload; their text is
/// recovered by slicing the source with the span.
#[derive(Clone, Copy, PartialEq, Eq, Structural, Debug)]
pub struct Token {
    pub kind: TokenKind,
    pub span: Span,
}

/// The display text of a token kind, used in error messages.
pub open spec fn kind_text(k: TokenKind) -> Seq<char> {
    match k {
        TokenKind::IntLiteral => "int literal"@,
        TokenKind::True => "true"@,
        TokenKind::False => "false"@,
        TokenKind::Unit => "()"@,
        TokenKind::Identifier => "identifier"@,
        TokenKind::Fun => "fun"@,
        TokenKind::LParen => "("@,
        TokenKind::RParen => ")"@,
        TokenKind::LBrace => "{"@,
        TokenKind::RBrace => "}"@,
        TokenKind::Comma => ","@,
        TokenKind::Colon => ":"@,
        TokenKind::Semicolon => ";"@,
        TokenKind::Tilde => "~"@,
        TokenKind::ExclamationMark => "!"@,
        TokenKind::Plus => "+"@,
        TokenKind::Minus => "-"@,
        TokenKind::Asterisk => "*"@,
        TokenKind::Slash => "/"@,
        TokenKind::GreaterThan => ">"@,
        TokenKind::LessThan => "<"@,
        TokenKind::GreaterThanOrEqual => ">="@,
        TokenKind::LessThanOrEqual => "<="@,
        TokenKind::DoubleEqual => "=="@,
        TokenKind::NotEqual => "!="@,
        TokenKind::SingleEqual => "="@,
        TokenKind::Eof => "end of input"@,
    }
}

impl TokenKind {
    /// The display text of this kind, as an owned string.
    pub fn text(&self) -> (r: String)
        ensures
            r@ == kind_text(*self),
    {
        match self {
            TokenKind::IntLiteral => String::from_str("int literal"),
            TokenKind::True => String::from_str("true"),
            TokenKind::False => String::from_str("false"),
            TokenKind::Unit => String::from_str("()"),
            TokenKind::Identifier => String::from_str("identifier"),
            TokenKind::Fun => String::from_str("fun"),
            TokenKind::LParen => String::from_str("("),
            TokenKind::RParen => String::from_str(")"),
            TokenKind::LBrace => String::from_str("{"),
            TokenKind::RBrace => String::from_str("}"),
            TokenKind::Comma => String::from_str(","),
            TokenKind::Colon => String::from_str(":"),
            TokenKind::Semicolon => String::from_str(";"),
            TokenKind::Tilde => String::from_str("~"),
            TokenKind::ExclamationMark => String::from_str("!"),
            TokenKind::Plus => String::from_str("+"),
            TokenKind::Minus => String::from_str("-"),
            TokenKind::Asterisk => String::from_str("*"),
            TokenKind::Slash => String::from_str("/"),
            TokenKind::GreaterThan => String::from_str(">"),
            TokenKind::LessThan => String::from_str("<"),
            TokenKind::GreaterThanOrEqual => String::from_str(">="),
            TokenKind::LessThanOrEqual => String::from_str("<="),
            TokenKind::DoubleEqual => String::from_str("=="),
            TokenKind::NotEqual => String::from_str("!="),
            TokenKind::SingleEqual => String::from_str("="),
            TokenKind::Eof => String::from_str("end of input"),
        }
    }
}

} // verus!
