//! The executable parser, proved against the grammar.
//!
//! A `Parser` owns the source text, the token sequence the external lexer
//! produced over it, and the position of the next unconsumed token.  Every
//! parsing method is proved to return exactly what the corresponding
//! specification function of [`crate::grammar`] describes, and to leave
//! the stream position exactly where that function says.

use vstd::prelude::*;
use vstd::string::{StrSliceExecFns, StringExecFns};
use crate::span::Span;
use crate::token::{Token, TokenKind};
use crate::ast::{
    Expression, ExpressionKind, ExpressionStatement, FunctionArgument, FunctionParameter,
    InfixOperator, Precedence, PrefixOperator, Program, Type,
    ExprKindModel, ExprModel, StmtModel,
    expr_model, stmt_model, type_model, program_model, param_model, arg_model, args_model,
    params_model, stmts_model, opt_type_model,
    lemma_args_model_push, lemma_params_model_push, lemma_stmts_model_push,
};
use crate::error::{Error, ErrorModel, error_model};
use crate::grammar::{
    peek_kind, spec_expect_ident, spec_expect_int, spec_expect_token, spec_parse_type,
    token_precedence, tokens_wf, infix_op_of, spec_parse, spec_parse_program, spec_parse_block,
    spec_parse_statement, spec_parse_expression, spec_infix_loop, spec_parse_infix,
    spec_prefix_parse, spec_parse_int_literal, spec_parse_bool_literal, spec_parse_unit,
    spec_parse_grouped, spec_parse_prefix_expression, spec_parse_variable_declaration,
    spec_parse_function_call, spec_parse_args, spec_parse_argument,
    spec_parse_function_expression, spec_parse_params, spec_parse_parameter,
};
use crate::num::parse_i64_text;

verus! {

/// A stateful single pass over one token stream.
pub struct Parser {
    source: String,
    tokens: Vec<Token>,
    pos: usize,
}

impl Parser {
    /// The source text, as a sequence of characters.
    pub closed spec fn src(self) -> Seq<char> {
        self.source@
    }

    /// The token stream.
    pub closed spec fn toks(self) -> Seq<Token> {
        self.tokens@
    }

    /// The position of the next unconsumed token.
    pub closed spec fn position(self) -> int {
        self.pos as int
    }

    /// The parser's invariant: all token spans lie within the source text
    /// and the position lies within the stream.
    pub open spec fn wf(self) -> bool {
        &&& tokens_wf(self.src(), self.toks())
        &&& 0 <= self.position() <= self.toks().len()
    }

    /// Whether `other` reads the same source and tokens as `self`.
    pub open spec fn same_stream(self, other: Parser) -> bool {
        self.src() == other.src() && self.toks() == other.toks()
    }

    /// Capture the source text and the tokens the lexer produced over it.
    pub fn new(source: &str, tokens: Vec<Token>) -> (p: Parser)
        requires
            tokens_wf(source@, tokens@),
        ensures
            p.wf(),
            p.src() == source@,
            p.toks() == tokens@,
            p.position() == 0,
    {
        Parser { source: source.to_owned(), tokens, pos: 0 }
    }

    /// The kind of the next unconsumed token, without advancing.
    fn peek_kind(&self) -> (k: TokenKind)
        ensures
            k == peek_kind(self.toks(), self.position()),
    {
        if self.pos < self.tokens.len() {
            self.tokens[self.pos].kind
        } else {
            TokenKind::Eof
        }
    }

    /// Consume the next token, if any, and return its kind.
    fn cur_kind(&mut self) -> (k: TokenKind)
        requires
            old(self).wf(),
        ensures
            final(self).wf(),
            old(self).same_stream(*final(self)),
            k == peek_kind(old(self).toks(), old(self).position()),
            final(self).position() == if old(self).position() < old(self).toks().len() {
                old(self).position() + 1
            } else {
                old(self).position()
            },
    {
        if self.pos < self.tokens.len() {
            let k = self.tokens[self.pos].kind;
            self.pos = self.pos + 1;
            k
        } else {
            TokenKind::Eof
        }
    }

    /// The binding strength of the next token.
    fn cur_precedence(&self) -> (p: Precedence)
        ensures
            p == token_precedence(peek_kind(self.toks(), self.position())),
    {
        match self.peek_kind() {
            TokenKind::DoubleEqual | TokenKind::NotEqual => Precedence::Equality,
            TokenKind::LessThan | TokenKind::GreaterThan | TokenKind::LessThanOrEqual
                | TokenKind::GreaterThanOrEqual => Precedence::Comparison,
            TokenKind::Plus | TokenKind::Minus => Precedence::Sum,
            TokenKind::Asterisk | TokenKind::Slash => Precedence::Product,
            TokenKind::LParen => Precedence::Group,
            TokenKind::IntLiteral => Precedence::Group,
            _ => Precedence::Lowest,
        }
    }

    /// Whether the next token is the statement separator.
    fn check_semicolon(&self) -> (b: bool)
        ensures
            b == (peek_kind(self.toks(), self.position()) == TokenKind::Semicolon),
    {
        let k = self.peek_kind();
        k == TokenKind::Semicolon
    }

    /// Consume one token of the given kind and return its span; any other
    /// kind is a mismatch error naming what was required and what was
    /// found, without advancing past the offending token; an exhausted
    /// stream is an unexpected end.
    fn expect_token(&mut self, kind: TokenKind) -> (r: Result<Span, Error>)
        requires
            old(self).wf(),
        ensures
            final(self).wf(),
            old(self).same_stream(*final(self)),
            ({
                let res = spec_expect_token(old(self).toks(), old(self).position(), kind);
                match r {
                    Ok(sp) => res matches Ok(p) && p.0 == sp && p.1 == final(self).position()
                        && final(self).position() == old(self).position() + 1,
                    Err(e) => res matches Err(em) && em == error_model(e)
                        && final(self).position() == old(self).position(),
                }
            }),
    {
        if self.pos >= self.tokens.len() {
            return Err(Error::UnexpectedEof);
        }
        let tok = self.tokens[self.pos];
        if tok.kind != kind {
            let wanted = kind.text();
            let got = tok.kind.text();
            Err(Error::expected(wanted.as_str(), got.as_str()))
        } else {
            self.pos = self.pos + 1;
            Ok(tok.span)
        }
    }

    /// Consume an identifier token and return its text and span.
    fn expect_ident(&mut self) -> (r: Result<(String, Span), Error>)
        requires
            old(self).wf(),
        ensures
            final(self).wf(),
            old(self).same_stream(*final(self)),
            ({
                let res = spec_expect_ident(old(self).src(), old(self).toks(), old(self).position());
                match r {
                    Ok(v) => res matches Ok(p) && p.0.0 == v.0@ && p.0.1 == v.1 && p.1
                        == final(self).position() && final(self).position() == old(self).position() + 1,
                    Err(e) => res matches Err(em) && em == error_model(e)
                        && final(self).position() == old(self).position(),
                }
            }),
    {
        if self.pos >= self.tokens.len() {
            return Err(Error::UnexpectedEof);
        }
        let tok = self.tokens[self.pos];
        if tok.kind != TokenKind::Identifier {
            let t = tok.kind.text();
            return Err(Error::expected("identifier", t.as_str()));
        }
        let text = tok.span.slice(self.source.as_str());
        let name = text.to_owned();
        self.pos = self.pos + 1;
        Ok((name, tok.span))
    }

    /// Consume an integer-literal token and return its value and span.
    fn expect_int(&mut self) -> (r: Result<(i64, Span), Error>)
        requires
            old(self).wf(),
        ensures
            final(self).wf(),
            old(self).same_stream(*final(self)),
            ({
                let res = spec_expect_int(old(self).src(), old(self).toks(), old(self).position());
                match r {
                    Ok(v) => res matches Ok(p) && p.0.0 == v.0 as int && p.0.1 == v.1 && p.1
                        == final(self).position() && final(self).position() == old(self).position() + 1,
                    Err(e) => res matches Err(em) && em == error_model(e)
                        && final(self).position() == old(self).position(),
                }
            }),
    {
        if self.pos >= self.tokens.len() {
            return Err(Error::UnexpectedEof);
        }
        let tok = self.tokens[self.pos];
        if tok.kind != TokenKind::IntLiteral {
            let t = tok.kind.text();
            return Err(Error::expected("int literal", t.as_str()));
        }
        let text = tok.span.slice(self.source.as_str());
        match parse_i64_text(text) {
            Some(num) => {
                self.pos = self.pos + 1;
                Ok((num, tok.span))
            },
            None => Err(Error::syntax_err("invalid integer literal")),
        }
    }

    /// Consume a type: a bare identifier naming it.
    fn parse_type(&mut self) -> (r: Result<Type, Error>)
        requires
            old(self).wf(),
        ensures
            final(self).wf(),
            old(self).same_stream(*final(self)),
            ({
                let res = spec_parse_type(old(self).src(), old(self).toks(), old(self).position());
                match r {
                    Ok(t) => res matches Ok(p) && p.0 == type_model(t) && p.1 == final(self).position()
                        && final(self).position() == old(self).position() + 1,
                    Err(e) => res matches Err(em) && em == error_model(e),
                }
            }),
    {
        let (name, _span) = match self.expect_ident() {
            Ok(v) => v,
            Err(e) => return Err(e),
        };
        Ok(Type::Ident(name))
    }

    /// Parse one statement: an expression at lowest precedence, then an
    /// optional statement separator, whose presence discards the value.
    fn parse_expression_statement(&mut self) -> (r: Result<ExpressionStatement, Error>)
        requires
            old(self).wf(),
        ensures
            final(self).wf(),
            old(self).same_stream(*final(self)),
            ({
                let res = spec_parse_statement(
                    old(self).src(),
                    old(self).toks(),
                    old(self).position(),
                );
                match r {
                    Ok(st) => res matches Ok(p) && p.0 == stmt_model(st) && p.1 == final(self).position() && old(self).position() < final(self).position() <= old(self).toks().len(),
                    Err(e) => res matches Err(em) && em == error_model(e),
                }
            }),
        decreases old(self).toks().len() - old(self).position(), 6int,
    {
        let expr = match self.parse_expression(Precedence::Lowest) {
            Ok(v) => v,
            Err(e) => return Err(e),
        };
        let has_semicolon = self.check_semicolon();
        if has_semicolon {
            let _ = self.cur_kind();
        }
        Ok(ExpressionStatement { expr, discarded: has_semicolon })
    }

    /// Precedence climbing: a prefix expression, then the expression loop.
    fn parse_expression(&mut self, precedence: Precedence) -> (r: Result<Expression, Error>)
        requires
            old(self).wf(),
        ensures
            final(self).wf(),
            old(self).same_stream(*final(self)),
            ({
                let res = spec_parse_expression(
                    old(self).src(),
                    old(self).toks(),
                    old(self).position(),
                    precedence,
                );
                match r {
                    Ok(e) => res matches Ok(p) && p.0 == expr_model(e) && p.1 == final(self).position() && old(self).position() < final(self).position() <= old(self).toks().len(),
                    Err(e) => res matches Err(em) && em == error_model(e),
                }
            }),
        decreases old(self).toks().len() - old(self).position(), 4int,
    {
        let expr = match self.prefix_parse_fn() {
            Ok(v) => v,
            Err(e) => return Err(e),
        };
        self.parse_infix_loop(expr, precedence)
    }

    /// The expression loop: absorb infix operators while the next token
    /// binds strictly tighter than `precedence`.
    fn parse_infix_loop(&mut self, lhs: Expression, precedence: Precedence) -> (r: Result<
        Expression,
        Error,
    >)
        requires
            old(self).wf(),
        ensures
            final(self).wf(),
            old(self).same_stream(*final(self)),
            ({
                let res = spec_infix_loop(
                    old(self).src(),
                    old(self).toks(),
                    old(self).position(),
                    expr_model(lhs),
                    precedence,
                );
                match r {
                    Ok(e) => res matches Ok(p) && p.0 == expr_model(e) && p.1 == final(self).position() && old(self).position() <= final(self).position() <= old(self).toks().len(),
                    Err(e) => res matches Err(em) && em == error_model(e),
                }
            }),
        decreases old(self).toks().len() - old(self).position(), 6int,
    {
        let prec_next = self.cur_precedence();
        if !prec_next.exceeds(precedence) {
            return Ok(lhs);
        }
        let k = self.peek_kind();
        if k == TokenKind::IntLiteral {
            return Err(Error::syntax_err("consecutive ints"));
        }
        if k == TokenKind::Eof {
            return Ok(lhs);
        }
        match infix_op(k) {
            Some((op, op_prec)) => {
                let e2 = match self.parse_infix_expression(lhs, op, op_prec) {
                    Ok(v) => v,
                    Err(e) => return Err(e),
                };
                self.parse_infix_loop(e2, precedence)
            },
            None => {
                let mut m = String::from_str("invalid operator: ");
                let t = k.text();
                m.append(t.as_str());
                Err(Error::syntax_err(m.as_str()))
            },
        }
    }

    /// One infix step: consume the operator, parse the right-hand side at
    /// the operator's own precedence, and fold both operands into an
    /// `Infix` node spanning from the left start to the right end.
    fn parse_infix_expression(
        &mut self,
        lhs: Expression,
        operator: InfixOperator,
        precedence: Precedence,
    ) -> (r: Result<Expression, Error>)
        requires
            old(self).wf(),
        ensures
            final(self).wf(),
            old(self).same_stream(*final(self)),
            ({
                let res = spec_parse_infix(
                    old(self).src(),
                    old(self).toks(),
                    old(self).position(),
                    expr_model(lhs),
                    operator,
                    precedence,
                );
                match r {
                    Ok(e) => res matches Ok(p) && p.0 == expr_model(e) && p.1 == final(self).position() && old(self).position() < final(self).position() <= old(self).toks().len(),
                    Err(e) => res matches Err(em) && em == error_model(e),
                }
            }),
        decreases old(self).toks().len() - old(self).position(), 5int,
    {
        if self.pos < self.tokens.len() {
            self.pos = self.pos + 1;
        }
        let rhs = match self.parse_expression(precedence) {
            Ok(v) => v,
            Err(e) => return Err(e),
        };
        let start_position: usize = lhs.span.start;
        let end_position: usize = rhs.span.end;
        Ok(
            Expression::new(
                ExpressionKind::Infix { left: Box::new(lhs), operator, right: Box::new(rhs) },
                Span::from_range(start_position, end_position),
            ),
        )
    }

    /// Dispatch on the kind of the next token to the prefix form it can
    /// begin; a token that can begin none is an error.
    fn prefix_parse_fn(&mut self) -> (r: Result<Expression, Error>)
        requires
            old(self).wf(),
        ensures
            final(self).wf(),
            old(self).same_stream(*final(self)),
            ({
                let res = spec_prefix_parse(old(self).src(), old(self).toks(), old(self).position());
                match r {
                    Ok(e) => res matches Ok(p) && p.0 == expr_model(e) && p.1 == final(self).position() && old(self).position() < final(self).position() <= old(self).toks().len(),
                    Err(e) => res matches Err(em) && em == error_model(e),
                }
            }),
        decreases old(self).toks().len() - old(self).position(), 3int,
    {
        let peek_token_kind = self.peek_kind();
        match peek_token_kind {
            TokenKind::IntLiteral => self.parse_int_literal(),
            TokenKind::True | TokenKind::False => self.parse_bool_literal(),
            TokenKind::Unit => self.parse_unit(),
            TokenKind::LParen => self.parse_grouped_expression(),
            TokenKind::Identifier => {
                let (name, span) = match self.expect_ident() {
                    Ok(v) => v,
                    Err(e) => return Err(e),
                };
                match self.peek_kind() {
                    TokenKind::Colon => self.parse_variable_declaration(name.as_str(), span.start),
                    TokenKind::LParen => self.parse_function_call(name.as_str(), span.start),
                    _ => self.parse_variable_ident(name.as_str(), span),
                }
            },
            TokenKind::Fun => self.parse_function_expression(),
            TokenKind::ExclamationMark => self.parse_prefix_expression(PrefixOperator::LogicalNot),
            TokenKind::Minus => self.parse_prefix_expression(PrefixOperator::Negative),
            _ => Err(Error::NoPrefixParseFn(peek_token_kind)),
        }
    }

    /// A unary prefix expression: the operator token, then its operand at
    /// prefix precedence.
    fn parse_prefix_expression(&mut self, operator: PrefixOperator) -> (r: Result<Expression, Error>)
        requires
            old(self).wf(),
        ensures
            final(self).wf(),
            old(self).same_stream(*final(self)),
            ({
                let res = spec_parse_prefix_expression(
                    old(self).src(),
                    old(self).toks(),
                    old(self).position(),
                    operator,
                );
                match r {
                    Ok(e) => res matches Ok(p) && p.0 == expr_model(e) && p.1 == final(self).position() && old(self).position() < final(self).position() <= old(self).toks().len(),
                    Err(e) => res matches Err(em) && em == error_model(e),
                }
            }),
        decreases old(self).toks().len() - old(self).position(), 2int,
    {
        let sp = match self.expect_token(
            match operator {
                PrefixOperator::LogicalNot => TokenKind::ExclamationMark,
                PrefixOperator::Negative => TokenKind::Minus,
            },
        ) {
            Ok(v) => v,
            Err(e) => return Err(e),
        };
        let expr = match self.parse_expression(Precedence::Prefix) {
            Ok(v) => v,
            Err(e) => return Err(e),
        };
        let end: usize = expr.span.end;
        Ok(
            Expression::new(
                ExpressionKind::Prefix { operator, expression: Box::new(expr) },
                Span::from_range(sp.start, end),
            ),
        )
    }

    /// An integer-literal expression.
    fn parse_int_literal(&mut self) -> (r: Result<Expression, Error>)
        requires
            old(self).wf(),
        ensures
            final(self).wf(),
            old(self).same_stream(*final(self)),
            ({
                let res = spec_parse_int_literal(
                    old(self).src(),
                    old(self).toks(),
                    old(self).position(),
                );
                match r {
                    Ok(e) => res matches Ok(p) && p.0 == expr_model(e) && p.1 == final(self).position() && old(self).position() < final(self).position() <= old(self).toks().len(),
                    Err(e) => res matches Err(em) && em == error_model(e),
                }
            }),
    {
        let (num, span) = match self.expect_int() {
            Ok(v) => v,
            Err(e) => return Err(e),
        };
        Ok(Expression::new(ExpressionKind::IntLiteral(num), span))
    }

    /// A boolean-literal expression.
    fn parse_bool_literal(&mut self) -> (r: Result<Expression, Error>)
        requires
            old(self).wf(),
        ensures
            final(self).wf(),
            old(self).same_stream(*final(self)),
            ({
                let res = spec_parse_bool_literal(old(self).toks(), old(self).position());
                match r {
                    Ok(e) => res matches Ok(p) && p.0 == expr_model(e) && p.1 == final(self).position() && old(self).position() < final(self).position() <= old(self).toks().len(),
                    Err(e) => res matches Err(em) && em == error_model(e),
                }
            }),
    {
        match self.peek_kind() {
            TokenKind::True => {
                let span = match self.expect_token(TokenKind::True) {
                    Ok(v) => v,
                    Err(e) => return Err(e),
                };
                Ok(Expression::new(ExpressionKind::BoolLiteral(true), span))
            },
            TokenKind::False => {
                let span = match self.expect_token(TokenKind::False) {
                    Ok(v) => v,
                    Err(e) => return Err(e),
                };
                Ok(Expression::new(ExpressionKind::BoolLiteral(false), span))
            },
            k => {
                let t = k.text();
                Err(Error::expected("true or false", t.as_str()))
            },
        }
    }

    /// A unit-literal expression.
    fn parse_unit(&mut self) -> (r: Result<Expression, Error>)
        requires
            old(self).wf(),
        ensures
            final(self).wf(),
            old(self).same_stream(*final(self)),
            ({
                let res = spec_parse_unit(old(self).toks(), old(self).position());
                match r {
                    Ok(e) => res matches Ok(p) && p.0 == expr_model(e) && p.1 == final(self).position() && old(self).position() < final(self).position() <= old(self).toks().len(),
                    Err(e) => res matches Err(em) && em == error_model(e),
                }
            }),
    {
        let span = match self.expect_token(TokenKind::Unit) {
            Ok(v) => v,
            Err(e) => return Err(e),
        };
        Ok(Expression::new(ExpressionKind::Unit, span))
    }

    /// A bare identifier standing for itself.
    fn parse_variable_ident(&mut self, name: &str, span: Span) -> (r: Result<Expression, Error>)
        requires
            old(self).wf(),
        ensures
            final(self).wf(),
            old(self).same_stream(*final(self)),
            final(self).position() == old(self).position(),
            r matches Ok(e) && expr_model(e) == (ExprModel {
                kind: ExprKindModel::Ident(name@),
                span: span,
            }),
    {
        Ok(Expression::new(ExpressionKind::Ident(name.to_owned()), span))
    }

    /// A grouped expression: parentheses re-span the inner expression
    /// without adding a node.
    fn parse_grouped_expression(&mut self) -> (r: Result<Expression, Error>)
        requires
            old(self).wf(),
        ensures
            final(self).wf(),
            old(self).same_stream(*final(self)),
            ({
                let res = spec_parse_grouped(old(self).src(), old(self).toks(), old(self).position());
                match r {
                    Ok(e) => res matches Ok(p) && p.0 == expr_model(e) && p.1 == final(self).position() && old(self).position() < final(self).position() <= old(self).toks().len(),
                    Err(e) => res matches Err(em) && em == error_model(e),
                }
            }),
        decreases old(self).toks().len() - old(self).position(), 2int,
    {
        let lspan = match self.expect_token(TokenKind::LParen) {
            Ok(v) => v,
            Err(e) => return Err(e),
        };
        let expr = match self.parse_expression(Precedence::Lowest) {
            Ok(v) => v,
            Err(e) => return Err(e),
        };
        match self.peek_kind() {
            TokenKind::RParen => {
                let rspan = match self.expect_token(TokenKind::RParen) {
                    Ok(v) => v,
                    Err(e) => return Err(e),
                };
                Ok(Expression::new(expr.kind, Span::from_range(lspan.start, rspan.end)))
            },
            k => {
                let t = k.text();
                Err(Error::expected(")", t.as_str()))
            },
        }
    }

    /// A variable declaration, entered after its name and the sight of a
    /// colon.
    fn parse_variable_declaration(&mut self, name: &str, start_position: usize) -> (r: Result<
        Expression,
        Error,
    >)
        requires
            old(self).wf(),
        ensures
            final(self).wf(),
            old(self).same_stream(*final(self)),
            ({
                let res = spec_parse_variable_declaration(
                    old(self).src(),
                    old(self).toks(),
                    old(self).position(),
                    name@,
                    start_position,
                );
                match r {
                    Ok(e) => res matches Ok(p) && p.0 == expr_model(e) && p.1 == final(self).position() && old(self).position() < final(self).position() <= old(self).toks().len(),
                    Err(e) => res matches Err(em) && em == error_model(e),
                }
            }),
        decreases old(self).toks().len() - old(self).position(), 0int,
    {
        match self.expect_token(TokenKind::Colon) {
            Ok(_) => (),
            Err(e) => return Err(e),
        };
        let mut ty: Option<Type> = None;
        if self.peek_kind() == TokenKind::Identifier {
            ty = match self.parse_type() {
                Ok(t) => Some(t),
                Err(e) => return Err(e),
            };
        }
        let mutable: bool;
        match self.peek_kind() {
            TokenKind::Colon => {
                match self.expect_token(TokenKind::Colon) {
                    Ok(_) => (),
                    Err(e) => return Err(e),
                };
                mutable = false;
            },
            TokenKind::SingleEqual => {
                match self.expect_token(TokenKind::SingleEqual) {
                    Ok(_) => (),
                    Err(e) => return Err(e),
                };
                mutable = true;
            },
            k => {
                let t = k.text();
                return Err(Error::expected(": or =", t.as_str()));
            },
        }
        let value = match self.parse_expression(Precedence::Lowest) {
            Ok(v) => v,
            Err(e) => return Err(e),
        };
        let end_position: usize = value.span.end;
        Ok(
            Expression::new(
                ExpressionKind::VariableDecl {
                    name: name.to_owned(),
                    value: Box::new(value),
                    mutable,
                    ty,
                },
                Span::from_range(start_position, end_position),
            ),
        )
    }

    /// A function call, entered after its name and the sight of an opening
    /// parenthesis.
    fn parse_function_call(&mut self, fn_name: &str, start_position: usize) -> (r: Result<
        Expression,
        Error,
    >)
        requires
            old(self).wf(),
        ensures
            final(self).wf(),
            old(self).same_stream(*final(self)),
            ({
                let res = spec_parse_function_call(
                    old(self).src(),
                    old(self).toks(),
                    old(self).position(),
                    fn_name@,
                    start_position,
                );
                match r {
                    Ok(e) => res matches Ok(p) && p.0 == expr_model(e) && p.1 == final(self).position() && old(self).position() < final(self).position() <= old(self).toks().len(),
                    Err(e) => res matches Err(em) && em == error_model(e),
                }
            }),
        decreases old(self).toks().len() - old(self).position(), 0int,
    {
        match self.expect_token(TokenKind::LParen) {
            Ok(_) => (),
            Err(e) => return Err(e),
        };
        let arguments = match self.parse_function_arguments(Vec::new()) {
            Ok(v) => v,
            Err(e) => return Err(e),
        };
        let end_span = match self.expect_token(TokenKind::RParen) {
            Ok(v) => v,
            Err(e) => return Err(e),
        };
        Ok(
            Expression::new(
                ExpressionKind::FunctionCall { name: fn_name.to_owned(), arguments },
                Span::from_range(start_position, end_span.end),
            ),
        )
    }

    /// Comma-separated call arguments, accumulated until a closing
    /// parenthesis; a trailing comma is tolerated.
    fn parse_function_arguments(&mut self, arguments: Vec<FunctionArgument>) -> (r: Result<
        Vec<FunctionArgument>,
        Error,
    >)
        requires
            old(self).wf(),
        ensures
            final(self).wf(),
            old(self).same_stream(*final(self)),
            ({
                let res = spec_parse_args(
                    old(self).src(),
                    old(self).toks(),
                    old(self).position(),
                    args_model(arguments@),
                );
                match r {
                    Ok(v) => res matches Ok(p) && p.0 == args_model(v@) && p.1 == final(self).position() && old(self).position() <= final(self).position() <= old(self).toks().len(),
                    Err(e) => res matches Err(em) && em == error_model(e),
                }
            }),
        decreases old(self).toks().len() - old(self).position(), 7int,
    {
        if self.peek_kind() == TokenKind::RParen {
            return Ok(arguments);
        }
        let a = match self.parse_function_argument() {
            Ok(v) => v,
            Err(e) => return Err(e),
        };
        let ghost prev = arguments@;
        let mut args2 = arguments;
        args2.push(a);
        proof {
            lemma_args_model_push(prev, args2@[args2@.len() - 1]);
        }
        if self.peek_kind() == TokenKind::Comma {
            match self.expect_token(TokenKind::Comma) {
                Ok(_) => (),
                Err(e) => return Err(e),
            };
            self.parse_function_arguments(args2)
        } else {
            Ok(args2)
        }
    }

    /// One call argument: `label ":" value` when an identifier is directly
    /// followed by a colon, otherwise a full bare expression, which may
    /// itself begin with an identifier or a call.
    fn parse_function_argument(&mut self) -> (r: Result<FunctionArgument, Error>)
        requires
            old(self).wf(),
        ensures
            final(self).wf(),
            old(self).same_stream(*final(self)),
            ({
                let res = spec_parse_argument(
                    old(self).src(),
                    old(self).toks(),
                    old(self).position(),
                );
                match r {
                    Ok(a) => res matches Ok(p) && p.0 == arg_model(a) && p.1 == final(self).position() && old(self).position() < final(self).position() <= old(self).toks().len(),
                    Err(e) => res matches Err(em) && em == error_model(e),
                }
            }),
        decreases old(self).toks().len() - old(self).position(), 6int,
    {
        if self.pos >= self.tokens.len() {
            return Err(Error::UnexpectedEof);
        }
        let tok = self.tokens[self.pos];
        if tok.kind == TokenKind::Identifier {
            let (name, _sp) = match self.expect_ident() {
                Ok(v) => v,
                Err(e) => return Err(e),
            };
            if self.peek_kind() == TokenKind::Colon {
                match self.expect_token(TokenKind::Colon) {
                    Ok(_) => (),
                    Err(e) => return Err(e),
                };
                let value = match self.parse_expression(Precedence::Lowest) {
                    Ok(v) => v,
                    Err(e) => return Err(e),
                };
                Ok(FunctionArgument { label: Some(name), value })
            } else {
                let head = if self.peek_kind() == TokenKind::LParen {
                    match self.parse_function_call(name.as_str(), tok.span.start) {
                        Ok(v) => v,
                        Err(e) => return Err(e),
                    }
                } else {
                    Expression::new(ExpressionKind::Ident(name), tok.span)
                };
                let value = match self.parse_infix_loop(head, Precedence::Lowest) {
                    Ok(v) => v,
                    Err(e) => return Err(e),
                };
                Ok(FunctionArgument { label: None, value })
            }
        } else {
            let value = match self.parse_expression(Precedence::Lowest) {
                Ok(v) => v,
                Err(e) => return Err(e),
            };
            Ok(FunctionArgument { label: None, value })
        }
    }

    /// A function literal: `fun`, a parenthesised parameter list, an
    /// optional return type, and a brace-delimited body.
    fn parse_function_expression(&mut self) -> (r: Result<Expression, Error>)
        requires
            old(self).wf(),
        ensures
            final(self).wf(),
            old(self).same_stream(*final(self)),
            ({
                let res = spec_parse_function_expression(
                    old(self).src(),
                    old(self).toks(),
                    old(self).position(),
                );
                match r {
                    Ok(e) => res matches Ok(p) && p.0 == expr_model(e) && p.1 == final(self).position() && old(self).position() < final(self).position() <= old(self).toks().len(),
                    Err(e) => res matches Err(em) && em == error_model(e),
                }
            }),
        decreases old(self).toks().len() - old(self).position(), 1int,
    {
        let start_span = match self.expect_token(TokenKind::Fun) {
            Ok(v) => v,
            Err(e) => return Err(e),
        };
        match self.expect_token(TokenKind::LParen) {
            Ok(_) => (),
            Err(e) => return Err(e),
        };
        let parameters = match self.parse_function_parameters(Vec::new()) {
            Ok(v) => v,
            Err(e) => return Err(e),
        };
        match self.expect_token(TokenKind::RParen) {
            Ok(_) => (),
            Err(e) => return Err(e),
        };
        let mut return_type: Option<Type> = None;
        if self.peek_kind() == TokenKind::Identifier {
            return_type = match self.parse_type() {
                Ok(t) => Some(t),
                Err(e) => return Err(e),
            };
        }
        match self.expect_token(TokenKind::LBrace) {
            Ok(_) => (),
            Err(e) => return Err(e),
        };
        let body = match self.parse_block_statements(Vec::new()) {
            Ok(v) => v,
            Err(e) => return Err(e),
        };
        let end_span = match self.expect_token(TokenKind::RBrace) {
            Ok(v) => v,
            Err(e) => return Err(e),
        };
        Ok(
            Expression::new(
                ExpressionKind::Function { parameters, return_type, body },
                Span::from_range(start_span.start, end_span.end),
            ),
        )
    }

    /// Comma-separated parameters, accumulated until a closing
    /// parenthesis; a trailing comma is tolerated.
    fn parse_function_parameters(&mut self, parameters: Vec<FunctionParameter>) -> (r: Result<
        Vec<FunctionParameter>,
        Error,
    >)
        requires
            old(self).wf(),
        ensures
            final(self).wf(),
            old(self).same_stream(*final(self)),
            ({
                let res = spec_parse_params(
                    old(self).src(),
                    old(self).toks(),
                    old(self).position(),
                    params_model(parameters@),
                );
                match r {
                    Ok(v) => res matches Ok(p) && p.0 == params_model(v@) && p.1 == final(self).position() && old(self).position() <= final(self).position() <= old(self).toks().len(),
                    Err(e) => res matches Err(em) && em == error_model(e),
                }
            }),
        decreases old(self).toks().len() - old(self).position(), 2int,
    {
        if self.peek_kind() == TokenKind::RParen {
            return Ok(parameters);
        }
        let p = match self.parse_function_parameter() {
            Ok(v) => v,
            Err(e) => return Err(e),
        };
        let ghost prev = parameters@;
        let mut params2 = parameters;
        params2.push(p);
        proof {
            lemma_params_model_push(prev, params2@[params2@.len() - 1]);
        }
        if self.peek_kind() == TokenKind::Comma {
            match self.expect_token(TokenKind::Comma) {
                Ok(_) => (),
                Err(e) => return Err(e),
            };
            self.parse_function_parameters(params2)
        } else {
            Ok(params2)
        }
    }

    /// One parameter: `~ name ":" type`, `name ":" type`, or
    /// `external internal ":" type`.
    fn parse_function_parameter(&mut self) -> (r: Result<FunctionParameter, Error>)
        requires
            old(self).wf(),
        ensures
            final(self).wf(),
            old(self).same_stream(*final(self)),
            ({
                let res = spec_parse_parameter(
                    old(self).src(),
                    old(self).toks(),
                    old(self).position(),
                );
                match r {
                    Ok(p0) => res matches Ok(p) && p.0 == param_model(p0) && p.1 == final(self).position() && old(self).position() < final(self).position() <= old(self).toks().len(),
                    Err(e) => res matches Err(em) && em == error_model(e),
                }
            }),
    {
        match self.peek_kind() {
            TokenKind::Tilde => {
                match self.expect_token(TokenKind::Tilde) {
                    Ok(_) => (),
                    Err(e) => return Err(e),
                };
                let (name, _sp) = match self.expect_ident() {
                    Ok(v) => v,
                    Err(e) => return Err(e),
                };
                match self.expect_token(TokenKind::Colon) {
                    Ok(_) => (),
                    Err(e) => return Err(e),
                };
                let ty = match self.parse_type() {
                    Ok(v) => v,
                    Err(e) => return Err(e),
                };
                Ok(FunctionParameter::UnlabeledAtCallsite { name, ty })
            },
            TokenKind::Identifier => {
                let (first, _sp) = match self.expect_ident() {
                    Ok(v) => v,
                    Err(e) => return Err(e),
                };
                let mut second: Option<String> = None;
                if self.peek_kind() == TokenKind::Identifier {
                    let (name2, _sp2) = match self.expect_ident() {
                        Ok(v) => v,
                        Err(e) => return Err(e),
                    };
                    second = Some(name2);
                }
                match self.expect_token(TokenKind::Colon) {
                    Ok(_) => (),
                    Err(e) => return Err(e),
                };
                let ty = match self.parse_type() {
                    Ok(v) => v,
                    Err(e) => return Err(e),
                };
                match second {
                    Some(second_ident) => Ok(
                        FunctionParameter::LabeledAtCallsite {
                            internal_name: second_ident,
                            external_name: Some(first),
                            ty,
                        },
                    ),
                    None => Ok(
                        FunctionParameter::LabeledAtCallsite {
                            internal_name: first,
                            external_name: None,
                            ty,
                        },
                    ),
                }
            },
            k => {
                let t = k.text();
                Err(Error::expected("parameter name", t.as_str()))
            },
        }
    }

    /// Statements accumulated until a closing brace: a function body.
    fn parse_block_statements(&mut self, stmts: Vec<ExpressionStatement>) -> (r: Result<
        Vec<ExpressionStatement>,
        Error,
    >)
        requires
            old(self).wf(),
        ensures
            final(self).wf(),
            old(self).same_stream(*final(self)),
            ({
                let res = spec_parse_block(
                    old(self).src(),
                    old(self).toks(),
                    old(self).position(),
                    stmts_model(stmts@),
                );
                match r {
                    Ok(v) => res matches Ok(p) && p.0 == stmts_model(v@) && p.1 == final(self).position() && old(self).position() <= final(self).position() <= old(self).toks().len(),
                    Err(e) => res matches Err(em) && em == error_model(e),
                }
            }),
        decreases old(self).toks().len() - old(self).position(), 7int,
    {
        if self.peek_kind() == TokenKind::RBrace {
            return Ok(stmts);
        }
        let st = match self.parse_expression_statement() {
            Ok(v) => v,
            Err(e) => return Err(e),
        };
        let ghost prev = stmts@;
        let mut acc = stmts;
        acc.push(st);
        proof {
            lemma_stmts_model_push(prev, acc@[acc@.len() - 1]);
        }
        self.parse_block_statements(acc)
    }

    /// Statements accumulated until the token stream is exhausted.
    fn parse_program_statements(&mut self, stmts: Vec<ExpressionStatement>) -> (r: Result<
        Vec<ExpressionStatement>,
        Error,
    >)
        requires
            old(self).wf(),
        ensures
            final(self).wf(),
            old(self).same_stream(*final(self)),
            ({
                let res = spec_parse_program(
                    old(self).src(),
                    old(self).toks(),
                    old(self).position(),
                    stmts_model(stmts@),
                );
                match r {
                    Ok(v) => res matches Ok(p) && p.0 == stmts_model(v@) && p.1 == final(self).position() && old(self).position() <= final(self).position() <= old(self).toks().len(),
                    Err(e) => res matches Err(em) && em == error_model(e),
                }
            }),
        decreases old(self).toks().len() - old(self).position(), 7int,
    {
        if self.pos >= self.tokens.len() {
            return Ok(stmts);
        }
        let st = match self.parse_expression_statement() {
            Ok(v) => v,
            Err(e) => return Err(e),
        };
        let ghost prev = stmts@;
        let mut acc = stmts;
        acc.push(st);
        proof {
            lemma_stmts_model_push(prev, acc@[acc@.len() - 1]);
        }
        self.parse_program_statements(acc)
    }

    /// Consume the entire token stream and return the parsed program, or
    /// the first error encountered.
    pub fn parse(&mut self) -> (r: Result<Program, Error>)
        requires
            old(self).wf(),
        ensures
            final(self).wf(),
            old(self).same_stream(*final(self)),
            ({
                let res = spec_parse_program(
                    old(self).src(),
                    old(self).toks(),
                    old(self).position(),
                    Seq::empty(),
                );
                match r {
                    Ok(prog) => res matches Ok(p) && p.0 == program_model(prog) && p.1 == final(self).position(),
                    Err(e) => res matches Err(em) && em == error_model(e),
                }
            }),
            old(self).position() == 0 ==> (match r {
                Ok(prog) => spec_parse(old(self).src(), old(self).toks()) == Ok::<
                    Seq<StmtModel>,
                    ErrorModel,
                >(program_model(prog)),
                Err(e) => spec_parse(old(self).src(), old(self).toks()) == Err::<
                    Seq<StmtModel>,
                    ErrorModel,
                >(error_model(e)),
            }),
    {
        let stmts = match self.parse_program_statements(Vec::new()) {
            Ok(v) => v,
            Err(e) => return Err(e),
        };
        Ok(Program(stmts))
    }
}

/// The infix operator a token denotes, with that operator's precedence.
fn infix_op(k: TokenKind) -> (r: Option<(InfixOperator, Precedence)>)
    ensures
        r == infix_op_of(k),
{
    match k {
        TokenKind::Plus => Some((InfixOperator::Plus, Precedence::Sum)),
        TokenKind::Minus => Some((InfixOperator::Minus, Precedence::Sum)),
        TokenKind::Asterisk => Some((InfixOperator::Multiply, Precedence::Product)),
        TokenKind::Slash => Some((InfixOperator::Divide, Precedence::Product)),
        TokenKind::GreaterThan => Some((InfixOperator::GreaterThan, Precedence::Comparison)),
        TokenKind::LessThan => Some((InfixOperator::LessThan, Precedence::Comparison)),
        TokenKind::GreaterThanOrEqual => Some(
            (InfixOperator::GreaterThanOrEqual, Precedence::Comparison),
        ),
        TokenKind::LessThanOrEqual => Some((InfixOperator::LessThanOrEqual, Precedence::Comparison)),
        TokenKind::DoubleEqual => Some((InfixOperator::Equal, Precedence::Equality)),
        TokenKind::NotEqual => Some((InfixOperator::NotEqual, Precedence::Equality)),
        _ => None,
    }
}

} // verus!
