//! The grammar, written down as specification functions.
//!
//! Each function takes the source text (for slicing literal and identifier
//! spans), the token sequence, and the position of the next unconsumed
//! token, and returns either a parsed model value together with the next
//! position, or the first error, exactly as the executable parser does.
//! The executable functions in [`crate::parser`] are proved to return
//! precisely what these functions describe.
//!
//! The recursion is justified lexicographically: every recursive step
//! either consumes at least one token or moves to a function of strictly
//! smaller rank at the same position.  The few places where progress of a
//! sub-parse cannot be seen syntactically are guarded by an explicit
//! progress test; a successful sub-parse always consumes at least one
//! token, so the guard's failure branch (an arbitrary `NoToken` error) is
//! never reached from a real parse.

use vstd::prelude::*;
use crate::span::Span;
use crate::token::{Token, TokenKind, kind_text};
use crate::ast::{
    ArgModel, ExprKindModel, ExprModel, InfixOperator, ParamModel, Precedence, PrefixOperator,
    StmtModel, TypeModel,
};
use crate::error::{ErrorModel, expected_err, syntax_err};
use crate::num::{is_i64_text, int_text_value};

verus! {

/// One parsing step: a value and the position after it, or an error.
pub type Step<T> = Result<(T, int), ErrorModel>;

/// Every token span is a non-decreasing range within the source text.
pub open spec fn tokens_wf(src: Seq<char>, toks: Seq<Token>) -> bool {
    forall|i: int|
        0 <= i < toks.len() ==> (#[trigger] toks[i]).span.wf() && toks[i].span.end <= src.len()
}

/// The kind of the next unconsumed token, or the end-of-input sentinel.
pub open spec fn peek_kind(toks: Seq<Token>, pos: int) -> TokenKind {
    if 0 <= pos < toks.len() {
        toks[pos].kind
    } else {
        TokenKind::Eof
    }
}

/// The binding strength a token has when it follows an expression.
///
/// An integer literal is ranked at grouping strength even though it can
/// never continue an expression: the expression loop then always stops on
/// it and reports the juxtaposition of two literals as a syntax error
/// instead of silently ending the expression.
pub open spec fn token_precedence(k: TokenKind) -> Precedence {
    match k {
        TokenKind::DoubleEqual => Precedence::Equality,
        TokenKind::NotEqual => Precedence::Equality,
        TokenKind::LessThan => Precedence::Comparison,
        TokenKind::GreaterThan => Precedence::Comparison,
        TokenKind::LessThanOrEqual => Precedence::Comparison,
        TokenKind::GreaterThanOrEqual => Precedence::Comparison,
        TokenKind::Plus => Precedence::Sum,
        TokenKind::Minus => Precedence::Sum,
        TokenKind::Asterisk => Precedence::Product,
        TokenKind::Slash => Precedence::Product,
        TokenKind::LParen => Precedence::Group,
        TokenKind::IntLiteral => Precedence::Group,
        _ => Precedence::Lowest,
    }
}

/// The infix operator a token denotes, with the operator's own precedence,
/// or nothing if the token is no binary operator.
pub open spec fn infix_op_of(k: TokenKind) -> Option<(InfixOperator, Precedence)> {
    match k {
        TokenKind::Plus => Some((InfixOperator::Plus, Precedence::Sum)),
        TokenKind::Minus => Some((InfixOperator::Minus, Precedence::Sum)),
        TokenKind::Asterisk => Some((InfixOperator::Multiply, Precedence::Product)),
        TokenKind::Slash => Some((InfixOperator::Divide, Precedence::Product)),
        TokenKind::GreaterThan => Some((InfixOperator::GreaterThan, Precedence::Comparison)),
        TokenKind::LessThan => Some((InfixOperator::LessThan, Precedence::Comparison)),
        TokenKind::GreaterThanOrEqual => Some(
            (InfixOperator::GreaterThanOrEqual, Precedence::Comparison),
        ),
        TokenKind::LessThanOrEqual => Some(
            (InfixOperator::LessThanOrEqual, Precedence::Comparison),
        ),
        TokenKind::DoubleEqual => Some((InfixOperator::Equal, Precedence::Equality)),
        TokenKind::NotEqual => Some((InfixOperator::NotEqual, Precedence::Equality)),
        _ => None,
    }
}

/// The text a span denotes.
pub open spec fn span_text(src: Seq<char>, sp: Span) -> Seq<char> {
    src.subrange(sp.start as int, sp.end as int)
}

/// Consume one token of the given kind and return its span; any other
/// kind is a mismatch error naming what was required and what was found.
pub open spec fn spec_expect_token(toks: Seq<Token>, pos: int, kind: TokenKind) -> Step<Span> {
    if !(0 <= pos < toks.len()) {
        Err(ErrorModel::UnexpectedEof)
    } else if toks[pos].kind != kind {
        Err(expected_err(kind_text(kind), kind_text(toks[pos].kind)))
    } else {
        Ok((toks[pos].span, pos + 1))
    }
}

/// Consume an identifier token and return its text and span.
pub open spec fn spec_expect_ident(src: Seq<char>, toks: Seq<Token>, pos: int) -> Step<
    (Seq<char>, Span),
> {
    if !(0 <= pos < toks.len()) {
        Err(ErrorModel::UnexpectedEof)
    } else if toks[pos].kind != TokenKind::Identifier {
        Err(expected_err("identifier"@, kind_text(toks[pos].kind)))
    } else {
        Ok(((span_text(src, toks[pos].span), toks[pos].span), pos + 1))
    }
}

/// Consume an integer-literal token and return its value and span.  A
/// literal whose text does not denote a 64-bit integer is a syntax error.
pub open spec fn spec_expect_int(src: Seq<char>, toks: Seq<Token>, pos: int) -> Step<(int, Span)> {
    if !(0 <= pos < toks.len()) {
        Err(ErrorModel::UnexpectedEof)
    } else if toks[pos].kind != TokenKind::IntLiteral {
        Err(expected_err("int literal"@, kind_text(toks[pos].kind)))
    } else if is_i64_text(span_text(src, toks[pos].span)) {
        Ok(((int_text_value(span_text(src, toks[pos].span)), toks[pos].span), pos + 1))
    } else {
        Err(syntax_err("invalid integer literal"@))
    }
}

/// Consume a type: a bare identifier naming the type.
pub open spec fn spec_parse_type(src: Seq<char>, toks: Seq<Token>, pos: int) -> Step<TypeModel> {
    match spec_expect_ident(src, toks, pos) {
        Err(e) => Err(e),
        Ok(((name, _sp), pos2)) => Ok((TypeModel::Ident(name), pos2)),
    }
}

/// Consume one function parameter: `~ name ":" type` for a positional
/// parameter, `name ":" type` or `external internal ":" type` for a
/// labeled one.
pub open spec fn spec_parse_parameter(src: Seq<char>, toks: Seq<Token>, pos: int) -> Step<
    ParamModel,
> {
    match peek_kind(toks, pos) {
        TokenKind::Tilde => match spec_expect_token(toks, pos, TokenKind::Tilde) {
            Err(e) => Err(e),
            Ok((_, pos2)) => match spec_expect_ident(src, toks, pos2) {
                Err(e) => Err(e),
                Ok(((name, _), pos3)) => match spec_expect_token(toks, pos3, TokenKind::Colon) {
                    Err(e) => Err(e),
                    Ok((_, pos4)) => match spec_parse_type(src, toks, pos4) {
                        Err(e) => Err(e),
                        Ok((ty, pos5)) => Ok((ParamModel::Unlabeled { name, ty }, pos5)),
                    },
                },
            },
        },
        TokenKind::Identifier => match spec_expect_ident(src, toks, pos) {
            Err(e) => Err(e),
            Ok(((first, _), pos2)) => {
                let second: Step<Option<Seq<char>>> = if peek_kind(toks, pos2)
                    == TokenKind::Identifier {
                    match spec_expect_ident(src, toks, pos2) {
                        Err(e) => Err(e),
                        Ok(((name, _), pos3)) => Ok((Some(name), pos3)),
                    }
                } else {
                    Ok((None, pos2))
                };
                match second {
                    Err(e) => Err(e),
                    Ok((second_name, pos3)) => match spec_expect_token(
                        toks,
                        pos3,
                        TokenKind::Colon,
                    ) {
                        Err(e) => Err(e),
                        Ok((_, pos4)) => match spec_parse_type(src, toks, pos4) {
                            Err(e) => Err(e),
                            Ok((ty, pos5)) => Ok(
                                (
                                    ParamModel::Labeled {
                                        internal_name: match second_name {
                                            Some(n) => n,
                                            None => first,
                                        },
                                        external_name: match second_name {
                                            Some(_) => Some(first),
                                            None => None,
                                        },
                                        ty,
                                    },
                                    pos5,
                                ),
                            ),
                        },
                    },
                }
            },
        },
        k => Err(expected_err("parameter name"@, kind_text(k))),
    }
}

/// Parse a full program: statements until the token stream is exhausted.
pub open spec fn spec_parse_program(
    src: Seq<char>,
    toks: Seq<Token>,
    pos: int,
    acc: Seq<StmtModel>,
) -> Step<Seq<StmtModel>>
    decreases toks.len() - pos, 7int,
{
    if !(0 <= pos <= toks.len()) {
        Err(ErrorModel::NoToken)
    } else if pos == toks.len() {
        Ok((acc, pos))
    } else {
        match spec_parse_statement(src, toks, pos) {
            Err(e) => Err(e),
            Ok((st, pos2)) => if pos < pos2 <= toks.len() {
                spec_parse_program(src, toks, pos2, acc.push(st))
            } else {
                Err(ErrorModel::NoToken)
            },
        }
    }
}

/// Parse statements until a closing brace: the body of a function literal.
pub open spec fn spec_parse_block(
    src: Seq<char>,
    toks: Seq<Token>,
    pos: int,
    acc: Seq<StmtModel>,
) -> Step<Seq<StmtModel>>
    decreases toks.len() - pos, 7int,
{
    if !(0 <= pos <= toks.len()) {
        Err(ErrorModel::NoToken)
    } else if peek_kind(toks, pos) == TokenKind::RBrace {
        Ok((acc, pos))
    } else {
        match spec_parse_statement(src, toks, pos) {
            Err(e) => Err(e),
            Ok((st, pos2)) => if pos < pos2 <= toks.len() {
                spec_parse_block(src, toks, pos2, acc.push(st))
            } else {
                Err(ErrorModel::NoToken)
            },
        }
    }
}

/// Parse one statement: an expression, then an optional statement
/// separator, whose presence discards the statement's value.
pub open spec fn spec_parse_statement(src: Seq<char>, toks: Seq<Token>, pos: int) -> Step<StmtModel>
    decreases toks.len() - pos, 6int,
{
    if !(0 <= pos <= toks.len()) {
        Err(ErrorModel::NoToken)
    } else {
        match spec_parse_expression(src, toks, pos, Precedence::Lowest) {
            Err(e) => Err(e),
            Ok((em, pos2)) => {
                let discarded = peek_kind(toks, pos2) == TokenKind::Semicolon;
                Ok(
                    (
                        StmtModel { expr: em, discarded },
                        if discarded {
                            pos2 + 1
                        } else {
                            pos2
                        },
                    ),
                )
            },
        }
    }
}

/// Precedence climbing: parse a prefix expression, then absorb infix
/// operators while the next token binds strictly tighter than
/// `min_prec`.
pub open spec fn spec_parse_expression(
    src: Seq<char>,
    toks: Seq<Token>,
    pos: int,
    min_prec: Precedence,
) -> Step<ExprModel>
    decreases toks.len() - pos, 4int,
{
    if !(0 <= pos <= toks.len()) {
        Err(ErrorModel::NoToken)
    } else {
        match spec_prefix_parse(src, toks, pos) {
            Err(e) => Err(e),
            Ok((em, pos2)) => if pos < pos2 <= toks.len() {
                spec_infix_loop(src, toks, pos2, em, min_prec)
            } else {
                Err(ErrorModel::NoToken)
            },
        }
    }
}

/// The expression loop: while the next token binds strictly tighter than
/// `min_prec`, it must be a binary operator; fold it and its right-hand
/// side into an `Infix` node.  A further integer literal there is the
/// consecutive-literal syntax error.
pub open spec fn spec_infix_loop(
    src: Seq<char>,
    toks: Seq<Token>,
    pos: int,
    lhs: ExprModel,
    min_prec: Precedence,
) -> Step<ExprModel>
    decreases toks.len() - pos, 6int,
{
    if !(0 <= pos <= toks.len()) {
        Err(ErrorModel::NoToken)
    } else if !token_precedence(peek_kind(toks, pos)).spec_exceeds(min_prec) {
        Ok((lhs, pos))
    } else {
        let k = peek_kind(toks, pos);
        if k == TokenKind::IntLiteral {
            Err(syntax_err("consecutive ints"@))
        } else if k == TokenKind::Eof {
            Ok((lhs, pos))
        } else {
            match infix_op_of(k) {
                Some((op, op_prec)) => match spec_parse_infix(src, toks, pos, lhs, op, op_prec) {
                    Err(e) => Err(e),
                    Ok((em, pos2)) => if pos < pos2 <= toks.len() {
                        spec_infix_loop(src, toks, pos2, em, min_prec)
                    } else {
                        Err(ErrorModel::NoToken)
                    },
                },
                None => Err(syntax_err("invalid operator: "@ + kind_text(k))),
            }
        }
    }
}

/// One infix step: consume the operator, parse the right-hand side at the
/// operator's own precedence, and span the node from the left operand's
/// start to the right operand's end.
pub open spec fn spec_parse_infix(
    src: Seq<char>,
    toks: Seq<Token>,
    pos: int,
    lhs: ExprModel,
    op: InfixOperator,
    op_prec: Precedence,
) -> Step<ExprModel>
    decreases toks.len() - pos, 5int,
{
    if !(0 <= pos <= toks.len()) {
        Err(ErrorModel::NoToken)
    } else {
        let pos2 = if pos < toks.len() {
            pos + 1
        } else {
            pos
        };
        match spec_parse_expression(src, toks, pos2, op_prec) {
            Err(e) => Err(e),
            Ok((rhs, pos3)) => Ok(
                (
                    ExprModel {
                        kind: ExprKindModel::Infix {
                            left: Box::new(lhs),
                            operator: op,
                            right: Box::new(rhs),
                        },
                        span: Span { start: lhs.span.start, end: rhs.span.end },
                    },
                    pos3,
                ),
            ),
        }
    }
}

/// Dispatch on the kind of the next token to the prefix form it can begin.
pub open spec fn spec_prefix_parse(src: Seq<char>, toks: Seq<Token>, pos: int) -> Step<ExprModel>
    decreases toks.len() - pos, 3int,
{
    if !(0 <= pos <= toks.len()) {
        Err(ErrorModel::NoToken)
    } else {
        match peek_kind(toks, pos) {
            TokenKind::IntLiteral => spec_parse_int_literal(src, toks, pos),
            TokenKind::True => spec_parse_bool_literal(toks, pos),
            TokenKind::False => spec_parse_bool_literal(toks, pos),
            TokenKind::Unit => spec_parse_unit(toks, pos),
            TokenKind::LParen => spec_parse_grouped(src, toks, pos),
            TokenKind::Identifier => match spec_expect_ident(src, toks, pos) {
                Err(e) => Err(e),
                Ok(((name, sp), pos2)) => match peek_kind(toks, pos2) {
                    TokenKind::Colon => spec_parse_variable_declaration(
                        src,
                        toks,
                        pos2,
                        name,
                        sp.start,
                    ),
                    TokenKind::LParen => spec_parse_function_call(src, toks, pos2, name, sp.start),
                    _ => Ok((ExprModel { kind: ExprKindModel::Ident(name), span: sp }, pos2)),
                },
            },
            TokenKind::Fun => spec_parse_function_expression(src, toks, pos),
            TokenKind::ExclamationMark => spec_parse_prefix_expression(
                src,
                toks,
                pos,
                PrefixOperator::LogicalNot,
            ),
            TokenKind::Minus => spec_parse_prefix_expression(
                src,
                toks,
                pos,
                PrefixOperator::Negative,
            ),
            k => Err(ErrorModel::NoPrefixParseFn(k)),
        }
    }
}

/// An integer-literal expression.
pub open spec fn spec_parse_int_literal(src: Seq<char>, toks: Seq<Token>, pos: int) -> Step<
    ExprModel,
>
    decreases toks.len() - pos, 2int,
{
    if !(0 <= pos <= toks.len()) {
        Err(ErrorModel::NoToken)
    } else {
        match spec_expect_int(src, toks, pos) {
            Err(e) => Err(e),
            Ok(((v, sp), pos2)) => Ok(
                (ExprModel { kind: ExprKindModel::IntLiteral(v), span: sp }, pos2),
            ),
        }
    }
}

/// A boolean-literal expression.
pub open spec fn spec_parse_bool_literal(toks: Seq<Token>, pos: int) -> Step<ExprModel>
    decreases toks.len() - pos, 2int,
{
    if !(0 <= pos <= toks.len()) {
        Err(ErrorModel::NoToken)
    } else {
        match peek_kind(toks, pos) {
            TokenKind::True => match spec_expect_token(toks, pos, TokenKind::True) {
                Err(e) => Err(e),
                Ok((sp, pos2)) => Ok(
                    (ExprModel { kind: ExprKindModel::BoolLiteral(true), span: sp }, pos2),
                ),
            },
            TokenKind::False => match spec_expect_token(toks, pos, TokenKind::False) {
                Err(e) => Err(e),
                Ok((sp, pos2)) => Ok(
                    (ExprModel { kind: ExprKindModel::BoolLiteral(false), span: sp }, pos2),
                ),
            },
            k => Err(expected_err("true or false"@, kind_text(k))),
        }
    }
}

/// A unit-literal expression.
pub open spec fn spec_parse_unit(toks: Seq<Token>, pos: int) -> Step<ExprModel>
    decreases toks.len() - pos, 2int,
{
    if !(0 <= pos <= toks.len()) {
        Err(ErrorModel::NoToken)
    } else {
        match spec_expect_token(toks, pos, TokenKind::Unit) {
            Err(e) => Err(e),
            Ok((sp, pos2)) => Ok((ExprModel { kind: ExprKindModel::Unit, span: sp }, pos2)),
        }
    }
}

/// A grouped expression: parentheses re-span the inner expression without
/// adding a node.
pub open spec fn spec_parse_grouped(src: Seq<char>, toks: Seq<Token>, pos: int) -> Step<ExprModel>
    decreases toks.len() - pos, 2int,
{
    if !(0 <= pos <= toks.len()) {
        Err(ErrorModel::NoToken)
    } else {
        match spec_expect_token(toks, pos, TokenKind::LParen) {
            Err(e) => Err(e),
            Ok((sp1, pos2)) => match spec_parse_expression(src, toks, pos2, Precedence::Lowest) {
                Err(e) => Err(e),
                Ok((em, pos3)) => match peek_kind(toks, pos3) {
                    TokenKind::RParen => match spec_expect_token(toks, pos3, TokenKind::RParen) {
                        Err(e) => Err(e),
                        Ok((sp2, pos4)) => Ok(
                            (
                                ExprModel {
                                    kind: em.kind,
                                    span: Span { start: sp1.start, end: sp2.end },
                                },
                                pos4,
                            ),
                        ),
                    },
                    k => Err(expected_err(")"@, kind_text(k))),
                },
            },
        }
    }
}

/// A unary prefix expression: the operator token, then its operand at
/// prefix precedence.
pub open spec fn spec_parse_prefix_expression(
    src: Seq<char>,
    toks: Seq<Token>,
    pos: int,
    op: PrefixOperator,
) -> Step<ExprModel>
    decreases toks.len() - pos, 2int,
{
    if !(0 <= pos <= toks.len()) {
        Err(ErrorModel::NoToken)
    } else {
        let tok_kind = match op {
            PrefixOperator::LogicalNot => TokenKind::ExclamationMark,
            PrefixOperator::Negative => TokenKind::Minus,
        };
        match spec_expect_token(toks, pos, tok_kind) {
            Err(e) => Err(e),
            Ok((sp, pos2)) => match spec_parse_expression(src, toks, pos2, Precedence::Prefix) {
                Err(e) => Err(e),
                Ok((em, pos3)) => Ok(
                    (
                        ExprModel {
                            kind: ExprKindModel::Prefix { operator: op, expression: Box::new(em) },
                            span: Span { start: sp.start, end: em.span.end },
                        },
                        pos3,
                    ),
                ),
            },
        }
    }
}

/// A variable declaration, entered after its name and the sight of a
/// colon: `name ":" [type] (":" value | "=" value)`.  A second colon makes
/// the binding immutable, an equals sign mutable.
pub open spec fn spec_parse_variable_declaration(
    src: Seq<char>,
    toks: Seq<Token>,
    pos: int,
    name: Seq<char>,
    start: usize,
) -> Step<ExprModel>
    decreases toks.len() - pos, 0int,
{
    if !(0 <= pos <= toks.len()) {
        Err(ErrorModel::NoToken)
    } else {
        match spec_expect_token(toks, pos, TokenKind::Colon) {
            Err(e) => Err(e),
            Ok((_, pos2)) => {
                let ty_step: Step<Option<TypeModel>> = if peek_kind(toks, pos2)
                    == TokenKind::Identifier {
                    match spec_parse_type(src, toks, pos2) {
                        Err(e) => Err(e),
                        Ok((t, p)) => Ok((Some(t), p)),
                    }
                } else {
                    Ok((None, pos2))
                };
                match ty_step {
                    Err(e) => Err(e),
                    Ok((ty, pos3)) => {
                        let mutable = match peek_kind(toks, pos3) {
                            TokenKind::Colon => Some(false),
                            TokenKind::SingleEqual => Some(true),
                            _ => None,
                        };
                        match mutable {
                            None => Err(expected_err(": or ="@, kind_text(peek_kind(toks, pos3)))),
                            Some(m) => if pos < pos3 + 1 <= toks.len() {
                                match spec_parse_expression(
                                    src,
                                    toks,
                                    pos3 + 1,
                                    Precedence::Lowest,
                                ) {
                                    Err(e) => Err(e),
                                    Ok((em, pos4)) => Ok(
                                        (
                                            ExprModel {
                                                kind: ExprKindModel::VariableDecl {
                                                    name,
                                                    value: Box::new(em),
                                                    mutable: m,
                                                    ty,
                                                },
                                                span: Span { start, end: em.span.end },
                                            },
                                            pos4,
                                        ),
                                    ),
                                }
                            } else {
                                Err(ErrorModel::NoToken)
                            },
                        }
                    },
                }
            },
        }
    }
}

/// A function call, entered after its name and the sight of an opening
/// parenthesis: `name "(" arguments ")"`.
pub open spec fn spec_parse_function_call(
    src: Seq<char>,
    toks: Seq<Token>,
    pos: int,
    name: Seq<char>,
    start: usize,
) -> Step<ExprModel>
    decreases toks.len() - pos, 0int,
{
    if !(0 <= pos <= toks.len()) {
        Err(ErrorModel::NoToken)
    } else {
        match spec_expect_token(toks, pos, TokenKind::LParen) {
            Err(e) => Err(e),
            Ok((_, pos2)) => match spec_parse_args(src, toks, pos2, Seq::empty()) {
                Err(e) => Err(e),
                Ok((args, pos3)) => match spec_expect_token(toks, pos3, TokenKind::RParen) {
                    Err(e) => Err(e),
                    Ok((sp2, pos4)) => Ok(
                        (
                            ExprModel {
                                kind: ExprKindModel::FunctionCall { name, arguments: args },
                                span: Span { start, end: sp2.end },
                            },
                            pos4,
                        ),
                    ),
                },
            },
        }
    }
}

/// Comma-separated call arguments, up to a closing parenthesis; a
/// trailing comma is tolerated.
pub open spec fn spec_parse_args(
    src: Seq<char>,
    toks: Seq<Token>,
    pos: int,
    acc: Seq<ArgModel>,
) -> Step<Seq<ArgModel>>
    decreases toks.len() - pos, 7int,
{
    if !(0 <= pos <= toks.len()) {
        Err(ErrorModel::NoToken)
    } else if peek_kind(toks, pos) == TokenKind::RParen {
        Ok((acc, pos))
    } else {
        match spec_parse_argument(src, toks, pos) {
            Err(e) => Err(e),
            Ok((a, pos2)) => if pos < pos2 <= toks.len() {
                if peek_kind(toks, pos2) == TokenKind::Comma {
                    spec_parse_args(src, toks, pos2 + 1, acc.push(a))
                } else {
                    Ok((acc.push(a), pos2))
                }
            } else {
                Err(ErrorModel::NoToken)
            },
        }
    }
}

/// One call argument: `label ":" value` when an identifier is directly
/// followed by a colon; anything else is a full bare expression.  A bare
/// expression that begins with an identifier continues past it: a
/// following parenthesis makes the identifier a call, and either form
/// then absorbs infix operators at lowest precedence.
pub open spec fn spec_parse_argument(src: Seq<char>, toks: Seq<Token>, pos: int) -> Step<ArgModel>
    decreases toks.len() - pos, 6int,
{
    if !(0 <= pos <= toks.len()) {
        Err(ErrorModel::NoToken)
    } else if pos == toks.len() {
        Err(ErrorModel::UnexpectedEof)
    } else if toks[pos].kind == TokenKind::Identifier {
        match spec_expect_ident(src, toks, pos) {
            Err(e) => Err(e),
            Ok(((name, sp), pos2)) => if peek_kind(toks, pos2) == TokenKind::Colon {
                match spec_parse_expression(src, toks, pos2 + 1, Precedence::Lowest) {
                    Err(e) => Err(e),
                    Ok((em, pos3)) => Ok((ArgModel { label: Some(name), value: em }, pos3)),
                }
            } else {
                let head: Step<ExprModel> = if peek_kind(toks, pos2) == TokenKind::LParen {
                    spec_parse_function_call(src, toks, pos2, name, sp.start)
                } else {
                    Ok((ExprModel { kind: ExprKindModel::Ident(name), span: sp }, pos2))
                };
                match head {
                    Err(e) => Err(e),
                    Ok((em, pos3)) => if pos < pos3 <= toks.len() {
                        match spec_infix_loop(src, toks, pos3, em, Precedence::Lowest) {
                            Err(e) => Err(e),
                            Ok((em2, pos4)) => Ok(
                                (ArgModel { label: None, value: em2 }, pos4),
                            ),
                        }
                    } else {
                        Err(ErrorModel::NoToken)
                    },
                }
            },
        }
    } else {
        match spec_parse_expression(src, toks, pos, Precedence::Lowest) {
            Err(e) => Err(e),
            Ok((em, pos2)) => Ok((ArgModel { label: None, value: em }, pos2)),
        }
    }
}

/// A function literal: `fun "(" parameters ")" [type] "{" statements "}"`.
pub open spec fn spec_parse_function_expression(src: Seq<char>, toks: Seq<Token>, pos: int) -> Step<
    ExprModel,
>
    decreases toks.len() - pos, 1int,
{
    if !(0 <= pos <= toks.len()) {
        Err(ErrorModel::NoToken)
    } else {
        match spec_expect_token(toks, pos, TokenKind::Fun) {
            Err(e) => Err(e),
            Ok((sp1, pos2)) => match spec_expect_token(toks, pos2, TokenKind::LParen) {
                Err(e) => Err(e),
                Ok((_, pos3)) => match spec_parse_params(src, toks, pos3, Seq::empty()) {
                    Err(e) => Err(e),
                    Ok((params, pos4)) => match spec_expect_token(toks, pos4, TokenKind::RParen) {
                        Err(e) => Err(e),
                        Ok((_, pos5)) => {
                            let rt_step: Step<Option<TypeModel>> = if peek_kind(toks, pos5)
                                == TokenKind::Identifier {
                                match spec_parse_type(src, toks, pos5) {
                                    Err(e) => Err(e),
                                    Ok((t, p)) => Ok((Some(t), p)),
                                }
                            } else {
                                Ok((None, pos5))
                            };
                            match rt_step {
                                Err(e) => Err(e),
                                Ok((rt, pos6)) => match spec_expect_token(
                                    toks,
                                    pos6,
                                    TokenKind::LBrace,
                                ) {
                                    Err(e) => Err(e),
                                    Ok((_, pos7)) => if pos < pos7 <= toks.len() {
                                        match spec_parse_block(src, toks, pos7, Seq::empty()) {
                                            Err(e) => Err(e),
                                            Ok((body, pos8)) => match spec_expect_token(
                                                toks,
                                                pos8,
                                                TokenKind::RBrace,
                                            ) {
                                                Err(e) => Err(e),
                                                Ok((sp2, pos9)) => Ok(
                                                    (
                                                        ExprModel {
                                                            kind: ExprKindModel::Function {
                                                                parameters: params,
                                                                return_type: rt,
                                                                body,
                                                            },
                                                            span: Span {
                                                                start: sp1.start,
                                                                end: sp2.end,
                                                            },
                                                        },
                                                        pos9,
                                                    ),
                                                ),
                                            },
                                        }
                                    } else {
                                        Err(ErrorModel::NoToken)
                                    },
                                },
                            }
                        },
                    },
                },
            },
        }
    }
}

/// Comma-separated parameters, up to a closing parenthesis; a trailing
/// comma is tolerated.
pub open spec fn spec_parse_params(
    src: Seq<char>,
    toks: Seq<Token>,
    pos: int,
    acc: Seq<ParamModel>,
) -> Step<Seq<ParamModel>>
    decreases toks.len() - pos, 2int,
{
    if !(0 <= pos <= toks.len()) {
        Err(ErrorModel::NoToken)
    } else if peek_kind(toks, pos) == TokenKind::RParen {
        Ok((acc, pos))
    } else {
        match spec_parse_parameter(src, toks, pos) {
            Err(e) => Err(e),
            Ok((p, pos2)) => if pos < pos2 <= toks.len() {
                if peek_kind(toks, pos2) == TokenKind::Comma {
                    spec_parse_params(src, toks, pos2 + 1, acc.push(p))
                } else {
                    Ok((acc.push(p), pos2))
                }
            } else {
                Err(ErrorModel::NoToken)
            },
        }
    }
}

/// The whole parse: a program from the first token, with the demand that
/// it consume the entire stream folded into `spec_parse_program`'s
/// end-of-stream test.
pub open spec fn spec_parse(src: Seq<char>, toks: Seq<Token>) -> Result<Seq<StmtModel>, ErrorModel> {
    match spec_parse_program(src, toks, 0, Seq::empty()) {
        Err(e) => Err(e),
        Ok((stmts, _)) => Ok(stmts),
    }
}

} // verus!
