//! General properties of the grammar, stated and proved once and for all.

use vstd::prelude::*;
use vstd::seq_lib::group_seq_properties;
use crate::span::Span;
use crate::token::{Token, TokenKind};
use crate::ast::{ExprKindModel, ExprModel, StmtModel};
use crate::error::ErrorModel;
use crate::grammar::{
    span_text, spec_parse, spec_parse_program, spec_parse_statement, spec_parse_expression,
    spec_prefix_parse, spec_parse_int_literal, spec_parse_bool_literal, spec_parse_unit,
    spec_infix_loop, spec_parse_infix, spec_parse_grouped, spec_expect_int, spec_expect_token,
    spec_expect_ident, peek_kind, token_precedence, infix_op_of,
};
use crate::token::kind_text;
use crate::num::{
    all_digits, digit_val, digits_value, int_text_value, is_digit_char, is_i64_text,
};
use crate::ast::Precedence;

verus! {

/// An empty input parses to an empty program.
pub proof fn lemma_empty_program(src: Seq<char>)
    ensures
        spec_parse(src, Seq::empty()) == Ok::<Seq<StmtModel>, ErrorModel>(
            Seq::<StmtModel>::empty(),
        ),
{
}

/// A token sequence holding a single integer literal parses to a program
/// of one undiscarded `IntLiteral` statement carrying the literal's value
/// and its exact source span.
pub proof fn lemma_single_int_literal(src: Seq<char>, tok: Token)
    requires
        tok.kind == TokenKind::IntLiteral,
        tok.span.start <= tok.span.end <= src.len(),
        is_i64_text(span_text(src, tok.span)),
    ensures
        spec_parse(src, seq![tok]) == Ok::<Seq<StmtModel>, ErrorModel>(
            seq![
                StmtModel {
                    expr: ExprModel {
                        kind: ExprKindModel::IntLiteral(int_text_value(span_text(src, tok.span))),
                        span: tok.span,
                    },
                    discarded: false,
                },
            ],
        ),
{
    broadcast use group_seq_properties;

    let toks = seq![tok];
    let em = ExprModel {
        kind: ExprKindModel::IntLiteral(int_text_value(span_text(src, tok.span))),
        span: tok.span,
    };
    let st = StmtModel { expr: em, discarded: false };
    assert(toks.len() == 1);
    assert(toks[0] == tok);
    assert(peek_kind(toks, 0) == TokenKind::IntLiteral);
    assert(spec_expect_int(src, toks, 0) == Ok::<((int, Span), int), ErrorModel>((
        (int_text_value(span_text(src, tok.span)), tok.span),
        1,
    )));
    assert(spec_parse_int_literal(src, toks, 0) matches Ok(p) && p.0 == em && p.1 == 1int);
    assert(spec_prefix_parse(src, toks, 0) matches Ok(p) && p.0 == em && p.1 == 1int);
    assert(peek_kind(toks, 1) == TokenKind::Eof);
    assert(spec_infix_loop(src, toks, 1, em, Precedence::Lowest) == Ok::<
        (ExprModel, int),
        ErrorModel,
    >((em, 1)));
    assert(spec_parse_expression(src, toks, 0, Precedence::Lowest) matches Ok(p) && p.0 == em
        && p.1 == 1int);
    assert(spec_parse_statement(src, toks, 0) matches Ok(p) && p.0 == st && p.1 == 1int);
    assert(spec_parse_program(src, toks, 1, seq![st]) == Ok::<(Seq<StmtModel>, int), ErrorModel>((
        seq![st],
        1,
    )));
    assert(spec_parse_program(src, toks, 0, Seq::empty()) == Ok::<
        (Seq<StmtModel>, int),
        ErrorModel,
    >((seq![st], 1))) by {
        assert(Seq::<StmtModel>::empty().push(st) =~= seq![st]);
    }
}

/// A program of one token whose prefix parse yields `em` is the one
/// undiscarded statement holding `em`.
proof fn lemma_single_token_program(src: Seq<char>, toks: Seq<Token>, em: ExprModel)
    requires
        toks.len() == 1,
        spec_prefix_parse(src, toks, 0) == Ok::<(ExprModel, int), ErrorModel>((em, 1)),
    ensures
        spec_parse(src, toks) == Ok::<Seq<StmtModel>, ErrorModel>(
            seq![StmtModel { expr: em, discarded: false }],
        ),
{
    broadcast use group_seq_properties;

    let st = StmtModel { expr: em, discarded: false };
    assert(peek_kind(toks, 1) == TokenKind::Eof);
    assert(spec_infix_loop(src, toks, 1, em, Precedence::Lowest) == Ok::<
        (ExprModel, int),
        ErrorModel,
    >((em, 1)));
    assert(spec_parse_expression(src, toks, 0, Precedence::Lowest) matches Ok(p) && p.0 == em
        && p.1 == 1int);
    assert(spec_parse_statement(src, toks, 0) matches Ok(p) && p.0 == st && p.1 == 1int);
    assert(spec_parse_program(src, toks, 1, seq![st]) == Ok::<(Seq<StmtModel>, int), ErrorModel>((
        seq![st],
        1,
    )));
    assert(spec_parse_program(src, toks, 0, Seq::empty()) == Ok::<
        (Seq<StmtModel>, int),
        ErrorModel,
    >((seq![st], 1))) by {
        assert(Seq::<StmtModel>::empty().push(st) =~= seq![st]);
    }
}

/// The decimal rendering of one digit.
pub open spec fn digit_char(d: int) -> char {
    if d == 0 {
        '0'
    } else if d == 1 {
        '1'
    } else if d == 2 {
        '2'
    } else if d == 3 {
        '3'
    } else if d == 4 {
        '4'
    } else if d == 5 {
        '5'
    } else if d == 6 {
        '6'
    } else if d == 7 {
        '7'
    } else if d == 8 {
        '8'
    } else {
        '9'
    }
}

/// The decimal rendering of a nonnegative integer, most significant digit
/// first.
pub open spec fn digits_of(n: int) -> Seq<char>
    decreases n,
{
    if n < 10 {
        seq![digit_char(n)]
    } else {
        digits_of(n / 10).push(digit_char(n % 10))
    }
}

/// Rendering a nonnegative integer and reading the digits back gives the
/// same integer.
pub proof fn lemma_digits_of_value(n: int)
    requires
        0 <= n,
    ensures
        digits_of(n).len() >= 1,
        all_digits(digits_of(n)),
        digits_value(digits_of(n)) == n,
    decreases n,
{
    if n < 10 {
        let s = digits_of(n);
        assert(s == seq![digit_char(n)]);
        assert(s.len() == 1);
        assert(s[0] == digit_char(n));
        assert(s.drop_last() =~= Seq::<char>::empty());
        assert(digits_value(Seq::<char>::empty()) == 0);
        assert(digits_value(s) == digit_val(digit_char(n)));
        assert(digit_val(digit_char(n)) == n);
        assert(forall|i: int| 0 <= i < s.len() ==> is_digit_char(s[i]));
    } else {
        lemma_digits_of_value(n / 10);
        let p = digits_of(n / 10);
        let s = digits_of(n);
        let c = digit_char(n % 10);
        assert(s == p.push(c));
        assert(s.drop_last() =~= p);
        assert(s[s.len() - 1] == c);
        assert(digit_val(c) == n % 10);
        assert(digits_value(s) == digits_value(p) * 10 + (n % 10));
        assert(digits_value(s) == n);
        assert(forall|i: int| 0 <= i < s.len() ==> is_digit_char(s[i])) by {
            assert(forall|i: int| 0 <= i < p.len() ==> is_digit_char(#[trigger] s[i]));
        }
    }
}

/// Reparsing the decimal rendering of a nonnegative integer literal
/// reproduces the literal: the value is kept, the span covers the new
/// rendering.  (The rendering of a negative literal starts with a minus
/// sign, which the lexer hands back as its own token, so reparsing it
/// yields a `Prefix` node instead of a lone literal.)
pub proof fn lemma_reparse_int_literal(n: int, tok: Token)
    requires
        0 <= n <= 9223372036854775807,
        tok.kind == TokenKind::IntLiteral,
        tok.span.start == 0,
        tok.span.end == digits_of(n).len(),
    ensures
        spec_parse(digits_of(n), seq![tok]) == Ok::<Seq<StmtModel>, ErrorModel>(
            seq![
                StmtModel {
                    expr: ExprModel { kind: ExprKindModel::IntLiteral(n), span: tok.span },
                    discarded: false,
                },
            ],
        ),
{
    let src = digits_of(n);
    lemma_digits_of_value(n);
    assert(span_text(src, tok.span) =~= src);
    assert(is_digit_char(src[0]));
    assert(src[0] != '-' && src[0] != '+');
    assert(is_i64_text(src));
    assert(int_text_value(src) == n);
    lemma_single_int_literal(src, tok);
}

/// Reparsing the rendering of a boolean literal reproduces it.
pub proof fn lemma_reparse_bool_literal(b: bool, tok: Token)
    requires
        tok.kind == (if b {
            TokenKind::True
        } else {
            TokenKind::False
        }),
        tok.span.start == 0,
        tok.span.end == (if b {
            "true"@.len()
        } else {
            "false"@.len()
        }),
    ensures
        spec_parse(
            if b {
                "true"@
            } else {
                "false"@
            },
            seq![tok],
        ) == Ok::<Seq<StmtModel>, ErrorModel>(
            seq![
                StmtModel {
                    expr: ExprModel { kind: ExprKindModel::BoolLiteral(b), span: tok.span },
                    discarded: false,
                },
            ],
        ),
{
    let src = if b {
        "true"@
    } else {
        "false"@
    };
    let toks = seq![tok];
    let em = ExprModel { kind: ExprKindModel::BoolLiteral(b), span: tok.span };
    assert(toks[0] == tok);
    assert(spec_parse_bool_literal(toks, 0) matches Ok(p) && p.0 == em && p.1 == 1int);
    assert(spec_prefix_parse(src, toks, 0) == Ok::<(ExprModel, int), ErrorModel>((em, 1)));
    lemma_single_token_program(src, toks, em);
}

/// Reparsing the rendering of the unit literal reproduces it.
pub proof fn lemma_reparse_unit(tok: Token)
    requires
        tok.kind == TokenKind::Unit,
        tok.span.start == 0,
        tok.span.end == "()"@.len(),
    ensures
        spec_parse("()"@, seq![tok]) == Ok::<Seq<StmtModel>, ErrorModel>(
            seq![
                StmtModel {
                    expr: ExprModel { kind: ExprKindModel::Unit, span: tok.span },
                    discarded: false,
                },
            ],
        ),
{
    let toks = seq![tok];
    let em = ExprModel { kind: ExprKindModel::Unit, span: tok.span };
    assert(toks[0] == tok);
    assert(spec_parse_unit(toks, 0) matches Ok(p) && p.0 == em && p.1 == 1int);
    assert(spec_prefix_parse("()"@, toks, 0) == Ok::<(ExprModel, int), ErrorModel>((em, 1)));
    lemma_single_token_program("()"@, toks, em);
}

/// Reparsing a bare identifier's rendering (its name as the whole source)
/// reproduces it.
pub proof fn lemma_reparse_ident(name: Seq<char>, tok: Token)
    requires
        tok.kind == TokenKind::Identifier,
        tok.span.start == 0,
        tok.span.end == name.len(),
    ensures
        spec_parse(name, seq![tok]) == Ok::<Seq<StmtModel>, ErrorModel>(
            seq![
                StmtModel {
                    expr: ExprModel { kind: ExprKindModel::Ident(name), span: tok.span },
                    discarded: false,
                },
            ],
        ),
{
    let toks = seq![tok];
    let em = ExprModel { kind: ExprKindModel::Ident(name), span: tok.span };
    assert(toks[0] == tok);
    assert(span_text(name, tok.span) =~= name);
    assert(spec_expect_ident(name, toks, 0) == Ok::<((Seq<char>, Span), int), ErrorModel>((
        (name, tok.span),
        1,
    )));
    assert(peek_kind(toks, 1) == TokenKind::Eof);
    assert(spec_prefix_parse(name, toks, 0) == Ok::<(ExprModel, int), ErrorModel>((em, 1)));
    lemma_single_token_program(name, toks, em);
}

/// Reparsing the parenthesised rendering `( a op b )` of an infix node
/// over two nonnegative integer literals reproduces the node: the same
/// operator, the same operand values, with spans covering the rendering.
/// The five tokens are those the lexer produces over the rendering.
pub proof fn lemma_reparse_infix_of_literals(a: int, b: int, k: TokenKind, toks: Seq<Token>)
    requires
        0 <= a <= 9223372036854775807,
        0 <= b <= 9223372036854775807,
        infix_op_of(k) is Some,
        toks.len() == 5,
        toks[0].kind == TokenKind::LParen,
        toks[1].kind == TokenKind::IntLiteral,
        toks[2].kind == k,
        toks[3].kind == TokenKind::IntLiteral,
        toks[4].kind == TokenKind::RParen,
        toks[0].span.start == 0 && toks[0].span.end == 1,
        toks[1].span.start == 1 && toks[1].span.end as int == 1 + digits_of(a).len(),
        toks[3].span.start as int == 1 + digits_of(a).len() + kind_text(k).len(),
        toks[3].span.end as int == toks[3].span.start + digits_of(b).len(),
        toks[4].span.start == toks[3].span.end,
        toks[4].span.end as int == toks[4].span.start + 1,
    ensures
        ({
            let src = seq!['('] + digits_of(a) + kind_text(k) + digits_of(b) + seq![')'];
            let lit_a = ExprModel { kind: ExprKindModel::IntLiteral(a), span: toks[1].span };
            let lit_b = ExprModel { kind: ExprKindModel::IntLiteral(b), span: toks[3].span };
            spec_parse(src, toks) == Ok::<Seq<StmtModel>, ErrorModel>(
                seq![
                    StmtModel {
                        expr: ExprModel {
                            kind: ExprKindModel::Infix {
                                left: Box::new(lit_a),
                                operator: infix_op_of(k)->Some_0.0,
                                right: Box::new(lit_b),
                            },
                            span: Span { start: 0, end: toks[4].span.end },
                        },
                        discarded: false,
                    },
                ],
            )
        }),
{
    broadcast use group_seq_properties;

    let src = seq!['('] + digits_of(a) + kind_text(k) + digits_of(b) + seq![')'];
    let da = digits_of(a);
    let db = digits_of(b);
    let la = da.len() as int;
    let lk = kind_text(k).len() as int;
    let lb = db.len() as int;
    lemma_digits_of_value(a);
    lemma_digits_of_value(b);
    assert(src.len() == 2 + la + lk + lb);

    // the two literal spans slice back to the digit renderings
    assert(span_text(src, toks[1].span) =~= da) by {
        assert forall|i: int| 0 <= i < la implies src[1 + i] == da[i] by {}
    }
    assert(span_text(src, toks[3].span) =~= db) by {
        assert forall|i: int| 0 <= i < lb implies src[1 + la + lk + i] == db[i] by {}
    }
    assert(da[0] != '-' && da[0] != '+' && db[0] != '-' && db[0] != '+') by {
        assert(is_digit_char(da[0]));
        assert(is_digit_char(db[0]));
    }
    assert(is_i64_text(da) && int_text_value(da) == a);
    assert(is_i64_text(db) && int_text_value(db) == b);

    let lit_a = ExprModel { kind: ExprKindModel::IntLiteral(a), span: toks[1].span };
    let lit_b = ExprModel { kind: ExprKindModel::IntLiteral(b), span: toks[3].span };
    let op = infix_op_of(k)->Some_0.0;
    let op_prec = infix_op_of(k)->Some_0.1;

    // the left operand
    assert(spec_expect_int(src, toks, 1) == Ok::<((int, Span), int), ErrorModel>((
        (a, toks[1].span),
        2,
    )));
    assert(spec_prefix_parse(src, toks, 1) == Ok::<(ExprModel, int), ErrorModel>((lit_a, 2)));

    // the operator continues the expression at any level below its own
    assert(peek_kind(toks, 2) == k);
    assert(token_precedence(k).spec_exceeds(Precedence::Lowest));
    assert(k != TokenKind::IntLiteral && k != TokenKind::Eof);

    // the right operand, after which the closing parenthesis stops the loop
    assert(spec_expect_int(src, toks, 3) == Ok::<((int, Span), int), ErrorModel>((
        (b, toks[3].span),
        4,
    )));
    assert(spec_prefix_parse(src, toks, 3) == Ok::<(ExprModel, int), ErrorModel>((lit_b, 4)));
    assert(peek_kind(toks, 4) == TokenKind::RParen);
    assert(!token_precedence(TokenKind::RParen).spec_exceeds(op_prec));
    assert(spec_infix_loop(src, toks, 4, lit_b, op_prec) == Ok::<(ExprModel, int), ErrorModel>((
        lit_b,
        4,
    )));
    assert(spec_parse_expression(src, toks, 3, op_prec) == Ok::<(ExprModel, int), ErrorModel>((
        lit_b,
        4,
    )));

    // folding both operands into the infix node
    let em2 = ExprModel {
        kind: ExprKindModel::Infix { left: Box::new(lit_a), operator: op, right: Box::new(lit_b) },
        span: Span { start: toks[1].span.start, end: toks[3].span.end },
    };
    assert(spec_parse_infix(src, toks, 2, lit_a, op, op_prec) == Ok::<
        (ExprModel, int),
        ErrorModel,
    >((em2, 4)));
    assert(!token_precedence(TokenKind::RParen).spec_exceeds(Precedence::Lowest));
    assert(spec_infix_loop(src, toks, 4, em2, Precedence::Lowest) == Ok::<
        (ExprModel, int),
        ErrorModel,
    >((em2, 4)));
    assert(spec_infix_loop(src, toks, 2, lit_a, Precedence::Lowest) == Ok::<
        (ExprModel, int),
        ErrorModel,
    >((em2, 4)));
    assert(spec_parse_expression(src, toks, 1, Precedence::Lowest) == Ok::<
        (ExprModel, int),
        ErrorModel,
    >((em2, 4)));

    // the parentheses re-span the node without adding one
    let em3 = ExprModel { kind: em2.kind, span: Span { start: 0, end: toks[4].span.end } };
    assert(spec_expect_token(toks, 0, TokenKind::LParen) == Ok::<(Span, int), ErrorModel>((
        toks[0].span,
        1,
    )));
    assert(spec_expect_token(toks, 4, TokenKind::RParen) == Ok::<(Span, int), ErrorModel>((
        toks[4].span,
        5,
    )));
    assert(spec_parse_grouped(src, toks, 0) == Ok::<(ExprModel, int), ErrorModel>((em3, 5)));
    assert(spec_prefix_parse(src, toks, 0) == Ok::<(ExprModel, int), ErrorModel>((em3, 5)));

    // the single statement and the whole program
    let st = StmtModel { expr: em3, discarded: false };
    assert(peek_kind(toks, 5) == TokenKind::Eof);
    assert(spec_infix_loop(src, toks, 5, em3, Precedence::Lowest) == Ok::<
        (ExprModel, int),
        ErrorModel,
    >((em3, 5)));
    assert(spec_parse_expression(src, toks, 0, Precedence::Lowest) == Ok::<
        (ExprModel, int),
        ErrorModel,
    >((em3, 5)));
    assert(spec_parse_statement(src, toks, 0) matches Ok(p) && p.0 == st && p.1 == 5int);
    assert(spec_parse_program(src, toks, 5, seq![st]) == Ok::<(Seq<StmtModel>, int), ErrorModel>((
        seq![st],
        5,
    )));
    assert(spec_parse_program(src, toks, 0, Seq::empty()) == Ok::<
        (Seq<StmtModel>, int),
        ErrorModel,
    >((seq![st], 5))) by {
        assert(Seq::<StmtModel>::empty().push(st) =~= seq![st]);
    }
}

} // verus!
