//! The abstract syntax tree produced by parsing, together with its
//! mathematical model.
//!
//! The executable types (`Program`, `Expression`, ...) own their text as
//! `String` and their children as `Vec` and `Box`.  Each has a ghost model
//! (`ExprModel`, ...) in which text is a `Seq<char>`; the contracts of the
//! parser speak about models, and the `*_model` functions map one world to
//! the other.

use vstd::prelude::*;
use crate::span::Span;

verus! {

/// Unary operators dispatched at the start of an expression.
#[derive(Clone, Copy, PartialEq, Eq, Structural, Debug)]
pub enum PrefixOperator {
    LogicalNot,
    Negative,
}

/// Binary operators dispatched between two operands.
#[derive(Clone, Copy, PartialEq, Eq, Structural, Debug)]
pub enum InfixOperator {
    Plus,
    Minus,
    Multiply,
    Divide,
    GreaterThan,
    LessThan,
    GreaterThanOrEqual,
    LessThanOrEqual,
    Equal,
    NotEqual,
}

/// Binding strength of an in-progress expression, ascending.  The expression
/// loop absorbs a further infix operator only while the next token's
/// precedence strictly exceeds the threshold passed down by the caller.
#[derive(Clone, Copy, PartialEq, Eq, Structural, Debug, PartialOrd, Ord)]
pub enum Precedence {
    Lowest,
    Equality,
    Comparison,
    Sum,
    Product,
    Prefix,
    Group,
}

impl Precedence {
    /// Numeric rank of this level in the total order.
    pub open spec fn spec_level(self) -> int {
        match self {
            Precedence::Lowest => 0,
            Precedence::Equality => 1,
            Precedence::Comparison => 2,
            Precedence::Sum => 3,
            Precedence::Product => 4,
            Precedence::Prefix => 5,
            Precedence::Group => 6,
        }
    }

    /// Whether this level binds strictly tighter than `other`.
    pub open spec fn spec_exceeds(self, other: Precedence) -> bool {
        self.spec_level() > other.spec_level()
    }

    pub fn level(self) -> (n: u8)
        ensures
            n as int == self.spec_level(),
    {
        match self {
            Precedence::Lowest => 0,
            Precedence::Equality => 1,
            Precedence::Comparison => 2,
            Precedence::Sum => 3,
            Precedence::Product => 4,
            Precedence::Prefix => 5,
            Precedence::Group => 6,
        }
    }

    pub fn exceeds(self, other: Precedence) -> (b: bool)
        ensures
            b == self.spec_exceeds(other),
    {
        self.level() > other.level()
    }
}

/// A named type reference; the only form of type in the language.
#[derive(PartialEq, Eq, Debug)]
pub enum Type {
    Ident(String),
}

/// A declared function parameter.
#[derive(PartialEq, Eq, Debug)]
pub enum FunctionParameter {
    /// The caller supplies the argument positionally, without a label.
    UnlabeledAtCallsite { name: String, ty: Type },
    /// The caller must label the argument; without a distinct external name
    /// the label equals the internal name.
    LabeledAtCallsite { internal_name: String, external_name: Option<String>, ty: Type },
}

/// A call-site argument, optionally labeled.
#[derive(PartialEq, Eq, Debug)]
pub struct FunctionArgument {
    pub label: Option<String>,
    pub value: Expression,
}

/// One statement: an expression, with a flag recording whether a trailing
/// statement separator discarded its value.
#[derive(PartialEq, Eq, Debug)]
pub struct ExpressionStatement {
    pub expr: Expression,
    pub discarded: bool,
}

/// A full parsed source file: an ordered sequence of statements.
#[derive(PartialEq, Eq, Debug)]
pub struct Program(pub Vec<ExpressionStatement>);

/// An expression: a kind together with the span covering its full textual
/// extent.
#[derive(PartialEq, Eq, Debug)]
pub struct Expression {
    pub kind: ExpressionKind,
    pub span: Span,
}

/// The closed set of expression forms.
#[derive(PartialEq, Eq, Debug)]
pub enum ExpressionKind {
    IntLiteral(i64),
    BoolLiteral(bool),
    Unit,
    Ident(String),
    Prefix { operator: PrefixOperator, expression: Box<Expression> },
    Infix { left: Box<Expression>, operator: InfixOperator, right: Box<Expression> },
    VariableDecl { name: String, value: Box<Expression>, mutable: bool, ty: Option<Type> },
    Function {
        parameters: Vec<FunctionParameter>,
        return_type: Option<Type>,
        body: Vec<ExpressionStatement>,
    },
    FunctionCall { name: String, arguments: Vec<FunctionArgument> },
}

impl Expression {
    pub fn new(kind: ExpressionKind, span: Span) -> (e: Expression)
        ensures
            e.kind == kind,
            e.span == span,
    {
        Expression { kind, span }
    }
}

/// Ghost model of a type reference.
pub ghost enum TypeModel {
    Ident(Seq<char>),
}

/// Ghost model of a function parameter.
pub ghost enum ParamModel {
    Unlabeled { name: Seq<char>, ty: TypeModel },
    Labeled { internal_name: Seq<char>, external_name: Option<Seq<char>>, ty: TypeModel },
}

/// Ghost model of a call-site argument.
pub ghost struct ArgModel {
    pub label: Option<Seq<char>>,
    pub value: ExprModel,
}

/// Ghost model of a statement.
pub ghost struct StmtModel {
    pub expr: ExprModel,
    pub discarded: bool,
}

/// Ghost model of an expression.
pub ghost struct ExprModel {
    pub kind: ExprKindModel,
    pub span: Span,
}

/// Ghost model of an expression kind.  Integer literals are modelled as
/// unbounded integers, names as character sequences.
pub ghost enum ExprKindModel {
    IntLiteral(int),
    BoolLiteral(bool),
    Unit,
    Ident(Seq<char>),
    Prefix { operator: PrefixOperator, expression: Box<ExprModel> },
    Infix { left: Box<ExprModel>, operator: InfixOperator, right: Box<ExprModel> },
    VariableDecl { name: Seq<char>, value: Box<ExprModel>, mutable: bool, ty: Option<TypeModel> },
    Function {
        parameters: Seq<ParamModel>,
        return_type: Option<TypeModel>,
        body: Seq<StmtModel>,
    },
    FunctionCall { name: Seq<char>, arguments: Seq<ArgModel> },
}

pub open spec fn type_model(t: Type) -> TypeModel {
    match t {
        Type::Ident(name) => TypeModel::Ident(name@),
    }
}

pub open spec fn opt_type_model(t: Option<Type>) -> Option<TypeModel> {
    match t {
        Option::Some(t0) => Option::Some(type_model(t0)),
        Option::None => Option::None,
    }
}

pub open spec fn param_model(p: FunctionParameter) -> ParamModel {
    match p {
        FunctionParameter::UnlabeledAtCallsite { name, ty } => ParamModel::Unlabeled {
            name: name@,
            ty: type_model(ty),
        },
        FunctionParameter::LabeledAtCallsite { internal_name, external_name, ty } => {
            ParamModel::Labeled {
                internal_name: internal_name@,
                external_name: match external_name {
                    Option::Some(n) => Option::Some(n@),
                    Option::None => Option::None,
                },
                ty: type_model(ty),
            }
        },
    }
}

pub open spec fn params_model(s: Seq<FunctionParameter>) -> Seq<ParamModel>
    decreases s.len(),
{
    if s.len() == 0 {
        Seq::empty()
    } else {
        params_model(s.drop_last()).push(param_model(s[s.len() - 1]))
    }
}

pub open spec fn expr_model(e: Expression) -> ExprModel
    decreases e,
{
    ExprModel { kind: expr_kind_model(e.kind), span: e.span }
}

pub open spec fn expr_kind_model(k: ExpressionKind) -> ExprKindModel
    decreases k,
{
    match k {
        ExpressionKind::IntLiteral(n) => ExprKindModel::IntLiteral(n as int),
        ExpressionKind::BoolLiteral(b) => ExprKindModel::BoolLiteral(b),
        ExpressionKind::Unit => ExprKindModel::Unit,
        ExpressionKind::Ident(name) => ExprKindModel::Ident(name@),
        ExpressionKind::Prefix { operator, expression } => ExprKindModel::Prefix {
            operator,
            expression: Box::new(expr_model(*expression)),
        },
        ExpressionKind::Infix { left, operator, right } => ExprKindModel::Infix {
            left: Box::new(expr_model(*left)),
            operator,
            right: Box::new(expr_model(*right)),
        },
        ExpressionKind::VariableDecl { name, value, mutable, ty } => ExprKindModel::VariableDecl {
            name: name@,
            value: Box::new(expr_model(*value)),
            mutable,
            ty: opt_type_model(ty),
        },
        ExpressionKind::Function { parameters, return_type, body } => ExprKindModel::Function {
            parameters: params_model(parameters@),
            return_type: opt_type_model(return_type),
            body: stmts_model(body@),
        },
        ExpressionKind::FunctionCall { name, arguments } => ExprKindModel::FunctionCall {
            name: name@,
            arguments: args_model(arguments@),
        },
    }
}

pub open spec fn arg_model(a: FunctionArgument) -> ArgModel
    decreases a,
{
    ArgModel {
        label: match a.label {
            Option::Some(n) => Option::Some(n@),
            Option::None => Option::None,
        },
        value: expr_model(a.value),
    }
}

pub open spec fn args_model(s: Seq<FunctionArgument>) -> Seq<ArgModel>
    decreases s,
{
    if s.len() == 0 {
        Seq::empty()
    } else {
        args_model(s.drop_last()).push(arg_model(s[s.len() - 1]))
    }
}

pub open spec fn stmt_model(st: ExpressionStatement) -> StmtModel
    decreases st,
{
    StmtModel { expr: expr_model(st.expr), discarded: st.discarded }
}

pub open spec fn stmts_model(s: Seq<ExpressionStatement>) -> Seq<StmtModel>
    decreases s,
{
    if s.len() == 0 {
        Seq::empty()
    } else {
        stmts_model(s.drop_last()).push(stmt_model(s[s.len() - 1]))
    }
}

/// The model of a program is the sequence of its statements' models.
pub open spec fn program_model(p: Program) -> Seq<StmtModel> {
    stmts_model(p.0@)
}

pub proof fn lemma_params_model_push(s: Seq<FunctionParameter>, p: FunctionParameter)
    ensures
        params_model(s.push(p)) == params_model(s).push(param_model(p)),
{
    assert(s.push(p).drop_last() =~= s);
    assert(s.push(p)[s.push(p).len() - 1] == p);
}

pub proof fn lemma_args_model_push(s: Seq<FunctionArgument>, a: FunctionArgument)
    ensures
        args_model(s.push(a)) == args_model(s).push(arg_model(a)),
{
    assert(s.push(a).drop_last() =~= s);
    assert(s.push(a)[s.push(a).len() - 1] == a);
}

pub proof fn lemma_stmts_model_push(s: Seq<ExpressionStatement>, st: ExpressionStatement)
    ensures
        stmts_model(s.push(st)) == stmts_model(s).push(stmt_model(st)),
{
    assert(s.push(st).drop_last() =~= s);
    assert(s.push(st)[s.push(st).len() - 1] == st);
}

} // verus!
