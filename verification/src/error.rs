//! The closed set of parse errors, and its ghost model.

use vstd::prelude::*;
use vstd::string::StringExecFns;
use crate::token::TokenKind;

verus! {

/// One error value; the first failure aborts the entire parse and is
/// surfaced verbatim, with no partial result.
#[derive(PartialEq, Eq, Debug, Clone)]
pub enum Error {
    /// The stream was exhausted in the middle of a rule.
    NoToken,
    /// The current token cannot begin an expression.
    NoPrefixParseFn(TokenKind),
    /// A specific token or shape was required and a different one was found.
    Expected { expected: String, got: String },
    /// A grammar-level violation, such as consecutive integer literals.
    Syntax(String),
    /// End of input was reached where a token was mandatory.
    UnexpectedEof,
}

/// Ghost model of an error, with messages as character sequences.
pub ghost enum ErrorModel {
    NoToken,
    NoPrefixParseFn(TokenKind),
    Expected { expected: Seq<char>, got: Seq<char> },
    Syntax(Seq<char>),
    UnexpectedEof,
}

pub open spec fn error_model(e: Error) -> ErrorModel {
    match e {
        Error::NoToken => ErrorModel::NoToken,
        Error::NoPrefixParseFn(k) => ErrorModel::NoPrefixParseFn(k),
        Error::Expected { expected, got } => ErrorModel::Expected {
            expected: expected@,
            got: got@,
        },
        Error::Syntax(m) => ErrorModel::Syntax(m@),
        Error::UnexpectedEof => ErrorModel::UnexpectedEof,
    }
}

/// The model of the error built by [`Error::expected`].
pub open spec fn expected_err(expected: Seq<char>, got: Seq<char>) -> ErrorModel {
    ErrorModel::Expected { expected, got }
}

/// The model of the error built by [`Error::syntax_err`].
pub open spec fn syntax_err(message: Seq<char>) -> ErrorModel {
    ErrorModel::Syntax("syntax error: "@ + message)
}

impl Error {
    /// A mismatch between a required shape and the token that was found.
    pub fn expected(expected: &str, got: &str) -> (e: Self)
        ensures
            error_model(e) == expected_err(expected@, got@),
    {
        Self::Expected { expected: expected.to_owned(), got: got.to_owned() }
    }

    /// A grammar-level violation, prefixed as a syntax error.
    pub fn syntax_err(s: &str) -> (e: Self)
        ensures
            error_model(e) == syntax_err(s@),
    {
        let mut m = String::from_str("syntax error: ");
        m.append(s);
        Self::Syntax(m)
    }
}

} // verus!
