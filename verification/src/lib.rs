//! A formatter for a small SQL dialect.
//!
//! Source text is parsed into a typed syntax tree and rendered back with
//! upper-case keywords and clause keywords aligned against their bodies.
//! Each grammar production is a function from a position in the input to a
//! value and a new position; each has a specification function of the same
//! shape over `Seq<char>`, and the executable parser is proved to agree
//! with it. Rendering is specified the same way, as a function from a tree
//! and a formatter state to the state that follows.
pub mod alike;
pub mod character;
pub mod clause;
pub mod comment;
pub mod data_type;
pub mod expression;
pub mod formatter;
pub mod function;
pub mod identifier;
pub mod insert;
pub mod keyword;
pub mod list;
pub mod numeric;
pub mod query;
pub mod select;
pub mod sequence;
pub mod set;
pub mod table;
pub mod term;
pub mod text;
pub mod update;
pub mod user_type;

use crate::alike::statements_alike;
use crate::formatter::{Format, Layout};
use crate::list::List;
use crate::query::{parse_statements, spec_statements, Statement};
use crate::text::{ParseError, Parsed};
use vstd::prelude::*;
use vstd::string::StringExecFns;

verus! {

/// Why a text could not be formatted.
#[derive(Debug, Clone, PartialEq)]
pub enum Error {
    /// No statement could be read at the start of the text. The string
    /// tells which kind of failure ended the parse.
    ParsingError(String),
    /// Statements were read, but the text goes on behind the last of them.
    /// The string is what was left unread.
    ParsingIncompleteError(String),
}

impl ParseError {
    /// A few words on the kind of failure.
    pub open spec fn spec_description(self) -> Seq<char> {
        match self {
            ParseError::Error => "Parsing Error"@,
            ParseError::Failure => "Parsing Failure"@,
        }
    }

    /// A few words on the kind of failure.
    pub fn description(&self) -> (r: &'static str)
        ensures
            r@ == self.spec_description(),
    {
        match self {
            ParseError::Error => "Parsing Error",
            ParseError::Failure => "Parsing Failure",
        }
    }
}

impl Error {
    /// The message of the error as text.
    pub open spec fn spec_message(self) -> Seq<char> {
        match self {
            Error::ParsingError(e) => "Unable to parse SQL: "@ + e@,
            Error::ParsingIncompleteError(rest) => "Unable to parse SQL: '"@ + rest@ + "'"@,
        }
    }

    /// The message of the error.
    pub fn message(&self) -> (r: String)
        ensures
            r@ == self.spec_message(),
    {
        match self {
            Error::ParsingError(e) => {
                let mut r = String::from_str("Unable to parse SQL: ");
                r.append(e.as_str());
                r
            },
            Error::ParsingIncompleteError(rest) => {
                let mut r = String::from_str("Unable to parse SQL: '");
                r.append(rest.as_str());
                r.append("'");
                r
            },
        }
    }
}

/// Some list of statements with the view `statements`.
pub open spec fn statements_with(statements: Seq<<Statement as DeepView>::V>) -> List<Statement> {
    choose|list: List<Statement>| list.deep_view() == statements
}

/// The text to which a new formatter renders statements with the view
/// `statements`. Rendering reads a tree through its view only, so every
/// list of statements with that view gives this text.
pub open spec fn statements_text(statements: Seq<<Statement as DeepView>::V>) -> Seq<char> {
    statements_with(statements).rendered(Layout::start()).buffer
}

/// What `format` returns on a text of which the statements `statements`
/// were read and `n` characters consumed: the text of the statements where
/// the whole text was consumed, else the unread rest.
pub open spec fn formatted(
    r: Result<String, Error>,
    source: Seq<char>,
    statements: Seq<<Statement as DeepView>::V>,
    n: nat,
) -> bool {
    if n == source.len() {
        r matches Ok(text) && text@ == statements_text(statements)
    } else {
        r matches Err(Error::ParsingIncompleteError(rest)) && rest@ == source.skip(n as int)
    }
}

/// Formats `source`: one or more statements, each ended by a semicolon.
///
/// The result is the canonical text of the statements, with a blank line
/// between two of them, where the whole of `source` is read. Where text is
/// left behind the last statement, that text comes back in
/// `Error::ParsingIncompleteError`; where no statement can be read at the
/// start, the result is `Error::ParsingError`.
pub fn format(source: &str) -> (r: Result<String, Error>)
    ensures
        match spec_statements(source@, 0) {
            Parsed::Done(statements, n) => formatted(r, source@, statements, n),
            Parsed::Miss => r matches Err(Error::ParsingError(e)) && e@
                == ParseError::Error.spec_description(),
            Parsed::Halt => r matches Err(Error::ParsingError(e)) && e@
                == ParseError::Failure.spec_description(),
        },
{
    match parse_statements(source) {
        Err(e) => Err(Error::ParsingError(String::from_str(e.description()))),
        Ok((remaining, ast)) => {
            if remaining.is_empty() {
                let text = ast.output();
                proof {
                    let chosen = statements_with(ast.deep_view());
                    assert(chosen.deep_view() == ast.deep_view());
                    statements_alike(ast, chosen, Layout::start());
                }
                Ok(text)
            } else {
                Err(Error::ParsingIncompleteError(String::from_str(remaining)))
            }
        },
    }
}

} // verus!
