//! Clauses: the parts of a statement that a fixed reserved word leads.
use crate::keyword::{keyword_at, spec_keyword, Keyword};
use crate::text::{chars_of, finish, parsed, ParseError};
use vstd::prelude::*;

verus! {

/// A part of a statement that is led by a reserved word which is fixed for
/// its type.
pub trait Clause {
    /// The reserved word that leads the clause.
    spec fn clause_keyword() -> Keyword;

    /// The reserved word that leads the clause.
    fn leading() -> (k: Keyword)
        ensures
            k == Self::clause_keyword(),
    ;

    /// The reserved word that leads the clause.
    fn keyword(&self) -> (k: Keyword)
        ensures
            k == Self::clause_keyword(),
    {
        Self::leading()
    }

    /// The width of the reserved word, by which the bodies of the clauses
    /// of a statement are aligned.
    fn side(&self) -> (n: usize)
        ensures
            n == Self::clause_keyword().width(),
    {
        Self::leading().len()
    }

    /// Matches the leading reserved word at the start of `input`, in any
    /// case, with the whitespace around it.
    fn parse_keyword(input: &str) -> (r: Result<(&str, ()), ParseError>)
        ensures
            parsed(r, input@, spec_keyword(input@, 0, Self::clause_keyword())),
    {
        let chars = chars_of(input);
        let step = keyword_at(chars.as_slice(), 0, Self::leading());
        finish(input, step, Ghost(spec_keyword(input@, 0, Self::clause_keyword())))
    }
}

} // verus!
