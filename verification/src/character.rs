//! The punctuation of the grammar, each with whitespace allowed on both
//! sides.
use crate::text::{chars_of, finish, parsed, spec_symbol, symbol_at, ParseError};
use vstd::prelude::*;

verus! {

/// Matches `(` at the start of `input`, with the whitespace around it.
pub fn parse_left_parenthesis(input: &str) -> (r: Result<(&str, ()), ParseError>)
    ensures
        parsed(r, input@, spec_symbol(input@, 0, '(')),
{
    let chars = chars_of(input);
    let step = symbol_at(chars.as_slice(), 0, '(');
    finish(input, step, Ghost(spec_symbol(input@, 0, '(')))
}

/// Matches `)` at the start of `input`, with the whitespace around it.
pub fn parse_right_parenthesis(input: &str) -> (r: Result<(&str, ()), ParseError>)
    ensures
        parsed(r, input@, spec_symbol(input@, 0, ')')),
{
    let chars = chars_of(input);
    let step = symbol_at(chars.as_slice(), 0, ')');
    finish(input, step, Ghost(spec_symbol(input@, 0, ')')))
}

/// Matches `,` at the start of `input`, with the whitespace around it.
pub fn parse_comma(input: &str) -> (r: Result<(&str, ()), ParseError>)
    ensures
        parsed(r, input@, spec_symbol(input@, 0, ',')),
{
    let chars = chars_of(input);
    let step = symbol_at(chars.as_slice(), 0, ',');
    finish(input, step, Ghost(spec_symbol(input@, 0, ',')))
}

} // verus!
