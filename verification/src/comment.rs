//! Comments. They are recognised on their own and play no part in the
//! grammar of statements.
use crate::text::{
    agrees, chars_of, finish, parsed, run_end, run_len, Class, ParseError, Parsed, Step,
};
use vstd::prelude::*;

verus! {

/// The characters `a` and `b` stand at `pos` and behind it.
pub open spec fn pair_at(s: Seq<char>, pos: int, a: char, b: char) -> bool {
    0 <= pos && pos + 1 < s.len() && s[pos] == a && s[pos + 1] == b
}

/// How many characters stand between `pos` and the first `*/` at or behind
/// `pos`; the distance to the end of the input where there is none.
pub open spec fn to_close(s: Seq<char>, pos: int) -> nat
    decreases s.len() - pos,
{
    if pos < 0 || pos >= s.len() || pair_at(s, pos, '*', '/') {
        0
    } else {
        1 + to_close(s, pos + 1)
    }
}

/// A comment between `/*` and the first `*/` behind it.
pub open spec fn spec_multiline_comment(s: Seq<char>, pos: int) -> Parsed<()> {
    if pair_at(s, pos, '/', '*') {
        let n = to_close(s, pos + 2);
        if pair_at(s, pos + 2 + n, '*', '/') {
            Parsed::Done((), n + 4)
        } else {
            Parsed::Miss
        }
    } else {
        Parsed::Miss
    }
}

/// Reads at `pos` what `spec_multiline_comment` describes: the value and the
/// position behind it, or the kind of failure.
pub fn multiline_comment_at(inp: &[char], pos: usize) -> (r: Step<()>)
    requires
        pos <= inp@.len(),
    ensures
        agrees(r, inp@, pos as int, spec_multiline_comment(inp@, pos as int)),
{
    let len = inp.len();
    if !(len >= 2 && pos < len - 1 && inp[pos] == '/' && inp[pos + 1] == '*') {
        return Err(ParseError::Error);
    }
    let mut i: usize = pos + 2;
    while i < len && !(i + 1 < len && inp[i] == '*' && inp[i + 1] == '/')
        invariant
            pos + 2 <= i <= len,
            len == inp@.len(),
            i + to_close(inp@, i as int) == pos + 2 + to_close(inp@, pos + 2),
        decreases len - i,
    {
        i += 1;
    }
    if i < len {
        Ok(((), i + 2))
    } else {
        Err(ParseError::Error)
    }
}

/// Matches a comment between `/*` and `*/` at the start of `input`.
pub fn parse_multiline_comment(input: &str) -> (r: Result<(&str, ()), ParseError>)
    ensures
        parsed(r, input@, spec_multiline_comment(input@, 0)),
{
    let chars = chars_of(input);
    let step = multiline_comment_at(chars.as_slice(), 0);
    finish(input, step, Ghost(spec_multiline_comment(input@, 0)))
}

/// A comment from `--` to the end of the line; the line feed belongs to
/// it.
pub open spec fn spec_inline_comment(s: Seq<char>, pos: int) -> Parsed<()> {
    if pair_at(s, pos, '-', '-') {
        let n = run_len(s, pos + 2, Class::Not('\n'));
        if pos + 2 + n < s.len() {
            Parsed::Done((), n + 3)
        } else {
            Parsed::Done((), n + 2)
        }
    } else {
        Parsed::Miss
    }
}

/// Reads at `pos` what `spec_inline_comment` describes: the value and the
/// position behind it, or the kind of failure.
pub fn inline_comment_at(inp: &[char], pos: usize) -> (r: Step<()>)
    requires
        pos <= inp@.len(),
    ensures
        agrees(r, inp@, pos as int, spec_inline_comment(inp@, pos as int)),
{
    let len = inp.len();
    if !(len >= 2 && pos < len - 1 && inp[pos] == '-' && inp[pos + 1] == '-') {
        return Err(ParseError::Error);
    }
    let end = run_end(inp, pos + 2, Class::Not('\n'));
    if end < len {
        Ok(((), end + 1))
    } else {
        Ok(((), end))
    }
}

/// Matches a comment from `--` to the end of the line at the start of
/// `input`.
pub fn parse_inline_comment(input: &str) -> (r: Result<(&str, ()), ParseError>)
    ensures
        parsed(r, input@, spec_inline_comment(input@, 0)),
{
    let chars = chars_of(input);
    let step = inline_comment_at(chars.as_slice(), 0);
    finish(input, step, Ghost(spec_inline_comment(input@, 0)))
}

} // verus!
