//! Bound parameters.
use crate::formatter::{Format, Formatter, Layout};
use crate::numeric::{decimal, decimal_text, spec_u8, u8_at};
use crate::text::{agrees, char_at, chars_of, finish, parsed, spec_char, ParseError, Parsed, Step};
use vstd::prelude::*;

verus! {

/// A bound parameter: `?`, or `:` and an index.
#[derive(Debug, Clone, Copy, PartialEq, Eq, Structural)]
pub enum BindParameter {
    Placeholder,
    Index(u8),
}

impl DeepView for BindParameter {
    type V = BindParameter;

    open spec fn deep_view(&self) -> BindParameter {
        *self
    }
}

/// A question mark, or a colon and an index from 0 to 255.
pub open spec fn spec_bind_parameter(s: Seq<char>, pos: int) -> Parsed<BindParameter> {
    match spec_char(s, pos, '?') {
        Parsed::Done(_, n) => Parsed::Done(BindParameter::Placeholder, n),
        _ => match spec_char(s, pos, ':') {
            Parsed::Done(_, n) => match spec_u8(s, pos + n) {
                Parsed::Done(i, m) => Parsed::Done(BindParameter::Index(i), n + m),
                _ => Parsed::Miss,
            },
            _ => Parsed::Miss,
        },
    }
}

/// Reads at `pos` what `spec_bind_parameter` describes: the value and the
/// position behind it, or the kind of failure.
pub fn bind_parameter_at(inp: &[char], pos: usize) -> (r: Step<BindParameter>)
    requires
        pos <= inp@.len(),
    ensures
        agrees(r, inp@, pos as int, spec_bind_parameter(inp@, pos as int)),
{
    match char_at(inp, pos, '?') {
        Ok((_, end)) => Ok((BindParameter::Placeholder, end)),
        Err(_) => match char_at(inp, pos, ':') {
            Ok((_, p1)) => match u8_at(inp, p1) {
                Ok((i, end)) => Ok((BindParameter::Index(i), end)),
                Err(_) => Err(ParseError::Error),
            },
            Err(_) => Err(ParseError::Error),
        },
    }
}

/// Parses a bound parameter at the start of `input`.
pub fn parse_bind_parameter(input: &str) -> (r: Result<(&str, BindParameter), ParseError>)
    ensures
        parsed(r, input@, spec_bind_parameter(input@, 0)),
{
    let chars = chars_of(input);
    let step = bind_parameter_at(chars.as_slice(), 0);
    finish(input, step, Ghost(spec_bind_parameter(input@, 0)))
}

impl Format for BindParameter {
    open spec fn rendered(&self, st: Layout) -> Layout {
        match self {
            BindParameter::Placeholder => st.append("?"@),
            BindParameter::Index(i) => st.append(":"@).append(decimal(*i as nat)),
        }
    }

    fn format<'a>(&self, f: &'a mut Formatter) -> (r: &'a mut Formatter) {
        match self {
            BindParameter::Placeholder => f.append("?"),
            BindParameter::Index(i) => {
                let t = decimal_text(*i as u64);
                f.append(":").append(t.as_str())
            },
        }
    }
}

} // verus!
