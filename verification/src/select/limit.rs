//! The `LIMIT` clause.
use crate::clause::Clause;
use crate::formatter::{Format, Formatter, Layout};
use crate::keyword::{keyword_at, spec_keyword, Keyword};
use crate::numeric::{decimal, decimal_text, spec_u16, u16_at};
use crate::term::bind_parameter::{bind_parameter_at, spec_bind_parameter, BindParameter};
use crate::text::{agrees, chars_of, finish, parsed, ParseError, Parsed, Step};
use vstd::prelude::*;

verus! {

/// `LIMIT` and a number or a bound parameter.
#[derive(Debug, Clone, Copy, PartialEq, Eq, Structural)]
pub enum LimitClause {
    Number(u16),
    BindParameter(BindParameter),
}

impl DeepView for LimitClause {
    type V = LimitClause;

    open spec fn deep_view(&self) -> LimitClause {
        *self
    }
}

/// `LIMIT` and a bound parameter or a number from 0 to 65535.
#[verifier::opaque]
pub open spec fn spec_limit_clause(s: Seq<char>, pos: int) -> Parsed<LimitClause> {
    match spec_keyword(s, pos, Keyword::Limit) {
        Parsed::Done(_, k) => match spec_bind_parameter(s, pos + k) {
            Parsed::Done(b, n) => Parsed::Done(LimitClause::BindParameter(b), k + n),
            _ => match spec_u16(s, pos + k) {
                Parsed::Done(v, n) => Parsed::Done(LimitClause::Number(v), k + n),
                _ => Parsed::Miss,
            },
        },
        _ => Parsed::Miss,
    }
}

/// Reads at `pos` what `spec_limit_clause` describes: the value and the
/// position behind it, or the kind of failure.
pub fn limit_clause_at(inp: &[char], pos: usize) -> (r: Step<LimitClause>)
    requires
        pos <= inp@.len(),
    ensures
        agrees(r, inp@, pos as int, spec_limit_clause(inp@, pos as int)),
{
    reveal(spec_limit_clause);
    let p1 = match keyword_at(inp, pos, Keyword::Limit) {
        Ok((_, p)) => p,
        Err(_) => return Err(ParseError::Error),
    };
    if let Ok((b, end)) = bind_parameter_at(inp, p1) {
        return Ok((LimitClause::BindParameter(b), end));
    }
    match u16_at(inp, p1) {
        Ok((v, end)) => Ok((LimitClause::Number(v), end)),
        Err(_) => Err(ParseError::Error),
    }
}

/// Parses a `LIMIT` clause at the start of `input`.
pub fn parse_limit_clause(input: &str) -> (r: Result<(&str, LimitClause), ParseError>)
    ensures
        parsed(r, input@, spec_limit_clause(input@, 0)),
{
    let chars = chars_of(input);
    let step = limit_clause_at(chars.as_slice(), 0);
    finish(input, step, Ghost(spec_limit_clause(input@, 0)))
}

impl Clause for LimitClause {
    open spec fn clause_keyword() -> Keyword {
        Keyword::Limit
    }

    fn leading() -> (k: Keyword) {
        Keyword::Limit
    }
}

/// `LIMIT`, a space and the number or the bound parameter.
impl Format for LimitClause {
    open spec fn rendered(&self, st: Layout) -> Layout {
        match self {
            LimitClause::Number(n) => st.append(Keyword::Limit.spec_text()).space().append(
                decimal(*n as nat),
            ),
            LimitClause::BindParameter(b) => b.rendered(
                st.append(Keyword::Limit.spec_text()).space(),
            ),
        }
    }

    fn format<'a>(&self, f: &'a mut Formatter) -> (r: &'a mut Formatter) {
        match self {
            LimitClause::Number(n) => {
                let t = decimal_text(*n as u64);
                f.append(Keyword::Limit.text()).space().append(t.as_str())
            },
            LimitClause::BindParameter(b) => {
                f.append(Keyword::Limit.text()).space();
                b.format(f)
            },
        }
    }
}

} // verus!
