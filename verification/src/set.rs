//! `SET` statements.
use crate::clause::Clause;
use crate::formatter::{Format, Formatter, Layout};
use crate::identifier::{name_at, spec_name, Name, NameView};
use crate::keyword::{keyword_at, spec_keyword, Keyword};
use crate::term::value::{spec_value, value_at, Value, ValueView};
use crate::text::{
    agrees, chars_of, finish, parsed, skip_ws, spaced, spaced_step, spec_symbol, symbol_at,
    ws_count, ParseError, Parsed, Step,
};
use vstd::prelude::*;

verus! {

/// `SET name = value`.
#[derive(Debug, PartialEq, Clone)]
pub struct SetStatement(pub Name, pub Value);

/// The view of `SetStatement`: the same tree with sequences of characters
/// for its strings and sequences of views for its lists.
#[verifier::ext_equal]
pub struct SetStatementView(pub NameView, pub ValueView);

impl DeepView for SetStatement {
    type V = SetStatementView;

    open spec fn deep_view(&self) -> SetStatementView {
        SetStatementView(self.0.deep_view(), self.1.deep_view())
    }
}

/// `SET`, a name, `=` and a literal value.
#[verifier::opaque]
pub open spec fn spec_set_statement(s: Seq<char>, pos: int) -> Parsed<SetStatementView> {
    match spec_keyword(s, pos, Keyword::SetWord) {
        Parsed::Done(_, k) => match spec_name(s, pos + k) {
            Parsed::Done(name, n) => match spec_symbol(s, pos + k + n, '=') {
                Parsed::Done(_, m) => {
                    let p = pos + k + n + m;
                    match spaced(s, p, spec_value(s, p + ws_count(s, p))) {
                        Parsed::Done(value, j) => Parsed::Done(
                            SetStatementView(name, value),
                            k + n + m + j,
                        ),
                        f => f.cast(),
                    }
                },
                _ => Parsed::Miss,
            },
            _ => Parsed::Miss,
        },
        _ => Parsed::Miss,
    }
}

/// Reads at `pos` what `spec_set_statement` describes: the value and the
/// position behind it, or the kind of failure.
pub fn set_statement_at(inp: &[char], pos: usize) -> (r: Step<SetStatement>)
    requires
        pos <= inp@.len(),
    ensures
        agrees(r, inp@, pos as int, spec_set_statement(inp@, pos as int)),
{
    reveal(spec_set_statement);
    let p1 = match keyword_at(inp, pos, Keyword::SetWord) {
        Ok((_, p)) => p,
        Err(_) => return Err(ParseError::Error),
    };
    let (name, p2) = match name_at(inp, p1) {
        Ok(done) => done,
        Err(_) => return Err(ParseError::Error),
    };
    let p3 = match symbol_at(inp, p2, '=') {
        Ok((_, p)) => p,
        Err(_) => return Err(ParseError::Error),
    };
    let start = skip_ws(inp, p3);
    let step = value_at(inp, start);
    match spaced_step(inp, p3, step, Ghost(spec_value(inp@, start as int))) {
        Ok((value, end)) => Ok((SetStatement(name, value), end)),
        Err(e) => Err(e),
    }
}

/// Parses a `SET` statement at the start of `input`.
pub fn parse_set_statement(input: &str) -> (r: Result<(&str, SetStatement), ParseError>)
    ensures
        parsed(r, input@, spec_set_statement(input@, 0)),
{
    let chars = chars_of(input);
    let step = set_statement_at(chars.as_slice(), 0);
    finish(input, step, Ghost(spec_set_statement(input@, 0)))
}

impl Clause for SetStatement {
    open spec fn clause_keyword() -> Keyword {
        Keyword::SetWord
    }

    fn leading() -> (k: Keyword) {
        Keyword::SetWord
    }
}

/// `SET`, the name, `=` and the value, separated by single spaces.
impl Format for SetStatement {
    open spec fn rendered(&self, st: Layout) -> Layout {
        self.1.rendered(
            self.0.rendered(st.append(Keyword::SetWord.spec_text()).space()).space().append(
                "="@,
            ).space(),
        )
    }

    fn format<'a>(&self, f: &'a mut Formatter) -> (r: &'a mut Formatter) {
        f.append(Keyword::SetWord.text()).ws();
        self.0.format(f).ws().append_str("=").ws();
        self.1.format(f)
    }
}

} // verus!
