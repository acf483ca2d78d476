//! `DROP TABLE`.
use crate::clause::Clause;
use crate::formatter::{Format, Formatter, Layout};
use crate::keyword::{keyword_at, spec_keyword, Keyword};
use crate::table::create::{spec_ws_table_ref, ws_table_ref_at, TableRef, TableRefView};
use crate::text::{
    agrees, chars_of, finish, optional_step, parsed, ParseError, Parsed, Step,
};
use vstd::prelude::*;

verus! {

/// `DROP TABLE`, the table and the behaviour.
#[derive(Debug, PartialEq, Clone)]
pub struct DropTable(pub TableRef, pub Option<DropBehavior>);

/// The view of `DropTable`: the same tree with sequences of characters for
/// its strings and sequences of views for its lists.
#[verifier::ext_equal]
pub struct DropTableView(pub TableRefView, pub Option<DropBehavior>);

impl DeepView for DropTable {
    type V = DropTableView;

    open spec fn deep_view(&self) -> DropTableView {
        DropTableView(self.0.deep_view(), self.1.deep_view())
    }
}

/// What `DROP` does to dependent objects.
#[derive(Debug, Clone, Copy, PartialEq, Eq, Structural)]
pub enum DropBehavior {
    Cascade,
    Restrict,
}

impl DeepView for DropBehavior {
    type V = DropBehavior;

    open spec fn deep_view(&self) -> DropBehavior {
        *self
    }
}

/// `CASCADE` or `RESTRICT`.
#[verifier::opaque]
pub open spec fn spec_drop_behavior(s: Seq<char>, pos: int) -> Parsed<DropBehavior> {
    match spec_keyword(s, pos, Keyword::Cascade) {
        Parsed::Done(_, n) => Parsed::Done(DropBehavior::Cascade, n),
        _ => match spec_keyword(s, pos, Keyword::Restrict) {
            Parsed::Done(_, n) => Parsed::Done(DropBehavior::Restrict, n),
            _ => Parsed::Miss,
        },
    }
}

/// Reads at `pos` what `spec_drop_behavior` describes: the value and the
/// position behind it, or the kind of failure.
pub fn drop_behavior_at(inp: &[char], pos: usize) -> (r: Step<DropBehavior>)
    requires
        pos <= inp@.len(),
    ensures
        agrees(r, inp@, pos as int, spec_drop_behavior(inp@, pos as int)),
{
    reveal(spec_drop_behavior);
    if let Ok((_, end)) = keyword_at(inp, pos, Keyword::Cascade) {
        return Ok((DropBehavior::Cascade, end));
    }
    match keyword_at(inp, pos, Keyword::Restrict) {
        Ok((_, end)) => Ok((DropBehavior::Restrict, end)),
        Err(_) => Err(ParseError::Error),
    }
}

/// Parses `CASCADE` or `RESTRICT` at the start of `input`.
pub fn parse_drop_behavior(input: &str) -> (r: Result<(&str, DropBehavior), ParseError>)
    ensures
        parsed(r, input@, spec_drop_behavior(input@, 0)),
{
    let chars = chars_of(input);
    let step = drop_behavior_at(chars.as_slice(), 0);
    finish(input, step, Ghost(spec_drop_behavior(input@, 0)))
}

/// `DROP`, `TABLE`, a table and an optional behaviour.
#[verifier::opaque]
pub open spec fn spec_drop_table(s: Seq<char>, pos: int) -> Parsed<DropTableView> {
    match spec_keyword(s, pos, Keyword::Drop) {
        Parsed::Done(_, k) => match spec_keyword(s, pos + k, Keyword::Table) {
            Parsed::Done(_, n) => match spec_ws_table_ref(s, pos + k + n) {
                Parsed::Done(table, m) => match spec_drop_behavior(s, pos + k + n + m).optional() {
                    Parsed::Done(behavior, j) => Parsed::Done(
                        DropTableView(table, behavior),
                        k + n + m + j,
                    ),
                    _ => Parsed::Miss,
                },
                _ => Parsed::Miss,
            },
            _ => Parsed::Miss,
        },
        _ => Parsed::Miss,
    }
}

/// Reads at `pos` what `spec_drop_table` describes: the value and the
/// position behind it, or the kind of failure.
pub fn drop_table_at(inp: &[char], pos: usize) -> (r: Step<DropTable>)
    requires
        pos <= inp@.len(),
    ensures
        agrees(r, inp@, pos as int, spec_drop_table(inp@, pos as int)),
{
    reveal(spec_drop_table);
    let p1 = match keyword_at(inp, pos, Keyword::Drop) {
        Ok((_, p)) => p,
        Err(_) => return Err(ParseError::Error),
    };
    let p2 = match keyword_at(inp, p1, Keyword::Table) {
        Ok((_, p)) => p,
        Err(_) => return Err(ParseError::Error),
    };
    let (table, p3) = match ws_table_ref_at(inp, p2) {
        Ok(done) => done,
        Err(_) => return Err(ParseError::Error),
    };
    match optional_step(
        inp,
        p3,
        drop_behavior_at(inp, p3),
        Ghost(spec_drop_behavior(inp@, p3 as int)),
    ) {
        Ok((behavior, end)) => Ok((DropTable(table, behavior), end)),
        Err(_) => Err(ParseError::Error),
    }
}

/// Parses `DROP TABLE` at the start of `input`.
pub fn parse_drop_table(input: &str) -> (r: Result<(&str, DropTable), ParseError>)
    ensures
        parsed(r, input@, spec_drop_table(input@, 0)),
{
    let chars = chars_of(input);
    let step = drop_table_at(chars.as_slice(), 0);
    finish(input, step, Ghost(spec_drop_table(input@, 0)))
}

impl Clause for DropTable {
    open spec fn clause_keyword() -> Keyword {
        Keyword::DropTable
    }

    fn leading() -> (k: Keyword) {
        Keyword::DropTable
    }
}

impl Format for DropBehavior {
    open spec fn rendered(&self, st: Layout) -> Layout {
        match self {
            DropBehavior::Cascade => st.append(Keyword::Cascade.spec_text()),
            DropBehavior::Restrict => st.append(Keyword::Restrict.spec_text()),
        }
    }

    fn format<'a>(&self, f: &'a mut Formatter) -> (r: &'a mut Formatter) {
        match self {
            DropBehavior::Cascade => f.append(Keyword::Cascade.text()),
            DropBehavior::Restrict => f.append(Keyword::Restrict.text()),
        }
    }
}

/// `DROP TABLE`, the table and the behaviour, separated by single spaces.
impl Format for DropTable {
    open spec fn rendered(&self, st: Layout) -> Layout {
        let table = self.0.rendered(
            st.append(Keyword::Drop.spec_text()).space().append(Keyword::Table.spec_text()).space(),
        );
        match self.1 {
            Some(behavior) => behavior.rendered(table.space()),
            None => table,
        }
    }

    fn format<'a>(&self, f: &'a mut Formatter) -> (r: &'a mut Formatter) {
        f.append(Keyword::Drop.text()).ws().append(Keyword::Table.text()).ws();
        self.0.format(f);
        match &self.1 {
            Some(behavior) => {
                f.ws();
                behavior.format(f)
            },
            None => f,
        }
    }
}

} // verus!
