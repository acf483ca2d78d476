//! Statements on tables.
pub mod alter;
pub mod constraint;
pub mod create;
pub mod drop_table;

use self::alter::{alter_table_at, spec_alter_table, AlterTable, AlterTableView};
use self::create::{
    create_table_at, spec_create_table, CreateTableStatement, CreateTableStatementView,
};
use crate::formatter::{Format, Formatter, Layout};
use crate::text::{agrees, chars_of, finish, left, parsed, ParseError, Parsed, Step};
use vstd::prelude::*;

verus! {

/// A statement on a table.
#[derive(Debug, PartialEq)]
pub enum Table {
    Create(CreateTableStatement),
    Alter(AlterTable),
}

/// The view of `Table`: the same tree with sequences of characters for its
/// strings and sequences of views for its lists.
#[verifier::ext_equal]
pub enum TableView {
    Create(CreateTableStatementView),
    Alter(AlterTableView),
}

/// The view of `x`.
#[verifier::opaque]
pub open spec fn table_view(x: Table) -> TableView
    decreases x,
{
    match x {
        Table::Create(x0) => TableView::Create(
            crate::table::create::create_table_statement_view(x0),
        ),
        Table::Alter(x0) => TableView::Alter(x0.deep_view()),
    }
}

impl DeepView for Table {
    type V = TableView;

    open spec fn deep_view(&self) -> TableView {
        table_view(*self)
    }
}

/// `CREATE TABLE`, or `ALTER TABLE`.
#[verifier::opaque]
pub open spec fn spec_table(s: Seq<char>, pos: int) -> Parsed<TableView>
    decreases left(s, pos), 1880nat,
{
    match spec_create_table(s, pos) {
        Parsed::Done(t, n) => Parsed::Done(TableView::Create(t), n),
        Parsed::Halt => Parsed::Halt,
        Parsed::Miss => match spec_alter_table(s, pos) {
            Parsed::Done(t, n) => Parsed::Done(TableView::Alter(t), n),
            f => f.cast(),
        },
    }
}

/// Reads at `pos` what `spec_table` describes: the value and the position
/// behind it, or the kind of failure.
pub fn table_at(inp: &[char], pos: usize) -> (r: Step<Table>)
    requires
        pos <= inp@.len(),
    ensures
        agrees(r, inp@, pos as int, spec_table(inp@, pos as int)),
    decreases left(inp@, pos as int), 1880nat,
{
    reveal(spec_table);
    reveal(spec_create_table);
    reveal(crate::table::table_view);
    reveal(crate::table::create::create_table_statement_view);
    match create_table_at(inp, pos) {
        Ok((t, end)) => Ok((Table::Create(t), end)),
        Err(ParseError::Failure) => Err(ParseError::Failure),
        Err(ParseError::Error) => match alter_table_at(inp, pos) {
            Ok((t, end)) => Ok((Table::Alter(t), end)),
            Err(e) => Err(e),
        },
    }
}

/// Parses a statement on a table at the start of `input`.
pub fn parse_table(input: &str) -> (r: Result<(&str, Table), ParseError>)
    ensures
        parsed(r, input@, spec_table(input@, 0)),
{
    let chars = chars_of(input);
    let step = table_at(chars.as_slice(), 0);
    finish(input, step, Ghost(spec_table(input@, 0)))
}

impl Format for Table {
    open spec fn rendered(&self, st: Layout) -> Layout
        decreases self,
    {
        match self {
            Table::Create(t) => t.rendered(st),
            Table::Alter(t) => t.rendered(st),
        }
    }

    fn format<'a>(&self, f: &'a mut Formatter) -> (r: &'a mut Formatter)
        decreases self,
    {
        match self {
            Table::Create(t) => t.format(f),
            Table::Alter(t) => t.format(f),
        }
    }
}

} // verus!
