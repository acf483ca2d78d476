//! Statements of every kind, and sequences of statements.
use crate::formatter::{Format, Formatter, Layout};
use crate::insert::{
    insert_into_statement_at, spec_insert_into_statement, InsertStatement, InsertStatementView,
};
use crate::list::List;
use crate::select::statement::{
    select_statement_at, spec_select_statement, SelectStatement, SelectStatementView,
};
use crate::select::table_operator::{
    combined_tables_at, spec_combined_tables, CombinedTables, CombinedTablesView,
};
use crate::sequence::{sequence_at, spec_sequence, Sequence, SequenceView};
use crate::set::{set_statement_at, spec_set_statement, SetStatement, SetStatementView};
use crate::table::{spec_table, table_at, Table, TableView};
use crate::text::{
    agrees, chars_of, finish, left, parsed, spec_symbol, symbol_at, ParseError, Parsed, Step,
};
use crate::update::{
    spec_update_statement, update_statement_at, UpdateStatement, UpdateStatementView,
};
use crate::user_type::{
    spec_user_defined_type_definition, user_defined_type_definition_at, UserDefinedTypeDefinition,
    UserDefinedTypeDefinitionView,
};
use vstd::prelude::*;

verus! {

/// A query with the semicolon that ends it.
#[derive(Debug, PartialEq)]
pub struct Statement(pub Query);

/// The view of `Statement`: the same tree with sequences of characters for
/// its strings and sequences of views for its lists.
#[verifier::ext_equal]
pub struct StatementView(pub QueryView);

/// The view of `x`.
#[verifier::opaque]
pub open spec fn statement_view(x: Statement) -> StatementView
    decreases x,
{
    StatementView(crate::query::query_view(x.0))
}

impl DeepView for Statement {
    type V = StatementView;

    open spec fn deep_view(&self) -> StatementView {
        statement_view(*self)
    }
}

/// A statement of any kind.
#[derive(Debug, PartialEq)]
pub enum Query {
    CombinedSelect(CombinedTables),
    Select(Box<SelectStatement>),
    Table(Table),
    Update(UpdateStatement),
    Insert(InsertStatement),
    Sequence(Sequence),
    UserDefinedType(UserDefinedTypeDefinition),
    SetWord(SetStatement),
}

/// The view of `Query`: the same tree with sequences of characters for its
/// strings and sequences of views for its lists.
#[verifier::ext_equal]
pub enum QueryView {
    CombinedSelect(CombinedTablesView),
    Select(Box<SelectStatementView>),
    Table(TableView),
    Update(UpdateStatementView),
    Insert(InsertStatementView),
    Sequence(SequenceView),
    UserDefinedType(UserDefinedTypeDefinitionView),
    SetWord(SetStatementView),
}

/// The view of `x`.
#[verifier::opaque]
pub open spec fn query_view(x: Query) -> QueryView
    decreases x,
{
    match x {
        Query::CombinedSelect(x0) => QueryView::CombinedSelect(
            crate::select::table_operator::combined_tables_view(x0),
        ),
        Query::Select(x0) => QueryView::Select(
            Box::new(crate::select::statement::select_statement_view((*x0))),
        ),
        Query::Table(x0) => QueryView::Table(crate::table::table_view(x0)),
        Query::Update(x0) => QueryView::Update(crate::update::update_statement_view(x0)),
        Query::Insert(x0) => QueryView::Insert(crate::insert::insert_statement_view(x0)),
        Query::Sequence(x0) => QueryView::Sequence(x0.deep_view()),
        Query::UserDefinedType(x0) => QueryView::UserDefinedType(x0.deep_view()),
        Query::SetWord(x0) => QueryView::SetWord(x0.deep_view()),
    }
}

impl DeepView for Query {
    type V = QueryView;

    open spec fn deep_view(&self) -> QueryView {
        query_view(*self)
    }
}

/// A statement: two queries with a set operator between them, a `SELECT`
/// statement, a statement on a table, an `UPDATE`, an `INSERT`, a
/// `CREATE SEQUENCE`, a `CREATE TYPE` or a `SET`, tried in that order.
#[verifier::opaque]
pub open spec fn spec_query(s: Seq<char>, pos: int) -> Parsed<QueryView>
    decreases left(s, pos), 1900nat,
{
    match spec_combined_tables(s, pos) {
        Parsed::Done(q, n) => Parsed::Done(QueryView::CombinedSelect(q), n),
        Parsed::Halt => Parsed::Halt,
        Parsed::Miss => match spec_select_statement(s, pos) {
            Parsed::Done(q, n) => Parsed::Done(QueryView::Select(Box::new(q)), n),
            Parsed::Halt => Parsed::Halt,
            Parsed::Miss => match spec_table(s, pos) {
                Parsed::Done(q, n) => Parsed::Done(QueryView::Table(q), n),
                Parsed::Halt => Parsed::Halt,
                Parsed::Miss => match spec_update_statement(s, pos) {
                    Parsed::Done(q, n) => Parsed::Done(QueryView::Update(q), n),
                    Parsed::Halt => Parsed::Halt,
                    Parsed::Miss => match spec_insert_into_statement(s, pos) {
                        Parsed::Done(q, n) => Parsed::Done(QueryView::Insert(q), n),
                        Parsed::Halt => Parsed::Halt,
                        Parsed::Miss => match spec_sequence(s, pos) {
                            Parsed::Done(q, n) => Parsed::Done(QueryView::Sequence(q), n),
                            _ => match spec_user_defined_type_definition(s, pos) {
                                Parsed::Done(q, n) => Parsed::Done(QueryView::UserDefinedType(q), n),
                                Parsed::Halt => Parsed::Halt,
                                Parsed::Miss => match spec_set_statement(s, pos) {
                                    Parsed::Done(q, n) => Parsed::Done(QueryView::SetWord(q), n),
                                    f => f.cast(),
                                },
                            },
                        },
                    },
                },
            },
        },
    }
}

/// Reads at `pos` what `spec_query` describes: the value and the position
/// behind it, or the kind of failure.
pub fn query_at(inp: &[char], pos: usize) -> (r: Step<Query>)
    requires
        pos <= inp@.len(),
    ensures
        agrees(r, inp@, pos as int, spec_query(inp@, pos as int)),
    decreases left(inp@, pos as int), 1900nat,
{
    reveal(spec_query);
    reveal(spec_table);
    reveal(crate::query::query_view);
    reveal(crate::select::table_operator::combined_tables_view);
    reveal(crate::select::statement::select_statement_view);
    reveal(crate::table::table_view);
    reveal(crate::update::update_statement_view);
    reveal(crate::insert::insert_statement_view);
    match combined_tables_at(inp, pos) {
        Ok((q, end)) => return Ok((Query::CombinedSelect(q), end)),
        Err(ParseError::Failure) => return Err(ParseError::Failure),
        Err(ParseError::Error) => {},
    }
    match select_statement_at(inp, pos) {
        Ok((q, end)) => return Ok((Query::Select(Box::new(q)), end)),
        Err(ParseError::Failure) => return Err(ParseError::Failure),
        Err(ParseError::Error) => {},
    }
    match table_at(inp, pos) {
        Ok((q, end)) => return Ok((Query::Table(q), end)),
        Err(ParseError::Failure) => return Err(ParseError::Failure),
        Err(ParseError::Error) => {},
    }
    match update_statement_at(inp, pos) {
        Ok((q, end)) => return Ok((Query::Update(q), end)),
        Err(ParseError::Failure) => return Err(ParseError::Failure),
        Err(ParseError::Error) => {},
    }
    match insert_into_statement_at(inp, pos) {
        Ok((q, end)) => return Ok((Query::Insert(q), end)),
        Err(ParseError::Failure) => return Err(ParseError::Failure),
        Err(ParseError::Error) => {},
    }
    if let Ok((q, end)) = sequence_at(inp, pos) {
        return Ok((Query::Sequence(q), end));
    }
    match user_defined_type_definition_at(inp, pos) {
        Ok((q, end)) => return Ok((Query::UserDefinedType(q), end)),
        Err(ParseError::Failure) => return Err(ParseError::Failure),
        Err(ParseError::Error) => {},
    }
    match set_statement_at(inp, pos) {
        Ok((q, end)) => Ok((Query::SetWord(q), end)),
        Err(e) => Err(e),
    }
}

/// Parses a statement of any kind at the start of `input`.
pub fn parse_query(input: &str) -> (r: Result<(&str, Query), ParseError>)
    ensures
        parsed(r, input@, spec_query(input@, 0)),
{
    let chars = chars_of(input);
    let step = query_at(chars.as_slice(), 0);
    finish(input, step, Ghost(spec_query(input@, 0)))
}

/// A statement and the semicolon that ends it.
#[verifier::opaque]
pub open spec fn spec_statement(s: Seq<char>, pos: int) -> Parsed<StatementView>
    decreases left(s, pos), 1910nat,
{
    match spec_query(s, pos) {
        Parsed::Done(q, k) => match spec_symbol(s, pos + k, ';') {
            Parsed::Done(_, n) => Parsed::Done(StatementView(q), k + n),
            _ => Parsed::Miss,
        },
        f => f.cast(),
    }
}

/// Reads at `pos` what `spec_statement` describes: the value and the
/// position behind it, or the kind of failure.
pub fn statement_at(inp: &[char], pos: usize) -> (r: Step<Statement>)
    requires
        pos <= inp@.len(),
    ensures
        agrees(r, inp@, pos as int, spec_statement(inp@, pos as int)),
    decreases left(inp@, pos as int), 1910nat,
{
    reveal(spec_statement);
    reveal(crate::query::statement_view);
    reveal(crate::query::query_view);
    let (q, p1) = match query_at(inp, pos) {
        Ok(done) => done,
        Err(e) => return Err(e),
    };
    match symbol_at(inp, p1, ';') {
        Ok((_, end)) => Ok((Statement(q), end)),
        Err(_) => Err(ParseError::Error),
    }
}

/// The elements that follow in a sequence of which `acc` has been read,
/// as many as are there. An element that consumes nothing ends the
/// sequence with a mismatch.
#[verifier::opaque]
pub open spec fn spec_statements_more(s: Seq<char>, pos: int, acc: Seq<StatementView>) -> Parsed<
    Seq<StatementView>,
>
    decreases left(s, pos), 1919nat,
{
    match spec_statement(s, pos) {
        Parsed::Done(x, n) => if n == 0 || pos + n > s.len() {
            Parsed::Miss
        } else {
            spec_statements_more(s, pos + n, acc.push(x)).after(n)
        },
        Parsed::Halt => Parsed::Halt,
        Parsed::Miss => Parsed::Done(acc, 0),
    }
}

/// One or more statements, each ended by a semicolon.
#[verifier::opaque]
pub open spec fn spec_statements(s: Seq<char>, pos: int) -> Parsed<Seq<StatementView>>
    decreases left(s, pos), 1920nat,
{
    match spec_statement(s, pos) {
        Parsed::Done(x, n) => spec_statements_more(s, pos + n, seq![x]).after(n),
        f => f.cast(),
    }
}

/// Reads at `pos` what `spec_statements` describes: the value and the
/// position behind it, or the kind of failure.
pub fn statements_at(inp: &[char], pos: usize) -> (r: Step<Vec<Statement>>)
    requires
        pos <= inp@.len(),
    ensures
        agrees(r, inp@, pos as int, spec_statements(inp@, pos as int)),
    decreases left(inp@, pos as int), 1920nat,
{
    reveal(spec_statements);
    reveal(spec_statement);
    reveal(spec_statements_more);
    let (first, start) = match statement_at(inp, pos) {
        Ok(done) => done,
        Err(e) => return Err(e),
    };
    let ghost whole = spec_statements_more(inp@, start as int, seq![first.deep_view()]);
    let ghost mut xv = first.deep_view();
    let mut acc: Vec<Statement> = Vec::new();
    acc.push(first);
    assert(acc.deep_view() =~= seq![xv]);
    let mut cur = start;
    reveal(spec_statements_more);
    reveal(spec_statement);
    loop
        invariant
            pos <= start <= cur <= inp@.len(),
            spec_statements(inp@, pos as int) == whole.after((start - pos) as nat),
            whole == spec_statements_more(inp@, cur as int, acc.deep_view()).after(
                (cur - start) as nat,
            ),
        decreases inp@.len() - cur,
    {
        reveal(spec_statements_more);
        reveal(spec_statement);
        match statement_at(inp, cur) {
            Ok((x, p2)) => {
                if p2 == cur {
                    return Err(ParseError::Error);
                }
                let ghost before = acc.deep_view();
                proof {
                    xv = x.deep_view();
                }
                acc.push(x);
                assert(acc.deep_view() =~= before.push(xv));
                cur = p2;
            },
            Err(ParseError::Failure) => return Err(ParseError::Failure),
            Err(ParseError::Error) => return Ok((acc, cur)),
        }
    }
}

/// Parses one or more statements, each ended by a semicolon, at the start
/// of `input`. What follows the last statement is returned unread.
pub fn parse_statements(input: &str) -> (r: Result<(&str, List<Statement>), ParseError>)
    ensures
        parsed(r, input@, spec_statements(input@, 0)),
{
    let chars = chars_of(input);
    let step = match statements_at(chars.as_slice(), 0) {
        Ok((list, end)) => Ok((List(list), end)),
        Err(e) => Err(e),
    };
    finish(input, step, Ghost(spec_statements(input@, 0)))
}

impl Format for Query {
    open spec fn rendered(&self, st: Layout) -> Layout
        decreases self,
    {
        match self {
            Query::CombinedSelect(q) => q.rendered(st),
            Query::Table(q) => q.rendered(st),
            Query::Select(q) => q.rendered(st),
            Query::Update(q) => q.rendered(st),
            Query::Insert(q) => q.rendered(st),
            Query::Sequence(q) => q.rendered(st),
            Query::UserDefinedType(q) => q.rendered(st),
            Query::SetWord(q) => q.rendered(st),
        }
    }

    fn format<'a>(&self, f: &'a mut Formatter) -> (r: &'a mut Formatter)
        decreases self,
    {
        match self {
            Query::CombinedSelect(q) => q.format(f),
            Query::Table(q) => q.format(f),
            Query::Select(q) => q.format(f),
            Query::Update(q) => q.format(f),
            Query::Insert(q) => q.format(f),
            Query::Sequence(q) => q.format(f),
            Query::UserDefinedType(q) => q.format(f),
            Query::SetWord(q) => q.format(f),
        }
    }
}

/// The statement and a semicolon.
impl Format for Statement {
    open spec fn rendered(&self, st: Layout) -> Layout {
        self.0.rendered(st).append(";"@)
    }

    fn format<'a>(&self, f: &'a mut Formatter) -> (r: &'a mut Formatter) {
        self.0.format(f).append_str(";")
    }
}

/// The state behind the first `n` statements, with a blank line between
/// two statements.
pub open spec fn render_statements(items: Vec<Statement>, n: nat, st: Layout) -> Layout
    decreases n,
{
    if n == 0 || n > items@.len() {
        st
    } else if n == 1 {
        items@[0].rendered(st)
    } else {
        items@[n - 1].rendered(render_statements(items, (n - 1) as nat, st).new_line().new_line())
    }
}

impl Format for List<Statement> {
    open spec fn rendered(&self, st: Layout) -> Layout {
        render_statements(self.0, self.0@.len(), st)
    }

    fn format<'a>(&self, f: &'a mut Formatter) -> (r: &'a mut Formatter) {
        let mut i: usize = 0;
        while i < self.0.len()
            invariant
                i <= self.0.len(),
                f@ == render_statements(self.0, i as nat, old(f)@),
            decreases self.0.len() - i,
        {
            if i > 0 {
                f.new_line().new_line();
            }
            self.0[i].format(f);
            i += 1;
        }
        f
    }
}

} // verus!
