//! `CREATE TABLE`.
use crate::clause::Clause;
use crate::data_type::{spec_data_type, data_type_at, DataType, DataTypeView};
use crate::formatter::{Format, Formatter, Layout};
use crate::identifier::{
    delimited_identifier_at, name_at, spec_delimited_identifier, spec_name, Delimitedidentifier,
    DelimitedidentifierView, Name, NameView,
};
use crate::keyword::{keyword_at, spec_keyword, Keyword};
use crate::list::List;
use crate::query::{query_at, spec_query, Query, QueryView};
use crate::table::constraint::{
    column_constraint_definition_at, spec_column_constraint_definition,
    spec_table_constraint_definition, spec_ws_column_constraint_definition,
    table_constraint_definition_at, ws_column_constraint_definition_at, ColumnConstraintDefinition,
    ColumnConstraintDefinitionView, TableConstraintDefinition, TableConstraintDefinitionView,
};
use crate::term::value::{spec_value, value_at, Value, ValueView};
use crate::text::{
    agrees, char_at, chars_of, finish, left, optional_step, parsed, skip_ws, spaced, spaced_step,
    spec_char, spec_symbol, symbol_at, ws_count, ParseError, Parsed, Step,
};
use vstd::prelude::*;

verus! {

/// `CREATE TABLE`, the table and its contents.
#[derive(Debug, PartialEq)]
pub struct CreateTableStatement(pub TableRef, pub TableContentsSource);

/// The view of `CreateTableStatement`: the same tree with sequences of
/// characters for its strings and sequences of views for its lists.
#[verifier::ext_equal]
pub struct CreateTableStatementView(pub TableRefView, pub TableContentsSourceView);

/// The view of `x`.
#[verifier::opaque]
pub open spec fn create_table_statement_view(x: CreateTableStatement) -> CreateTableStatementView
    decreases x,
{
    CreateTableStatementView(
        x.0.deep_view(),
        crate::table::create::table_contents_source_view(x.1),
    )
}

impl DeepView for CreateTableStatement {
    type V = CreateTableStatementView;

    open spec fn deep_view(&self) -> CreateTableStatementView {
        create_table_statement_view(*self)
    }
}

/// A query between parentheses.
#[derive(Debug, PartialEq)]
pub struct Subquery(pub Box<Query>);

/// The view of `Subquery`: the same tree with sequences of characters for
/// its strings and sequences of views for its lists.
#[verifier::ext_equal]
pub struct SubqueryView(pub Box<QueryView>);

/// The view of `x`.
#[verifier::opaque]
pub open spec fn subquery_view(x: Subquery) -> SubqueryView
    decreases x,
{
    SubqueryView(Box::new(crate::query::query_view((*x.0))))
}

impl DeepView for Subquery {
    type V = SubqueryView;

    open spec fn deep_view(&self) -> SubqueryView {
        subquery_view(*self)
    }
}

/// The contents of a new table: a list of elements, or the result of a query.
#[derive(Debug, PartialEq)]
pub enum TableContentsSource {
    TableElementList(List<TableElement>),
    As(Subquery),
}

/// The view of `TableContentsSource`: the same tree with sequences of
/// characters for its strings and sequences of views for its lists.
#[verifier::ext_equal]
pub enum TableContentsSourceView {
    TableElementList(Seq<TableElementView>),
    As(SubqueryView),
}

/// The view of `x`.
#[verifier::opaque]
pub open spec fn table_contents_source_view(x: TableContentsSource) -> TableContentsSourceView
    decreases x,
{
    match x {
        TableContentsSource::TableElementList(x0) => TableContentsSourceView::TableElementList(
            Seq::new(
                x0.0@.len(),
                |i: int| if 0 <= i < x0.0@.len() {
                    x0.0@[i].deep_view()
                } else {
                    arbitrary()
                },
            ),
        ),
        TableContentsSource::As(x0) => TableContentsSourceView::As(
            crate::table::create::subquery_view(x0),
        ),
    }
}

impl DeepView for TableContentsSource {
    type V = TableContentsSourceView;

    open spec fn deep_view(&self) -> TableContentsSourceView {
        table_contents_source_view(*self)
    }
}

/// A table name with an optional schema in front of it.
#[derive(Debug, PartialEq, Clone)]
pub struct TableRef(pub Option<Name>, pub Name);

/// The view of `TableRef`: the same tree with sequences of characters for
/// its strings and sequences of views for its lists.
#[verifier::ext_equal]
pub struct TableRefView(pub Option<NameView>, pub NameView);

impl DeepView for TableRef {
    type V = TableRefView;

    open spec fn deep_view(&self) -> TableRefView {
        TableRefView(self.0.deep_view(), self.1.deep_view())
    }
}

/// A column definition: the name, the type, a default and a constraint.
#[derive(Debug, PartialEq, Clone)]
pub struct ColumnDef(
    pub Delimitedidentifier,
    pub DataType,
    pub Option<DefaultClause>,
    pub Option<ColumnConstraintDefinition>,
);

/// The view of `ColumnDef`: the same tree with sequences of characters for
/// its strings and sequences of views for its lists.
#[verifier::ext_equal]
pub struct ColumnDefView(
    pub DelimitedidentifierView,
    pub DataTypeView,
    pub Option<DefaultClauseView>,
    pub Option<ColumnConstraintDefinitionView>,
);

impl DeepView for ColumnDef {
    type V = ColumnDefView;

    open spec fn deep_view(&self) -> ColumnDefView {
        ColumnDefView(
            self.0.deep_view(),
            self.1.deep_view(),
            self.2.deep_view(),
            self.3.deep_view(),
        )
    }
}

/// A default value.
#[derive(Debug, PartialEq, Clone)]
pub enum DefaultOption {
    Value(Value),
}

/// The view of `DefaultOption`: the same tree with sequences of characters
/// for its strings and sequences of views for its lists.
#[verifier::ext_equal]
pub enum DefaultOptionView {
    Value(ValueView),
}

impl DeepView for DefaultOption {
    type V = DefaultOptionView;

    open spec fn deep_view(&self) -> DefaultOptionView {
        match *self {
            DefaultOption::Value(x0) => DefaultOptionView::Value(x0.deep_view()),
        }
    }
}

/// `DEFAULT` and a value.
#[derive(Debug, PartialEq, Clone)]
pub struct DefaultClause(pub DefaultOption);

/// The view of `DefaultClause`: the same tree with sequences of characters
/// for its strings and sequences of views for its lists.
#[verifier::ext_equal]
pub struct DefaultClauseView(pub DefaultOptionView);

impl DeepView for DefaultClause {
    type V = DefaultClauseView;

    open spec fn deep_view(&self) -> DefaultClauseView {
        DefaultClauseView(self.0.deep_view())
    }
}

/// An element of a table: a column or a constraint.
#[derive(Debug, PartialEq, Clone)]
pub enum TableElement {
    ColumnDef(ColumnDef),
    TableConstraintDefinition(TableConstraintDefinition),
}

/// The view of `TableElement`: the same tree with sequences of characters
/// for its strings and sequences of views for its lists.
#[verifier::ext_equal]
pub enum TableElementView {
    ColumnDef(ColumnDefView),
    TableConstraintDefinition(TableConstraintDefinitionView),
}

impl DeepView for TableElement {
    type V = TableElementView;

    open spec fn deep_view(&self) -> TableElementView {
        match *self {
            TableElement::ColumnDef(x0) => TableElementView::ColumnDef(x0.deep_view()),
            TableElement::TableConstraintDefinition(x0) => TableElementView::TableConstraintDefinition(
                x0.deep_view(),
            ),
        }
    }
}

/// A table name with an optional schema and a dot in front of it. A dot
/// with no schema in front of it is accepted.
#[verifier::opaque]
pub open spec fn spec_table_ref(s: Seq<char>, pos: int) -> Parsed<TableRefView> {
    let bare = match spec_name(s, pos) {
        Parsed::Done(name, n) => Parsed::Done(TableRefView(None, name), n),
        _ => Parsed::Miss,
    };
    match spec_name(s, pos).optional() {
        Parsed::Done(schema, n) => match spec_char(s, pos + n, '.') {
            Parsed::Done(_, _) => match spec_name(s, pos + n + 1) {
                Parsed::Done(name, m) => Parsed::Done(TableRefView(schema, name), n + 1 + m),
                _ => bare,
            },
            _ => bare,
        },
        _ => bare,
    }
}

/// Reads at `pos` what `spec_table_ref` describes: the value and the
/// position behind it, or the kind of failure.
pub fn table_ref_at(inp: &[char], pos: usize) -> (r: Step<TableRef>)
    requires
        pos <= inp@.len(),
    ensures
        agrees(r, inp@, pos as int, spec_table_ref(inp@, pos as int)),
{
    reveal(spec_table_ref);
    let first = name_at(inp, pos);
    let (schema, p1) = match first {
        Ok((name, end)) => (Some(name), end),
        Err(_) => (None, pos),
    };
    if let Ok((_, p2)) = char_at(inp, p1, '.') {
        if let Ok((name, p3)) = name_at(inp, p2) {
            return Ok((TableRef(schema, name), p3));
        }
    }
    match schema {
        Some(name) => Ok((TableRef(None, name), p1)),
        None => Err(ParseError::Error),
    }
}

/// Parses a table name with an optional schema at the start of `input`.
pub fn parse_table_ref(input: &str) -> (r: Result<(&str, TableRef), ParseError>)
    ensures
        parsed(r, input@, spec_table_ref(input@, 0)),
{
    let chars = chars_of(input);
    let step = table_ref_at(chars.as_slice(), 0);
    finish(input, step, Ghost(spec_table_ref(input@, 0)))
}

/// A table name, with whitespace allowed on both sides.
#[verifier::opaque]
pub open spec fn spec_ws_table_ref(s: Seq<char>, pos: int) -> Parsed<TableRefView>
    decreases left(s, pos), 10nat,
{
    spaced(s, pos, spec_table_ref(s, pos + ws_count(s, pos)))
}

/// Reads at `pos` what `spec_ws_table_ref` describes: the value and the
/// position behind it, or the kind of failure.
pub fn ws_table_ref_at(inp: &[char], pos: usize) -> (r: Step<TableRef>)
    requires
        pos <= inp@.len(),
    ensures
        agrees(r, inp@, pos as int, spec_ws_table_ref(inp@, pos as int)),
    decreases left(inp@, pos as int), 10nat,
{
    reveal(spec_ws_table_ref);
    let start = skip_ws(inp, pos);
    let step = table_ref_at(inp, start);
    spaced_step(inp, pos, step, Ghost(spec_table_ref(inp@, pos + ws_count(inp@, pos as int))))
}

/// A default value: a literal value.
#[verifier::opaque]
pub open spec fn spec_default_option(s: Seq<char>, pos: int) -> Parsed<DefaultOptionView> {
    match spec_value(s, pos) {
        Parsed::Done(v, n) => Parsed::Done(DefaultOptionView::Value(v), n),
        f => f.cast(),
    }
}

/// Reads at `pos` what `spec_default_option` describes: the value and the
/// position behind it, or the kind of failure.
pub fn default_option_at(inp: &[char], pos: usize) -> (r: Step<DefaultOption>)
    requires
        pos <= inp@.len(),
    ensures
        agrees(r, inp@, pos as int, spec_default_option(inp@, pos as int)),
{
    reveal(spec_default_option);
    match value_at(inp, pos) {
        Ok((v, end)) => Ok((DefaultOption::Value(v), end)),
        Err(e) => Err(e),
    }
}

/// Parses a default value at the start of `input`.
pub fn parse_default_option(input: &str) -> (r: Result<(&str, DefaultOption), ParseError>)
    ensures
        parsed(r, input@, spec_default_option(input@, 0)),
{
    let chars = chars_of(input);
    let step = default_option_at(chars.as_slice(), 0);
    finish(input, step, Ghost(spec_default_option(input@, 0)))
}

/// `DEFAULT` and a default value.
#[verifier::opaque]
pub open spec fn spec_default_clause(s: Seq<char>, pos: int) -> Parsed<DefaultClauseView> {
    match spec_keyword(s, pos, Keyword::Default) {
        Parsed::Done(_, k) => match spec_default_option(s, pos + k) {
            Parsed::Done(o, n) => Parsed::Done(DefaultClauseView(o), k + n),
            f => f.cast(),
        },
        _ => Parsed::Miss,
    }
}

/// Reads at `pos` what `spec_default_clause` describes: the value and the
/// position behind it, or the kind of failure.
pub fn default_clause_at(inp: &[char], pos: usize) -> (r: Step<DefaultClause>)
    requires
        pos <= inp@.len(),
    ensures
        agrees(r, inp@, pos as int, spec_default_clause(inp@, pos as int)),
{
    reveal(spec_default_clause);
    let p1 = match keyword_at(inp, pos, Keyword::Default) {
        Ok((_, p)) => p,
        Err(_) => return Err(ParseError::Error),
    };
    match default_option_at(inp, p1) {
        Ok((o, end)) => Ok((DefaultClause(o), end)),
        Err(e) => Err(e),
    }
}

/// Parses a `DEFAULT` clause at the start of `input`.
pub fn parse_default_clause(input: &str) -> (r: Result<(&str, DefaultClause), ParseError>)
    ensures
        parsed(r, input@, spec_default_clause(input@, 0)),
{
    let chars = chars_of(input);
    let step = default_clause_at(chars.as_slice(), 0);
    finish(input, step, Ghost(spec_default_clause(input@, 0)))
}

/// A `DEFAULT` clause, with whitespace allowed on both sides.
#[verifier::opaque]
pub open spec fn spec_ws_default_clause(s: Seq<char>, pos: int) -> Parsed<DefaultClauseView>
    decreases left(s, pos), 10nat,
{
    spaced(s, pos, spec_default_clause(s, pos + ws_count(s, pos)))
}

/// Reads at `pos` what `spec_ws_default_clause` describes: the value and the
/// position behind it, or the kind of failure.
pub fn ws_default_clause_at(inp: &[char], pos: usize) -> (r: Step<DefaultClause>)
    requires
        pos <= inp@.len(),
    ensures
        agrees(r, inp@, pos as int, spec_ws_default_clause(inp@, pos as int)),
    decreases left(inp@, pos as int), 10nat,
{
    reveal(spec_ws_default_clause);
    let start = skip_ws(inp, pos);
    let step = default_clause_at(inp, start);
    spaced_step(inp, pos, step, Ghost(spec_default_clause(inp@, pos + ws_count(inp@, pos as int))))
}

/// An identifier, with whitespace allowed on both sides.
#[verifier::opaque]
pub open spec fn spec_ws_delimited_identifier(s: Seq<char>, pos: int) -> Parsed<
    DelimitedidentifierView,
>
    decreases left(s, pos), 10nat,
{
    spaced(s, pos, spec_delimited_identifier(s, pos + ws_count(s, pos)))
}

/// Reads at `pos` what `spec_ws_delimited_identifier` describes: the value
/// and the position behind it, or the kind of failure.
pub fn ws_delimited_identifier_at(inp: &[char], pos: usize) -> (r: Step<Delimitedidentifier>)
    requires
        pos <= inp@.len(),
    ensures
        agrees(r, inp@, pos as int, spec_ws_delimited_identifier(inp@, pos as int)),
    decreases left(inp@, pos as int), 10nat,
{
    reveal(spec_ws_delimited_identifier);
    let start = skip_ws(inp, pos);
    let step = delimited_identifier_at(inp, start);
    spaced_step(
        inp,
        pos,
        step,
        Ghost(spec_delimited_identifier(inp@, pos + ws_count(inp@, pos as int))),
    )
}

/// A data type, with whitespace allowed on both sides.
#[verifier::opaque]
pub open spec fn spec_ws_data_type(s: Seq<char>, pos: int) -> Parsed<DataTypeView>
    decreases left(s, pos), 10nat,
{
    spaced(s, pos, spec_data_type(s, pos + ws_count(s, pos)))
}

/// Reads at `pos` what `spec_ws_data_type` describes: the value and the
/// position behind it, or the kind of failure.
pub fn ws_data_type_at(inp: &[char], pos: usize) -> (r: Step<DataType>)
    requires
        pos <= inp@.len(),
    ensures
        agrees(r, inp@, pos as int, spec_ws_data_type(inp@, pos as int)),
    decreases left(inp@, pos as int), 10nat,
{
    reveal(spec_ws_data_type);
    let start = skip_ws(inp, pos);
    let step = data_type_at(inp, start);
    spaced_step(inp, pos, step, Ghost(spec_data_type(inp@, pos + ws_count(inp@, pos as int))))
}

/// A column definition: an identifier, a data type, an optional `DEFAULT`
/// clause and an optional constraint, each with whitespace allowed on
/// both sides.
#[verifier::opaque]
pub open spec fn spec_column_def(s: Seq<char>, pos: int) -> Parsed<ColumnDefView> {
    match spec_ws_delimited_identifier(s, pos) {
        Parsed::Done(name, k) => match spec_ws_data_type(s, pos + k) {
            Parsed::Done(data_type, n) => match spec_ws_default_clause(s, pos + k + n).optional() {
                Parsed::Done(default, m) => match spec_ws_column_constraint_definition(
                    s,
                    pos + k + n + m,
                ).optional() {
                    Parsed::Done(constraint, j) => Parsed::Done(
                        ColumnDefView(name, data_type, default, constraint),
                        k + n + m + j,
                    ),
                    f => f.cast(),
                },
                f => f.cast(),
            },
            f => f.cast(),
        },
        _ => Parsed::Miss,
    }
}

/// Reads at `pos` what `spec_column_def` describes: the value and the
/// position behind it, or the kind of failure.
pub fn column_def_at(inp: &[char], pos: usize) -> (r: Step<ColumnDef>)
    requires
        pos <= inp@.len(),
    ensures
        agrees(r, inp@, pos as int, spec_column_def(inp@, pos as int)),
{
    reveal(spec_column_def);
    let (name, p1) = match ws_delimited_identifier_at(inp, pos) {
        Ok(done) => done,
        Err(_) => return Err(ParseError::Error),
    };
    let (data_type, p2) = match ws_data_type_at(inp, p1) {
        Ok(done) => done,
        Err(e) => return Err(e),
    };
    let (default, p3) = match optional_step(
        inp,
        p2,
        ws_default_clause_at(inp, p2),
        Ghost(spec_ws_default_clause(inp@, p2 as int)),
    ) {
        Ok(done) => done,
        Err(e) => return Err(e),
    };
    match optional_step(
        inp,
        p3,
        ws_column_constraint_definition_at(inp, p3),
        Ghost(spec_ws_column_constraint_definition(inp@, p3 as int)),
    ) {
        Ok((constraint, end)) => Ok((ColumnDef(name, data_type, default, constraint), end)),
        Err(e) => Err(e),
    }
}

/// Parses a column definition at the start of `input`.
pub fn parse_column_def(input: &str) -> (r: Result<(&str, ColumnDef), ParseError>)
    ensures
        parsed(r, input@, spec_column_def(input@, 0)),
{
    let chars = chars_of(input);
    let step = column_def_at(chars.as_slice(), 0);
    finish(input, step, Ghost(spec_column_def(input@, 0)))
}

/// An element of a table: a table constraint, or a column definition.
#[verifier::opaque]
pub open spec fn spec_table_element(s: Seq<char>, pos: int) -> Parsed<TableElementView> {
    match spec_table_constraint_definition(s, pos) {
        Parsed::Done(c, n) => Parsed::Done(TableElementView::TableConstraintDefinition(c), n),
        _ => match spec_column_def(s, pos) {
            Parsed::Done(c, n) => Parsed::Done(TableElementView::ColumnDef(c), n),
            f => f.cast(),
        },
    }
}

/// Reads at `pos` what `spec_table_element` describes: the value and the
/// position behind it, or the kind of failure.
pub fn table_element_at(inp: &[char], pos: usize) -> (r: Step<TableElement>)
    requires
        pos <= inp@.len(),
    ensures
        agrees(r, inp@, pos as int, spec_table_element(inp@, pos as int)),
{
    reveal(spec_table_element);
    if let Ok((c, end)) = table_constraint_definition_at(inp, pos) {
        return Ok((TableElement::TableConstraintDefinition(c), end));
    }
    match column_def_at(inp, pos) {
        Ok((c, end)) => Ok((TableElement::ColumnDef(c), end)),
        Err(e) => Err(e),
    }
}

/// Parses an element of a table at the start of `input`.
pub fn parse_table_element(input: &str) -> (r: Result<(&str, TableElement), ParseError>)
    ensures
        parsed(r, input@, spec_table_element(input@, 0)),
{
    let chars = chars_of(input);
    let step = table_element_at(chars.as_slice(), 0);
    finish(input, step, Ghost(spec_table_element(input@, 0)))
}

/// An element of a table, with whitespace allowed on both sides.
#[verifier::opaque]
pub open spec fn spec_ws_table_element(s: Seq<char>, pos: int) -> Parsed<TableElementView>
    decreases left(s, pos), 10nat,
{
    spaced(s, pos, spec_table_element(s, pos + ws_count(s, pos)))
}

/// Reads at `pos` what `spec_ws_table_element` describes: the value and the
/// position behind it, or the kind of failure.
pub fn ws_table_element_at(inp: &[char], pos: usize) -> (r: Step<TableElement>)
    requires
        pos <= inp@.len(),
    ensures
        agrees(r, inp@, pos as int, spec_ws_table_element(inp@, pos as int)),
    decreases left(inp@, pos as int), 10nat,
{
    reveal(spec_ws_table_element);
    let start = skip_ws(inp, pos);
    let step = table_element_at(inp, start);
    spaced_step(inp, pos, step, Ghost(spec_table_element(inp@, pos + ws_count(inp@, pos as int))))
}

/// The elements that follow in a list of which `acc` has been read: a
/// comma and an element, as often as both are there.
#[verifier::opaque]
pub open spec fn spec_table_elements_more(s: Seq<char>, pos: int, acc: Seq<TableElementView>) -> Parsed<
    Seq<TableElementView>,
>
    decreases left(s, pos), 19nat,
{
    match spec_symbol(s, pos, ',') {
        Parsed::Done(_, k) => match spec_ws_table_element(s, pos + k) {
            Parsed::Done(x, n) => spec_table_elements_more(s, pos + k + n, acc.push(x)).after(
                k + n,
            ),
            Parsed::Halt => Parsed::Halt,
            Parsed::Miss => Parsed::Done(acc, 0),
        },
        _ => Parsed::Done(acc, 0),
    }
}

/// One or more elements of a table, separated by commas.
#[verifier::opaque]
pub open spec fn spec_table_elements(s: Seq<char>, pos: int) -> Parsed<Seq<TableElementView>>
    decreases left(s, pos), 20nat,
{
    match spec_ws_table_element(s, pos) {
        Parsed::Done(x, n) => spec_table_elements_more(s, pos + n, seq![x]).after(n),
        f => f.cast(),
    }
}

/// Reads at `pos` what `spec_table_elements` describes: the value and the
/// position behind it, or the kind of failure.
pub fn table_elements_at(inp: &[char], pos: usize) -> (r: Step<Vec<TableElement>>)
    requires
        pos <= inp@.len(),
    ensures
        agrees(r, inp@, pos as int, spec_table_elements(inp@, pos as int)),
    decreases left(inp@, pos as int), 20nat,
{
    reveal(spec_table_elements);
    reveal(spec_ws_table_element);
    reveal(spec_table_elements_more);
    reveal(spec_symbol);
    let (first, start) = match ws_table_element_at(inp, pos) {
        Ok(done) => done,
        Err(e) => return Err(e),
    };
    let ghost whole = spec_table_elements_more(inp@, start as int, seq![first.deep_view()]);
    let ghost mut xv = first.deep_view();
    let mut acc: Vec<TableElement> = Vec::new();
    acc.push(first);
    assert(acc.deep_view() =~= seq![xv]);
    let mut cur = start;
    reveal(spec_table_elements_more);
    reveal(spec_ws_table_element);
    loop
        invariant
            pos <= start <= cur <= inp@.len(),
            spec_table_elements(inp@, pos as int) == whole.after((start - pos) as nat),
            whole == spec_table_elements_more(inp@, cur as int, acc.deep_view()).after(
                (cur - start) as nat,
            ),
        decreases inp@.len() - cur,
    {
        reveal(spec_table_elements_more);
        reveal(spec_ws_table_element);
        let p1 = match symbol_at(inp, cur, ',') {
            Ok((_, p)) => p,
            Err(_) => return Ok((acc, cur)),
        };
        match ws_table_element_at(inp, p1) {
            Ok((x, p2)) => {
                let ghost before = acc.deep_view();
                proof {
                    xv = x.deep_view();
                }
                acc.push(x);
                assert(acc.deep_view() =~= before.push(xv));
                cur = p2;
            },
            Err(ParseError::Failure) => return Err(ParseError::Failure),
            Err(ParseError::Error) => return Ok((acc, cur)),
        }
    }
}

/// A query between parentheses.
#[verifier::opaque]
pub open spec fn spec_subquery(s: Seq<char>, pos: int) -> Parsed<SubqueryView>
    decreases left(s, pos), 1840nat,
{
    match spec_symbol(s, pos, '(') {
        Parsed::Done(_, k) => match spec_query(s, pos + k) {
            Parsed::Done(q, n) => match spec_symbol(s, pos + k + n, ')') {
                Parsed::Done(_, m) => Parsed::Done(SubqueryView(Box::new(q)), k + n + m),
                _ => Parsed::Miss,
            },
            f => f.cast(),
        },
        _ => Parsed::Miss,
    }
}

/// Reads at `pos` what `spec_subquery` describes: the value and the position
/// behind it, or the kind of failure.
pub fn subquery_at(inp: &[char], pos: usize) -> (r: Step<Subquery>)
    requires
        pos <= inp@.len(),
    ensures
        agrees(r, inp@, pos as int, spec_subquery(inp@, pos as int)),
    decreases left(inp@, pos as int), 1840nat,
{
    reveal(spec_subquery);
    reveal(spec_query);
    reveal(crate::table::create::subquery_view);
    reveal(crate::query::query_view);
    let p1 = match symbol_at(inp, pos, '(') {
        Ok((_, p)) => p,
        Err(_) => return Err(ParseError::Error),
    };
    let (q, p2) = match query_at(inp, p1) {
        Ok(done) => done,
        Err(e) => return Err(e),
    };
    match symbol_at(inp, p2, ')') {
        Ok((_, end)) => Ok((Subquery(Box::new(q)), end)),
        Err(_) => Err(ParseError::Error),
    }
}

/// Parses a query between parentheses at the start of `input`.
pub fn parse_subquery(input: &str) -> (r: Result<(&str, Subquery), ParseError>)
    ensures
        parsed(r, input@, spec_subquery(input@, 0)),
{
    let chars = chars_of(input);
    let step = subquery_at(chars.as_slice(), 0);
    finish(input, step, Ghost(spec_subquery(input@, 0)))
}

/// A query between parentheses, with whitespace allowed on both sides.
#[verifier::opaque]
pub open spec fn spec_ws_subquery(s: Seq<char>, pos: int) -> Parsed<SubqueryView>
    decreases left(s, pos), 1845nat,
{
    spaced(s, pos, spec_subquery(s, pos + ws_count(s, pos)))
}

/// Reads at `pos` what `spec_ws_subquery` describes: the value and the
/// position behind it, or the kind of failure.
pub fn ws_subquery_at(inp: &[char], pos: usize) -> (r: Step<Subquery>)
    requires
        pos <= inp@.len(),
    ensures
        agrees(r, inp@, pos as int, spec_ws_subquery(inp@, pos as int)),
    decreases left(inp@, pos as int), 1845nat,
{
    reveal(spec_ws_subquery);
    reveal(spec_subquery);
    reveal(crate::table::create::subquery_view);
    reveal(crate::query::query_view);
    let start = skip_ws(inp, pos);
    let step = subquery_at(inp, start);
    spaced_step(inp, pos, step, Ghost(spec_subquery(inp@, pos + ws_count(inp@, pos as int))))
}

/// A list of table elements between parentheses.
#[verifier::opaque]
pub open spec fn spec_element_list(s: Seq<char>, pos: int) -> Parsed<TableContentsSourceView> {
    match spec_symbol(s, pos, '(') {
        Parsed::Done(_, k) => match spec_table_elements(s, pos + k) {
            Parsed::Done(list, n) => match spec_symbol(s, pos + k + n, ')') {
                Parsed::Done(_, m) => Parsed::Done(
                    TableContentsSourceView::TableElementList(list),
                    k + n + m,
                ),
                _ => Parsed::Miss,
            },
            f => f.cast(),
        },
        _ => Parsed::Miss,
    }
}

/// Reads at `pos` what `spec_element_list` describes: the value and the
/// position behind it, or the kind of failure.
fn element_list_at(inp: &[char], pos: usize) -> (r: Step<TableContentsSource>)
    requires
        pos <= inp@.len(),
    ensures
        agrees(r, inp@, pos as int, spec_element_list(inp@, pos as int)),
{
    reveal(spec_element_list);
    reveal(crate::table::create::table_contents_source_view);
    reveal(crate::table::create::subquery_view);
    let p1 = match symbol_at(inp, pos, '(') {
        Ok((_, p)) => p,
        Err(_) => return Err(ParseError::Error),
    };
    let (list, p2) = match table_elements_at(inp, p1) {
        Ok(done) => done,
        Err(e) => return Err(e),
    };
    match symbol_at(inp, p2, ')') {
        Ok((_, end)) => {
            let ghost views = list.deep_view();
            let value = TableContentsSource::TableElementList(List(list));
            proof {
                let got = value.deep_view()->TableElementList_0;
                assert(got.len() == views.len());
                assert forall|i: int| 0 <= i < views.len() implies got[i] == views[i] by {
                    assert(views[i] == value->TableElementList_0.0@[i].deep_view());
                    assert(got[i] == value->TableElementList_0.0@[i].deep_view());
                }
                assert(got =~= views);
            }
            Ok((value, end))
        },
        Err(_) => Err(ParseError::Error),
    }
}

/// The contents of a new table: `AS` and a query between parentheses, or
/// a list of table elements between parentheses.
#[verifier::opaque]
pub open spec fn spec_table_contents_source(s: Seq<char>, pos: int) -> Parsed<
    TableContentsSourceView,
>
    decreases left(s, pos), 1850nat,
{
    match spec_keyword(s, pos, Keyword::As) {
        Parsed::Done(_, k) => match spec_ws_subquery(s, pos + k) {
            Parsed::Done(q, n) => Parsed::Done(TableContentsSourceView::As(q), k + n),
            Parsed::Halt => Parsed::Halt,
            Parsed::Miss => spec_element_list(s, pos),
        },
        _ => spec_element_list(s, pos),
    }
}

/// Reads at `pos` what `spec_table_contents_source` describes: the value and
/// the position behind it, or the kind of failure.
pub fn table_contents_source_at(inp: &[char], pos: usize) -> (r: Step<TableContentsSource>)
    requires
        pos <= inp@.len(),
    ensures
        agrees(r, inp@, pos as int, spec_table_contents_source(inp@, pos as int)),
    decreases left(inp@, pos as int), 1850nat,
{
    reveal(spec_table_contents_source);
    reveal(spec_ws_subquery);
    reveal(crate::table::create::table_contents_source_view);
    reveal(crate::table::create::subquery_view);
    proof {
        Keyword::As.text_width();
    }
    if let Ok((_, p1)) = keyword_at(inp, pos, Keyword::As) {
        match ws_subquery_at(inp, p1) {
            Ok((q, end)) => return Ok((TableContentsSource::As(q), end)),
            Err(ParseError::Failure) => return Err(ParseError::Failure),
            Err(ParseError::Error) => {},
        }
    }
    element_list_at(inp, pos)
}

/// Parses the contents of a new table at the start of `input`.
pub fn parse_table_contents_source(input: &str) -> (r: Result<
    (&str, TableContentsSource), ParseError,
>)
    ensures
        parsed(r, input@, spec_table_contents_source(input@, 0)),
{
    let chars = chars_of(input);
    let step = table_contents_source_at(chars.as_slice(), 0);
    finish(input, step, Ghost(spec_table_contents_source(input@, 0)))
}

/// `CREATE`, `TABLE`, a table and its contents.
#[verifier::opaque]
pub open spec fn spec_create_table(s: Seq<char>, pos: int) -> Parsed<CreateTableStatementView>
    decreases left(s, pos), 1860nat,
{
    match spec_keyword(s, pos, Keyword::Create) {
        Parsed::Done(_, k) => match spec_keyword(s, pos + k, Keyword::Table) {
            Parsed::Done(_, n) => match spec_ws_table_ref(s, pos + k + n) {
                Parsed::Done(table, m) => match spec_table_contents_source(s, pos + k + n + m) {
                    Parsed::Done(contents, j) => Parsed::Done(
                        CreateTableStatementView(table, contents),
                        k + n + m + j,
                    ),
                    f => f.cast(),
                },
                _ => Parsed::Miss,
            },
            _ => Parsed::Miss,
        },
        _ => Parsed::Miss,
    }
}

/// Reads at `pos` what `spec_create_table` describes: the value and the
/// position behind it, or the kind of failure.
pub fn create_table_at(inp: &[char], pos: usize) -> (r: Step<CreateTableStatement>)
    requires
        pos <= inp@.len(),
    ensures
        agrees(r, inp@, pos as int, spec_create_table(inp@, pos as int)),
    decreases left(inp@, pos as int), 1860nat,
{
    reveal(spec_create_table);
    reveal(spec_table_contents_source);
    reveal(crate::table::create::create_table_statement_view);
    reveal(crate::table::create::table_contents_source_view);
    let p1 = match keyword_at(inp, pos, Keyword::Create) {
        Ok((_, p)) => p,
        Err(_) => return Err(ParseError::Error),
    };
    proof {
        Keyword::Create.text_width();
    }
    let p2 = match keyword_at(inp, p1, Keyword::Table) {
        Ok((_, p)) => p,
        Err(_) => return Err(ParseError::Error),
    };
    let (table, p3) = match ws_table_ref_at(inp, p2) {
        Ok(done) => done,
        Err(_) => return Err(ParseError::Error),
    };
    match table_contents_source_at(inp, p3) {
        Ok((contents, end)) => Ok((CreateTableStatement(table, contents), end)),
        Err(e) => Err(e),
    }
}

/// Parses `CREATE TABLE` at the start of `input`.
pub fn parse_create_table(input: &str) -> (r: Result<(&str, CreateTableStatement), ParseError>)
    ensures
        parsed(r, input@, spec_create_table(input@, 0)),
{
    let chars = chars_of(input);
    let step = create_table_at(chars.as_slice(), 0);
    finish(input, step, Ghost(spec_create_table(input@, 0)))
}

impl Clause for DefaultClause {
    open spec fn clause_keyword() -> Keyword {
        Keyword::Default
    }

    fn leading() -> (k: Keyword) {
        Keyword::Default
    }
}

/// The schema, a dot and the name; the name alone where there is no
/// schema.
impl Format for TableRef {
    open spec fn rendered(&self, st: Layout) -> Layout {
        match self.0 {
            Some(schema) => self.1.rendered(schema.rendered(st).append("."@)),
            None => self.1.rendered(st),
        }
    }

    fn format<'a>(&self, f: &'a mut Formatter) -> (r: &'a mut Formatter) {
        match &self.0 {
            Some(schema) => {
                schema.format(f).append(".");
                self.1.format(f)
            },
            None => self.1.format(f),
        }
    }
}

impl Format for DefaultOption {
    open spec fn rendered(&self, st: Layout) -> Layout {
        match self {
            DefaultOption::Value(v) => v.rendered(st),
        }
    }

    fn format<'a>(&self, f: &'a mut Formatter) -> (r: &'a mut Formatter) {
        match self {
            DefaultOption::Value(v) => v.format(f),
        }
    }
}

impl Format for DefaultClause {
    open spec fn rendered(&self, st: Layout) -> Layout {
        self.0.rendered(st.append(Keyword::Default.spec_text()).space())
    }

    fn format<'a>(&self, f: &'a mut Formatter) -> (r: &'a mut Formatter) {
        f.append(Keyword::Default.text()).ws();
        self.0.format(f)
    }
}

/// The name, the type, the default and the constraint, separated by single
/// spaces.
impl Format for ColumnDef {
    open spec fn rendered(&self, st: Layout) -> Layout {
        let typed = self.1.rendered(self.0.rendered(st).space());
        let with_default = match self.2 {
            Some(default) => default.rendered(typed.space()),
            None => typed,
        };
        match self.3 {
            Some(constraint) => constraint.rendered(with_default.space()),
            None => with_default,
        }
    }

    fn format<'a>(&self, f: &'a mut Formatter) -> (r: &'a mut Formatter) {
        self.0.format(f).ws();
        self.1.format(f);
        match &self.2 {
            Some(default) => {
                f.ws();
                default.format(f);
            },
            None => {},
        }
        match &self.3 {
            Some(constraint) => {
                f.ws();
                constraint.format(f)
            },
            None => f,
        }
    }
}

/// An element stands behind four spaces.
impl Format for TableElement {
    open spec fn rendered(&self, st: Layout) -> Layout {
        match self {
            TableElement::ColumnDef(c) => c.rendered(st.indent()),
            TableElement::TableConstraintDefinition(c) => c.rendered(st.indent()),
        }
    }

    fn format<'a>(&self, f: &'a mut Formatter) -> (r: &'a mut Formatter) {
        match self {
            TableElement::ColumnDef(c) => {
                f.indent_only();
                c.format(f)
            },
            TableElement::TableConstraintDefinition(c) => {
                f.indent_only();
                c.format(f)
            },
        }
    }
}

/// The query between parentheses, each of them on a line of its own.
impl Format for Subquery {
    open spec fn rendered(&self, st: Layout) -> Layout
        decreases self,
    {
        self.0.rendered(st.append("("@).new_line()).new_line().append(")"@)
    }

    fn format<'a>(&self, f: &'a mut Formatter) -> (r: &'a mut Formatter)
        decreases self,
    {
        f.append_str("(").new_line();
        self.0.format(f).new_line().append_str(")")
    }
}

/// The state behind the first `n` elements: each on a line of its own
/// behind four more spaces, with a comma behind each but the last.
pub open spec fn render_elements(items: Vec<TableElement>, n: nat, st: Layout) -> Layout
    decreases n,
{
    if n == 0 || n > items@.len() {
        st
    } else if n == 1 {
        items@[0].rendered(st.indent())
    } else {
        items@[n - 1].rendered(
            render_elements(items, (n - 1) as nat, st).append(","@).new_line().indent(),
        )
    }
}

/// A query stands behind `AS`, one level deeper and with a field width of
/// four. A list of elements stands between parentheses, with a field width
/// of four, one element per line.
impl Format for TableContentsSource {
    open spec fn rendered(&self, st: Layout) -> Layout
        decreases self,
    {
        match self {
            TableContentsSource::As(q) => q.rendered(
                st.append(Keyword::As.spec_text()).space().set_pad(4).new_context(),
            ).pop_context(),
            TableContentsSource::TableElementList(list) => render_elements(
                list.0,
                list.0@.len(),
                st.append("("@).new_line().set_pad(4),
            ).new_line().append(")"@),
        }
    }

    fn format<'a>(&self, f: &'a mut Formatter) -> (r: &'a mut Formatter)
        decreases self,
    {
        match self {
            TableContentsSource::As(q) => {
                f.append(Keyword::As.text()).ws().set_pad(4).new_context();
                q.format(f).pop_context()
            },
            TableContentsSource::TableElementList(list) => {
                f.append_str("(").new_line().set_pad(4);
                let ghost start = f@;
                let mut i: usize = 0;
                while i < list.0.len()
                    invariant
                        i <= list.0.len(),
                        f@ == render_elements(list.0, i as nat, start),
                    decreases list.0.len() - i,
                {
                    if i > 0 {
                        f.append_str(",").new_line();
                    }
                    f.indent_only();
                    list.0[i].format(f);
                    i += 1;
                }
                f.new_line().append_str(")")
            },
        }
    }
}

/// `CREATE TABLE`, the table and the contents, separated by single spaces.
impl Format for CreateTableStatement {
    open spec fn rendered(&self, st: Layout) -> Layout
        decreases self,
    {
        self.1.rendered(
            self.0.rendered(
                st.append(Keyword::Create.spec_text()).space().append(
                    Keyword::Table.spec_text(),
                ).space(),
            ).space(),
        )
    }

    fn format<'a>(&self, f: &'a mut Formatter) -> (r: &'a mut Formatter)
        decreases self,
    {
        f.append(Keyword::Create.text()).ws().append(Keyword::Table.text()).ws();
        self.0.format(f).ws();
        self.1.format(f)
    }
}

} // verus!
