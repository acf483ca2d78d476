//! Set operators between queries.
use crate::formatter::{Format, Formatter, Layout};
use crate::keyword::{keyword_at, spec_keyword, Keyword};
use crate::select::join::{narrowed, widened};
use crate::select::statement::{
    spec_ws_select_statement, ws_select_statement_at, SelectStatement, SelectStatementView,
};
use crate::text::{
    agrees, chars_of, finish, left, parsed, skip_ws, spaced, spaced_step, spec_symbol, symbol_at,
    ws_count, ParseError, Parsed, Step,
};
use vstd::prelude::*;

verus! {

/// A set operator between two queries.
#[derive(Debug, Clone, Copy, PartialEq, Eq, Structural)]
pub enum TableOperator {
    Union(bool),
    Intersect,
    Minus,
    Except,
}

impl DeepView for TableOperator {
    type V = TableOperator;

    open spec fn deep_view(&self) -> TableOperator {
        *self
    }
}

/// A `SELECT` statement, or a query term between parentheses.
#[derive(Debug, PartialEq)]
pub enum QueryTerm {
    Select(Box<SelectStatement>),
    Parenthesis(Box<QueryTerm>),
}

/// The view of `QueryTerm`: the same tree with sequences of characters for
/// its strings and sequences of views for its lists.
#[verifier::ext_equal]
pub enum QueryTermView {
    Select(Box<SelectStatementView>),
    Parenthesis(Box<QueryTermView>),
}

/// The view of `x`.
#[verifier::opaque]
pub open spec fn query_term_view(x: QueryTerm) -> QueryTermView
    decreases x,
{
    match x {
        QueryTerm::Select(x0) => QueryTermView::Select(
            Box::new(crate::select::statement::select_statement_view((*x0))),
        ),
        QueryTerm::Parenthesis(x0) => QueryTermView::Parenthesis(
            Box::new(crate::select::table_operator::query_term_view((*x0))),
        ),
    }
}

impl DeepView for QueryTerm {
    type V = QueryTermView;

    open spec fn deep_view(&self) -> QueryTermView {
        query_term_view(*self)
    }
}

/// Two query terms and the set operator between them.
#[derive(Debug, PartialEq)]
pub struct CombinedTables(pub QueryTerm, pub TableOperator, pub QueryTerm);

/// The view of `CombinedTables`: the same tree with sequences of characters
/// for its strings and sequences of views for its lists.
#[verifier::ext_equal]
pub struct CombinedTablesView(pub QueryTermView, pub TableOperator, pub QueryTermView);

/// The view of `x`.
#[verifier::opaque]
pub open spec fn combined_tables_view(x: CombinedTables) -> CombinedTablesView
    decreases x,
{
    CombinedTablesView(
        crate::select::table_operator::query_term_view(x.0),
        x.1,
        crate::select::table_operator::query_term_view(x.2),
    )
}

impl DeepView for CombinedTables {
    type V = CombinedTablesView;

    open spec fn deep_view(&self) -> CombinedTablesView {
        combined_tables_view(*self)
    }
}

/// A query term: a `SELECT` statement, or a query term between
/// parentheses.
#[verifier::opaque]
pub open spec fn spec_query_term(s: Seq<char>, pos: int) -> Parsed<QueryTermView>
    decreases left(s, pos), 1780nat,
{
    match spec_ws_select_statement(s, pos) {
        Parsed::Done(q, n) => Parsed::Done(QueryTermView::Select(Box::new(q)), n),
        Parsed::Halt => Parsed::Halt,
        Parsed::Miss => match spec_symbol(s, pos, '(') {
            Parsed::Done(_, k) => match spec_query_term(s, pos + k) {
                Parsed::Done(q, n) => match spec_symbol(s, pos + k + n, ')') {
                    Parsed::Done(_, m) => Parsed::Done(
                        QueryTermView::Parenthesis(Box::new(q)),
                        k + n + m,
                    ),
                    _ => Parsed::Miss,
                },
                f => f.cast(),
            },
            _ => Parsed::Miss,
        },
    }
}

/// Reads at `pos` what `spec_query_term` describes: the value and the
/// position behind it, or the kind of failure.
pub fn query_term_at(inp: &[char], pos: usize) -> (r: Step<QueryTerm>)
    requires
        pos <= inp@.len(),
    ensures
        agrees(r, inp@, pos as int, spec_query_term(inp@, pos as int)),
    decreases left(inp@, pos as int), 1780nat,
{
    reveal(spec_query_term);
    reveal(crate::select::table_operator::query_term_view);
    reveal(crate::select::statement::select_statement_view);
    match ws_select_statement_at(inp, pos) {
        Ok((q, end)) => return Ok((QueryTerm::Select(Box::new(q)), end)),
        Err(ParseError::Failure) => return Err(ParseError::Failure),
        Err(ParseError::Error) => {},
    }
    let p1 = match symbol_at(inp, pos, '(') {
        Ok((_, p)) => p,
        Err(_) => return Err(ParseError::Error),
    };
    let (q, p2) = match query_term_at(inp, p1) {
        Ok(done) => done,
        Err(e) => return Err(e),
    };
    match symbol_at(inp, p2, ')') {
        Ok((_, end)) => Ok((QueryTerm::Parenthesis(Box::new(q)), end)),
        Err(_) => Err(ParseError::Error),
    }
}

/// Parses a query term at the start of `input`.
pub fn parse_query_term(input: &str) -> (r: Result<(&str, QueryTerm), ParseError>)
    ensures
        parsed(r, input@, spec_query_term(input@, 0)),
{
    let chars = chars_of(input);
    let step = query_term_at(chars.as_slice(), 0);
    finish(input, step, Ghost(spec_query_term(input@, 0)))
}

/// A query term, with whitespace allowed on both sides.
#[verifier::opaque]
pub open spec fn spec_ws_query_term(s: Seq<char>, pos: int) -> Parsed<QueryTermView>
    decreases left(s, pos), 1790nat,
{
    spaced(s, pos, spec_query_term(s, pos + ws_count(s, pos)))
}

/// Reads at `pos` what `spec_ws_query_term` describes: the value and the
/// position behind it, or the kind of failure.
pub fn ws_query_term_at(inp: &[char], pos: usize) -> (r: Step<QueryTerm>)
    requires
        pos <= inp@.len(),
    ensures
        agrees(r, inp@, pos as int, spec_ws_query_term(inp@, pos as int)),
    decreases left(inp@, pos as int), 1790nat,
{
    reveal(spec_ws_query_term);
    reveal(crate::select::table_operator::query_term_view);
    reveal(crate::select::statement::select_statement_view);
    let start = skip_ws(inp, pos);
    let step = query_term_at(inp, start);
    spaced_step(inp, pos, step, Ghost(spec_query_term(inp@, pos + ws_count(inp@, pos as int))))
}

/// A set operator: `UNION` with an optional `ALL`, `INTERSECT`, `MINUS` or
/// `EXCEPT`.
#[verifier::opaque]
pub open spec fn spec_table_operator(s: Seq<char>, pos: int) -> Parsed<TableOperator> {
    match spec_keyword(s, pos, Keyword::Union) {
        Parsed::Done(_, k) => match spec_keyword(s, pos + k, Keyword::All) {
            Parsed::Done(_, n) => Parsed::Done(TableOperator::Union(true), k + n),
            _ => Parsed::Done(TableOperator::Union(false), k),
        },
        _ => match spec_keyword(s, pos, Keyword::Intersect) {
            Parsed::Done(_, n) => Parsed::Done(TableOperator::Intersect, n),
            _ => match spec_keyword(s, pos, Keyword::Minus) {
                Parsed::Done(_, n) => Parsed::Done(TableOperator::Minus, n),
                _ => match spec_keyword(s, pos, Keyword::Except) {
                    Parsed::Done(_, n) => Parsed::Done(TableOperator::Except, n),
                    _ => Parsed::Miss,
                },
            },
        },
    }
}

/// Reads at `pos` what `spec_table_operator` describes: the value and the
/// position behind it, or the kind of failure.
pub fn table_operator_at(inp: &[char], pos: usize) -> (r: Step<TableOperator>)
    requires
        pos <= inp@.len(),
    ensures
        agrees(r, inp@, pos as int, spec_table_operator(inp@, pos as int)),
{
    reveal(spec_table_operator);
    if let Ok((_, p1)) = keyword_at(inp, pos, Keyword::Union) {
        return match keyword_at(inp, p1, Keyword::All) {
            Ok((_, end)) => Ok((TableOperator::Union(true), end)),
            Err(_) => Ok((TableOperator::Union(false), p1)),
        };
    }
    if let Ok((_, end)) = keyword_at(inp, pos, Keyword::Intersect) {
        return Ok((TableOperator::Intersect, end));
    }
    if let Ok((_, end)) = keyword_at(inp, pos, Keyword::Minus) {
        return Ok((TableOperator::Minus, end));
    }
    match keyword_at(inp, pos, Keyword::Except) {
        Ok((_, end)) => Ok((TableOperator::Except, end)),
        Err(_) => Err(ParseError::Error),
    }
}

/// A set operator, with whitespace allowed on both sides.
#[verifier::opaque]
pub open spec fn spec_ws_table_operator(s: Seq<char>, pos: int) -> Parsed<TableOperator>
    decreases left(s, pos), 10nat,
{
    spaced(s, pos, spec_table_operator(s, pos + ws_count(s, pos)))
}

/// Reads at `pos` what `spec_ws_table_operator` describes: the value and the
/// position behind it, or the kind of failure.
pub fn ws_table_operator_at(inp: &[char], pos: usize) -> (r: Step<TableOperator>)
    requires
        pos <= inp@.len(),
    ensures
        agrees(r, inp@, pos as int, spec_ws_table_operator(inp@, pos as int)),
    decreases left(inp@, pos as int), 10nat,
{
    reveal(spec_ws_table_operator);
    let start = skip_ws(inp, pos);
    let step = table_operator_at(inp, start);
    spaced_step(inp, pos, step, Ghost(spec_table_operator(inp@, pos + ws_count(inp@, pos as int))))
}

/// Two query terms and the set operator between them.
#[verifier::opaque]
pub open spec fn spec_combined_tables(s: Seq<char>, pos: int) -> Parsed<CombinedTablesView>
    decreases left(s, pos), 1800nat,
{
    match spec_ws_query_term(s, pos) {
        Parsed::Done(first, k) => match spec_ws_table_operator(s, pos + k) {
            Parsed::Done(op, n) => match spec_ws_query_term(s, pos + k + n) {
                Parsed::Done(second, m) => Parsed::Done(
                    CombinedTablesView(first, op, second),
                    k + n + m,
                ),
                f => f.cast(),
            },
            _ => Parsed::Miss,
        },
        f => f.cast(),
    }
}

/// Reads at `pos` what `spec_combined_tables` describes: the value and the
/// position behind it, or the kind of failure.
pub fn combined_tables_at(inp: &[char], pos: usize) -> (r: Step<CombinedTables>)
    requires
        pos <= inp@.len(),
    ensures
        agrees(r, inp@, pos as int, spec_combined_tables(inp@, pos as int)),
    decreases left(inp@, pos as int), 1800nat,
{
    reveal(spec_combined_tables);
    reveal(crate::select::table_operator::combined_tables_view);
    reveal(crate::select::table_operator::query_term_view);
    let (first, p1) = match ws_query_term_at(inp, pos) {
        Ok(done) => done,
        Err(e) => return Err(e),
    };
    let (op, p2) = match ws_table_operator_at(inp, p1) {
        Ok(done) => done,
        Err(_) => return Err(ParseError::Error),
    };
    match ws_query_term_at(inp, p2) {
        Ok((second, end)) => Ok((CombinedTables(first, op, second), end)),
        Err(e) => Err(e),
    }
}

/// Parses two query terms with a set operator between them at the start of `input`.
pub fn combined_tables(input: &str) -> (r: Result<(&str, CombinedTables), ParseError>)
    ensures
        parsed(r, input@, spec_combined_tables(input@, 0)),
{
    let chars = chars_of(input);
    let step = combined_tables_at(chars.as_slice(), 0);
    finish(input, step, Ghost(spec_combined_tables(input@, 0)))
}

impl TableOperator {
    /// The width of the reserved word of the operator.
    pub fn side(&self) -> (n: usize)
        ensures
            n == match self {
                TableOperator::Intersect => 9usize,
                TableOperator::Except => 6usize,
                _ => 5usize,
            },
    {
        match self {
            TableOperator::Intersect => 9,
            TableOperator::Except => 6,
            _ => 5,
        }
    }
}

/// The reserved word, right-aligned in the keyword field; ` ALL` behind
/// `UNION` where it was written.
impl Format for TableOperator {
    open spec fn rendered(&self, st: Layout) -> Layout {
        match self {
            TableOperator::Union(all) => if *all {
                st.left_side(Keyword::Union.spec_text()).space().append(Keyword::All.spec_text())
            } else {
                st.left_side(Keyword::Union.spec_text())
            },
            TableOperator::Intersect => st.left_side(Keyword::Intersect.spec_text()),
            TableOperator::Minus => st.left_side(Keyword::Minus.spec_text()),
            TableOperator::Except => st.left_side(Keyword::Except.spec_text()),
        }
    }

    fn format<'a>(&self, f: &'a mut Formatter) -> (r: &'a mut Formatter) {
        match self {
            TableOperator::Union(all) => if *all {
                f.left_side(Keyword::Union.text()).ws().append(Keyword::All.text())
            } else {
                f.left_side(Keyword::Union.text())
            },
            TableOperator::Intersect => f.left_side(Keyword::Intersect.text()),
            TableOperator::Minus => f.left_side(Keyword::Minus.text()),
            TableOperator::Except => f.left_side(Keyword::Except.text()),
        }
    }
}

/// `pad + 1`, or `usize::MAX` where that does no longer fit.
pub open spec fn one_more(pad: usize) -> usize {
    if pad == usize::MAX {
        usize::MAX
    } else {
        (pad + 1) as usize
    }
}

/// `pad - 1`, or zero where `pad` is zero.
pub open spec fn one_less(pad: usize) -> usize {
    if pad == 0 {
        0
    } else {
        (pad - 1) as usize
    }
}

/// A `SELECT` statement is written as it is; a query term in parentheses
/// between `(` and `)`, with a field that is one column wider.
impl Format for QueryTerm {
    open spec fn rendered(&self, st: Layout) -> Layout
        decreases self,
    {
        match self {
            QueryTerm::Select(q) => q.rendered(st),
            QueryTerm::Parenthesis(q) => {
                let body = q.rendered(st.set_pad(one_more(st.pad)).append("("@)).append(")"@);
                body.set_pad(one_less(body.pad))
            },
        }
    }

    fn format<'a>(&self, f: &'a mut Formatter) -> (r: &'a mut Formatter)
        decreases self,
    {
        match self {
            QueryTerm::Select(q) => q.format(f),
            QueryTerm::Parenthesis(q) => {
                let pad = f.pad();
                f.set_pad(
                    if pad == usize::MAX {
                        usize::MAX
                    } else {
                        pad + 1
                    },
                );
                f.append_str("(");
                q.format(f).append_str(")");
                let pad = f.pad();
                f.set_pad(
                    if pad == 0 {
                        0
                    } else {
                        pad - 1
                    },
                )
            },
        }
    }
}

/// The two query terms with the set operator between them, a blank line
/// on each side of the operator.
impl Format for CombinedTables {
    open spec fn rendered(&self, st: Layout) -> Layout {
        self.2.rendered(
            self.1.rendered(self.0.rendered(st).new_line().new_line()).new_line().new_line(),
        )
    }

    fn format<'a>(&self, f: &'a mut Formatter) -> (r: &'a mut Formatter) {
        self.0.format(f).new_line().new_line();
        self.1.format(f).new_line().new_line();
        self.2.format(f)
    }
}

} // verus!
