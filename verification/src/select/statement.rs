//! The `SELECT` statement.
use crate::expression::condition::{
    spec_where_clause, where_clause_at, WhereClause, WhereClauseView,
};
use crate::formatter::{Format, Formatter, Layout};
use crate::select::clause::{select_clause_at, spec_select_clause, SelectClause, SelectClauseView};
use crate::select::from::{from_clause_at, spec_from_clause, FromClause, FromClauseView};
use crate::select::group::{
    group_by_clause_at, spec_group_by_clause, GroupByClause, GroupByClauseView,
};
use crate::select::limit::{limit_clause_at, spec_limit_clause, LimitClause};
use crate::select::order::{
    order_by_clause_at, spec_order_by_clause, OrderByClause, OrderByClauseView,
};
use crate::text::{
    agrees, chars_of, finish, left, optional_step, parsed, skip_ws, spaced, spaced_step, ws_count,
    ParseError, Parsed, Step,
};
use vstd::prelude::*;

verus! {

/// A `SELECT` statement: its clauses, in their fixed order.
#[derive(Debug, PartialEq)]
pub struct SelectStatement {
    pub select: SelectClause,
    pub from: Option<FromClause>,
    pub where_clause: Option<WhereClause>,
    pub group_by: Option<GroupByClause>,
    pub order_by: Option<OrderByClause>,
    pub limit: Option<LimitClause>,
}

/// The view of `SelectStatement`: the same tree with sequences of characters
/// for its strings and sequences of views for its lists.
#[verifier::ext_equal]
pub struct SelectStatementView {
    pub select: SelectClauseView,
    pub from: Option<FromClauseView>,
    pub where_clause: Option<WhereClauseView>,
    pub group_by: Option<GroupByClauseView>,
    pub order_by: Option<OrderByClauseView>,
    pub limit: Option<LimitClause>,
}

/// The view of `x`.
#[verifier::opaque]
pub open spec fn select_statement_view(x: SelectStatement) -> SelectStatementView
    decreases x,
{
    SelectStatementView {
        select: crate::select::clause::select_clause_view(x.select),
        from: match x.from {
            Some(y0) => Some(crate::select::from::from_clause_view(y0)),
            None => None,
        },
        where_clause: match x.where_clause {
            Some(y0) => Some(crate::expression::condition::where_clause_view(y0)),
            None => None,
        },
        group_by: match x.group_by {
            Some(y0) => Some(crate::select::group::group_by_clause_view(y0)),
            None => None,
        },
        order_by: match x.order_by {
            Some(y0) => Some(y0.deep_view()),
            None => None,
        },
        limit: x.limit,
    }
}

impl DeepView for SelectStatement {
    type V = SelectStatementView;

    open spec fn deep_view(&self) -> SelectStatementView {
        select_statement_view(*self)
    }
}

/// A `SELECT` statement: the `SELECT` clause and then, each optional and in
/// this order, the `FROM`, `WHERE`, `GROUP BY`, `ORDER BY` and `LIMIT`
/// clauses.
#[verifier::opaque]
pub open spec fn spec_select_statement(s: Seq<char>, pos: int) -> Parsed<SelectStatementView>
    decreases left(s, pos), 1750nat,
{
    match spec_select_clause(s, pos) {
        Parsed::Done(select, a) => match spec_from_clause(s, pos + a).optional() {
            Parsed::Done(from, b) => match spec_where_clause(s, pos + a + b).optional() {
                Parsed::Done(where_clause, c) => match spec_group_by_clause(
                    s,
                    pos + a + b + c,
                ).optional() {
                    Parsed::Done(group_by, d) => match spec_order_by_clause(
                        s,
                        pos + a + b + c + d,
                    ).optional() {
                        Parsed::Done(order_by, e) => match spec_limit_clause(
                            s,
                            pos + a + b + c + d + e,
                        ).optional() {
                            Parsed::Done(limit, g) => Parsed::Done(
                                SelectStatementView {
                                    select,
                                    from,
                                    where_clause,
                                    group_by,
                                    order_by,
                                    limit,
                                },
                                a + b + c + d + e + g,
                            ),
                            f => f.cast(),
                        },
                        f => f.cast(),
                    },
                    f => f.cast(),
                },
                f => f.cast(),
            },
            f => f.cast(),
        },
        f => f.cast(),
    }
}

/// Reads at `pos` what `spec_select_statement` describes: the value and the
/// position behind it, or the kind of failure.
pub fn select_statement_at(inp: &[char], pos: usize) -> (r: Step<SelectStatement>)
    requires
        pos <= inp@.len(),
    ensures
        agrees(r, inp@, pos as int, spec_select_statement(inp@, pos as int)),
    decreases left(inp@, pos as int), 1750nat,
{
    reveal(spec_select_statement);
    reveal(spec_select_clause);
    reveal(spec_from_clause);
    reveal(spec_where_clause);
    reveal(spec_group_by_clause);
    reveal(crate::select::statement::select_statement_view);
    reveal(crate::select::clause::select_clause_view);
    reveal(crate::select::from::from_clause_view);
    reveal(crate::expression::condition::where_clause_view);
    reveal(crate::select::group::group_by_clause_view);
    let (select, p1) = match select_clause_at(inp, pos) {
        Ok(done) => done,
        Err(e) => return Err(e),
    };
    let (from, p2) = match optional_step(
        inp,
        p1,
        from_clause_at(inp, p1),
        Ghost(spec_from_clause(inp@, p1 as int)),
    ) {
        Ok(done) => done,
        Err(e) => return Err(e),
    };
    let (where_clause, p3) = match optional_step(
        inp,
        p2,
        where_clause_at(inp, p2),
        Ghost(spec_where_clause(inp@, p2 as int)),
    ) {
        Ok(done) => done,
        Err(e) => return Err(e),
    };
    let (group_by, p4) = match optional_step(
        inp,
        p3,
        group_by_clause_at(inp, p3),
        Ghost(spec_group_by_clause(inp@, p3 as int)),
    ) {
        Ok(done) => done,
        Err(e) => return Err(e),
    };
    let (order_by, p5) = match optional_step(
        inp,
        p4,
        order_by_clause_at(inp, p4),
        Ghost(spec_order_by_clause(inp@, p4 as int)),
    ) {
        Ok(done) => done,
        Err(e) => return Err(e),
    };
    match optional_step(
        inp,
        p5,
        limit_clause_at(inp, p5),
        Ghost(spec_limit_clause(inp@, p5 as int)),
    ) {
        Ok((limit, end)) => Ok(
            (SelectStatement { select, from, where_clause, group_by, order_by, limit }, end),
        ),
        Err(e) => Err(e),
    }
}

/// Parses a `SELECT` statement at the start of `input`.
pub fn parse_select_statement(input: &str) -> (r: Result<(&str, SelectStatement), ParseError>)
    ensures
        parsed(r, input@, spec_select_statement(input@, 0)),
{
    let chars = chars_of(input);
    let step = select_statement_at(chars.as_slice(), 0);
    finish(input, step, Ghost(spec_select_statement(input@, 0)))
}

/// A `SELECT` statement, with whitespace allowed on both sides.
#[verifier::opaque]
pub open spec fn spec_ws_select_statement(s: Seq<char>, pos: int) -> Parsed<SelectStatementView>
    decreases left(s, pos), 1760nat,
{
    spaced(s, pos, spec_select_statement(s, pos + ws_count(s, pos)))
}

/// Reads at `pos` what `spec_ws_select_statement` describes: the value and
/// the position behind it, or the kind of failure.
pub fn ws_select_statement_at(inp: &[char], pos: usize) -> (r: Step<SelectStatement>)
    requires
        pos <= inp@.len(),
    ensures
        agrees(r, inp@, pos as int, spec_ws_select_statement(inp@, pos as int)),
    decreases left(inp@, pos as int), 1760nat,
{
    reveal(spec_ws_select_statement);
    reveal(crate::select::statement::select_statement_view);
    reveal(crate::select::clause::select_clause_view);
    reveal(crate::select::from::from_clause_view);
    reveal(crate::expression::condition::where_clause_view);
    reveal(crate::select::group::group_by_clause_view);
    let start = skip_ws(inp, pos);
    let step = select_statement_at(inp, start);
    spaced_step(
        inp,
        pos,
        step,
        Ghost(spec_select_statement(inp@, pos + ws_count(inp@, pos as int))),
    )
}

/// The field width is set to the width of `SELECT`. The `SELECT` clause
/// is written where the formatter stands, every other clause on a new
/// line.
impl Format for SelectStatement {
    open spec fn rendered(&self, st: Layout) -> Layout
        decreases self,
    {
        let a = self.select.rendered(st.set_pad(6));
        let b = match self.from {
            Some(clause) => clause.rendered(a.new_line()),
            None => a,
        };
        let c = match self.where_clause {
            Some(clause) => clause.rendered(b.new_line()),
            None => b,
        };
        let d = match self.group_by {
            Some(clause) => clause.rendered(c.new_line()),
            None => c,
        };
        let e = match self.order_by {
            Some(clause) => clause.rendered(d.new_line()),
            None => d,
        };
        match self.limit {
            Some(clause) => clause.rendered(e.new_line()),
            None => e,
        }
    }

    fn format<'a>(&self, f: &'a mut Formatter) -> (r: &'a mut Formatter)
        decreases self,
    {
        f.set_pad(6);
        self.select.format(f);
        match &self.from {
            Some(clause) => {
                f.new_line();
                clause.format(f);
            },
            None => {},
        }
        match &self.where_clause {
            Some(clause) => {
                f.new_line();
                clause.format(f);
            },
            None => {},
        }
        match &self.group_by {
            Some(clause) => {
                f.new_line();
                clause.format(f);
            },
            None => {},
        }
        match &self.order_by {
            Some(clause) => {
                f.new_line();
                clause.format(f);
            },
            None => {},
        }
        match &self.limit {
            Some(clause) => {
                f.new_line();
                clause.format(f)
            },
            None => f,
        }
    }
}

} // verus!
