//! Joins.
use crate::clause::Clause;
use crate::expression::condition::{
    expression_list_at, spec_expression_list, spec_ws_expressions, ws_expressions_at, Expression,
    ExpressionView,
};
use crate::formatter::{Format, Formatter, Layout};
use crate::keyword::{keyword_at, spec_keyword, Keyword};
use crate::list::List;
use crate::select::from::{
    spec_ws_table_expression, ws_table_expression_at, TableExpression, TableExpressionView,
};
use crate::text::{
    agrees, chars_of, finish, left, optional_step, parsed, skip_ws, spaced, spaced_step,
    spec_symbol, symbol_at, ws_count, ParseError, Parsed, Step,
};
use vstd::prelude::*;

verus! {

/// A join: its kind, the joined table and the join condition.
#[derive(Debug, PartialEq)]
pub struct JoinClause(pub JoinType, pub Box<TableExpression>, pub Option<JoinSpecification>);

/// The view of `JoinClause`: the same tree with sequences of characters for
/// its strings and sequences of views for its lists.
#[verifier::ext_equal]
pub struct JoinClauseView(
    pub JoinType,
    pub Box<TableExpressionView>,
    pub Option<JoinSpecificationView>,
);

/// The view of `x`.
#[verifier::opaque]
pub open spec fn join_clause_view(x: JoinClause) -> JoinClauseView
    decreases x,
{
    JoinClauseView(
        x.0,
        Box::new((*x.1).deep_view()),
        match x.2 {
            Some(y0) => Some(crate::select::join::join_specification_view(y0)),
            None => None,
        },
    )
}

impl DeepView for JoinClause {
    type V = JoinClauseView;

    open spec fn deep_view(&self) -> JoinClauseView {
        join_clause_view(*self)
    }
}

/// The side of an outer join.
#[derive(Debug, Clone, Copy, PartialEq, Eq, Structural)]
pub enum OuterJoinType {
    Left,
    Right,
    Full,
}

impl DeepView for OuterJoinType {
    type V = OuterJoinType;

    open spec fn deep_view(&self) -> OuterJoinType {
        *self
    }
}

/// An outer join, and whether `OUTER` was written.
#[derive(Debug, Clone, Copy, PartialEq, Eq, Structural)]
pub struct OuterJoin(pub OuterJoinType, pub bool);

impl DeepView for OuterJoin {
    type V = OuterJoin;

    open spec fn deep_view(&self) -> OuterJoin {
        *self
    }
}

/// The kind of a join.
#[derive(Debug, Clone, Copy, PartialEq, Eq, Structural)]
pub enum JoinType {
    Default,
    Inner,
    QualifedJoin(OuterJoin),
    Cross,
    Natural,
}

impl DeepView for JoinType {
    type V = JoinType;

    open spec fn deep_view(&self) -> JoinType {
        *self
    }
}

/// The condition of a join.
#[derive(Debug, PartialEq)]
pub enum JoinSpecification {
    On(List<Expression>),
    Using(List<Expression>),
}

/// The view of `JoinSpecification`: the same tree with sequences of
/// characters for its strings and sequences of views for its lists.
#[verifier::ext_equal]
pub enum JoinSpecificationView {
    On(Seq<ExpressionView>),
    Using(Seq<ExpressionView>),
}

/// The view of `x`.
#[verifier::opaque]
pub open spec fn join_specification_view(x: JoinSpecification) -> JoinSpecificationView
    decreases x,
{
    match x {
        JoinSpecification::On(x0) => JoinSpecificationView::On(
            Seq::new(
                x0.0@.len(),
                |i: int| if 0 <= i < x0.0@.len() {
                    crate::expression::condition::expression_view(x0.0@[i])
                } else {
                    arbitrary()
                },
            ),
        ),
        JoinSpecification::Using(x0) => JoinSpecificationView::Using(
            Seq::new(
                x0.0@.len(),
                |i: int| if 0 <= i < x0.0@.len() {
                    crate::expression::condition::expression_view(x0.0@[i])
                } else {
                    arbitrary()
                },
            ),
        ),
    }
}

impl DeepView for JoinSpecification {
    type V = JoinSpecificationView;

    open spec fn deep_view(&self) -> JoinSpecificationView {
        join_specification_view(*self)
    }
}

/// Whether `OUTER` is written: this production always matches.
#[verifier::opaque]
pub open spec fn spec_join_type_outer(s: Seq<char>, pos: int) -> Parsed<bool> {
    match spec_keyword(s, pos, Keyword::Outer) {
        Parsed::Done(_, n) => Parsed::Done(true, n),
        _ => Parsed::Done(false, 0),
    }
}

/// Reads at `pos` what `spec_join_type_outer` describes: the value and the
/// position behind it, or the kind of failure.
pub fn join_type_outer_at(inp: &[char], pos: usize) -> (r: Step<bool>)
    requires
        pos <= inp@.len(),
    ensures
        agrees(r, inp@, pos as int, spec_join_type_outer(inp@, pos as int)),
{
    reveal(spec_join_type_outer);
    match keyword_at(inp, pos, Keyword::Outer) {
        Ok((_, end)) => Ok((true, end)),
        Err(_) => Ok((false, pos)),
    }
}

/// Tells whether `OUTER` stands at the start of `input`, and consumes it.
pub fn join_type_outer(input: &str) -> (r: Result<(&str, bool), ParseError>)
    ensures
        parsed(r, input@, spec_join_type_outer(input@, 0)),
{
    let chars = chars_of(input);
    let step = join_type_outer_at(chars.as_slice(), 0);
    finish(input, step, Ghost(spec_join_type_outer(input@, 0)))
}

/// An optional `OUTER`, with whitespace allowed on both sides.
#[verifier::opaque]
pub open spec fn spec_ws_join_type_outer(s: Seq<char>, pos: int) -> Parsed<bool>
    decreases left(s, pos), 10nat,
{
    spaced(s, pos, spec_join_type_outer(s, pos + ws_count(s, pos)))
}

/// Reads at `pos` what `spec_ws_join_type_outer` describes: the value and
/// the position behind it, or the kind of failure.
pub fn ws_join_type_outer_at(inp: &[char], pos: usize) -> (r: Step<bool>)
    requires
        pos <= inp@.len(),
    ensures
        agrees(r, inp@, pos as int, spec_ws_join_type_outer(inp@, pos as int)),
    decreases left(inp@, pos as int), 10nat,
{
    reveal(spec_ws_join_type_outer);
    let start = skip_ws(inp, pos);
    let step = join_type_outer_at(inp, start);
    spaced_step(inp, pos, step, Ghost(spec_join_type_outer(inp@, pos + ws_count(inp@, pos as int))))
}

/// `LEFT`, `RIGHT` or `FULL`.
#[verifier::opaque]
pub open spec fn spec_outer_join_type(s: Seq<char>, pos: int) -> Parsed<OuterJoinType> {
    match spec_keyword(s, pos, Keyword::Left) {
        Parsed::Done(_, n) => Parsed::Done(OuterJoinType::Left, n),
        _ => match spec_keyword(s, pos, Keyword::Right) {
            Parsed::Done(_, n) => Parsed::Done(OuterJoinType::Right, n),
            _ => match spec_keyword(s, pos, Keyword::Full) {
                Parsed::Done(_, n) => Parsed::Done(OuterJoinType::Full, n),
                _ => Parsed::Miss,
            },
        },
    }
}

/// Reads at `pos` what `spec_outer_join_type` describes: the value and the
/// position behind it, or the kind of failure.
pub fn outer_join_type_at(inp: &[char], pos: usize) -> (r: Step<OuterJoinType>)
    requires
        pos <= inp@.len(),
    ensures
        agrees(r, inp@, pos as int, spec_outer_join_type(inp@, pos as int)),
{
    reveal(spec_outer_join_type);
    if let Ok((_, end)) = keyword_at(inp, pos, Keyword::Left) {
        return Ok((OuterJoinType::Left, end));
    }
    if let Ok((_, end)) = keyword_at(inp, pos, Keyword::Right) {
        return Ok((OuterJoinType::Right, end));
    }
    match keyword_at(inp, pos, Keyword::Full) {
        Ok((_, end)) => Ok((OuterJoinType::Full, end)),
        Err(_) => Err(ParseError::Error),
    }
}

/// Parses `LEFT`, `RIGHT` or `FULL` at the start of `input`.
pub fn outer_join_type(input: &str) -> (r: Result<(&str, OuterJoinType), ParseError>)
    ensures
        parsed(r, input@, spec_outer_join_type(input@, 0)),
{
    let chars = chars_of(input);
    let step = outer_join_type_at(chars.as_slice(), 0);
    finish(input, step, Ghost(spec_outer_join_type(input@, 0)))
}

/// The side of an outer join and an optional `OUTER`.
#[verifier::opaque]
pub open spec fn spec_outer_join(s: Seq<char>, pos: int) -> Parsed<OuterJoin> {
    match spec_outer_join_type(s, pos) {
        Parsed::Done(side, n) => match spec_ws_join_type_outer(s, pos + n) {
            Parsed::Done(outer, m) => Parsed::Done(OuterJoin(side, outer), n + m),
            _ => Parsed::Miss,
        },
        _ => Parsed::Miss,
    }
}

/// Reads at `pos` what `spec_outer_join` describes: the value and the
/// position behind it, or the kind of failure.
pub fn outer_join_at(inp: &[char], pos: usize) -> (r: Step<OuterJoin>)
    requires
        pos <= inp@.len(),
    ensures
        agrees(r, inp@, pos as int, spec_outer_join(inp@, pos as int)),
{
    reveal(spec_outer_join);
    let (side, p1) = match outer_join_type_at(inp, pos) {
        Ok(done) => done,
        Err(_) => return Err(ParseError::Error),
    };
    match ws_join_type_outer_at(inp, p1) {
        Ok((outer, end)) => Ok((OuterJoin(side, outer), end)),
        Err(_) => Err(ParseError::Error),
    }
}

/// Parses the kind of an outer join at the start of `input`.
pub fn outer_join(input: &str) -> (r: Result<(&str, OuterJoin), ParseError>)
    ensures
        parsed(r, input@, spec_outer_join(input@, 0)),
{
    let chars = chars_of(input);
    let step = outer_join_at(chars.as_slice(), 0);
    finish(input, step, Ghost(spec_outer_join(input@, 0)))
}

/// The kind of a join: `NATURAL`, `CROSS`, `INNER`, an outer join, or
/// nothing where `JOIN` itself follows.
#[verifier::opaque]
pub open spec fn spec_join_type(s: Seq<char>, pos: int) -> Parsed<JoinType> {
    match spec_keyword(s, pos, Keyword::Natural) {
        Parsed::Done(_, n) => Parsed::Done(JoinType::Natural, n),
        _ => match spec_keyword(s, pos, Keyword::Cross) {
            Parsed::Done(_, n) => Parsed::Done(JoinType::Cross, n),
            _ => match spec_keyword(s, pos, Keyword::Inner) {
                Parsed::Done(_, n) => Parsed::Done(JoinType::Inner, n),
                _ => match spec_outer_join(s, pos) {
                    Parsed::Done(o, n) => Parsed::Done(JoinType::QualifedJoin(o), n),
                    _ => match spec_keyword(s, pos, Keyword::Join) {
                        Parsed::Done(_, _) => Parsed::Done(JoinType::Default, 0),
                        _ => Parsed::Miss,
                    },
                },
            },
        },
    }
}

/// Reads at `pos` what `spec_join_type` describes: the value and the
/// position behind it, or the kind of failure.
pub fn join_type_at(inp: &[char], pos: usize) -> (r: Step<JoinType>)
    requires
        pos <= inp@.len(),
    ensures
        agrees(r, inp@, pos as int, spec_join_type(inp@, pos as int)),
{
    reveal(spec_join_type);
    if let Ok((_, end)) = keyword_at(inp, pos, Keyword::Natural) {
        return Ok((JoinType::Natural, end));
    }
    if let Ok((_, end)) = keyword_at(inp, pos, Keyword::Cross) {
        return Ok((JoinType::Cross, end));
    }
    if let Ok((_, end)) = keyword_at(inp, pos, Keyword::Inner) {
        return Ok((JoinType::Inner, end));
    }
    if let Ok((o, end)) = outer_join_at(inp, pos) {
        return Ok((JoinType::QualifedJoin(o), end));
    }
    match keyword_at(inp, pos, Keyword::Join) {
        Ok(_) => Ok((JoinType::Default, pos)),
        Err(_) => Err(ParseError::Error),
    }
}

/// Parses the kind of a join at the start of `input`.
pub fn join_type(input: &str) -> (r: Result<(&str, JoinType), ParseError>)
    ensures
        parsed(r, input@, spec_join_type(input@, 0)),
{
    let chars = chars_of(input);
    let step = join_type_at(chars.as_slice(), 0);
    finish(input, step, Ghost(spec_join_type(input@, 0)))
}

/// The kind of a join, with whitespace allowed on both sides.
#[verifier::opaque]
pub open spec fn spec_ws_join_type(s: Seq<char>, pos: int) -> Parsed<JoinType>
    decreases left(s, pos), 10nat,
{
    spaced(s, pos, spec_join_type(s, pos + ws_count(s, pos)))
}

/// Reads at `pos` what `spec_ws_join_type` describes: the value and the
/// position behind it, or the kind of failure.
pub fn ws_join_type_at(inp: &[char], pos: usize) -> (r: Step<JoinType>)
    requires
        pos <= inp@.len(),
    ensures
        agrees(r, inp@, pos as int, spec_ws_join_type(inp@, pos as int)),
    decreases left(inp@, pos as int), 10nat,
{
    reveal(spec_ws_join_type);
    let start = skip_ws(inp, pos);
    let step = join_type_at(inp, start);
    spaced_step(inp, pos, step, Ghost(spec_join_type(inp@, pos + ws_count(inp@, pos as int))))
}

/// `USING` and one or more links of a chain of conditions between
/// parentheses, separated by commas.
#[verifier::opaque]
pub open spec fn spec_using(s: Seq<char>, pos: int) -> Parsed<JoinSpecificationView>
    decreases left(s, pos), 1490nat,
{
    match spec_keyword(s, pos, Keyword::Using) {
        Parsed::Done(_, k) => match spec_symbol(s, pos + k, '(') {
            Parsed::Done(_, n) => match spec_expression_list(s, pos + k + n) {
                Parsed::Done(list, m) => match spec_symbol(s, pos + k + n + m, ')') {
                    Parsed::Done(_, j) => Parsed::Done(
                        JoinSpecificationView::Using(list),
                        k + n + m + j,
                    ),
                    _ => Parsed::Miss,
                },
                f => f.cast(),
            },
            _ => Parsed::Miss,
        },
        _ => Parsed::Miss,
    }
}

/// Reads at `pos` what `spec_using` describes: the value and the position
/// behind it, or the kind of failure.
fn using_at(inp: &[char], pos: usize) -> (r: Step<JoinSpecification>)
    requires
        pos <= inp@.len(),
    ensures
        agrees(r, inp@, pos as int, spec_using(inp@, pos as int)),
    decreases left(inp@, pos as int), 1490nat,
{
    reveal(spec_using);
    reveal(spec_expression_list);
    reveal(crate::select::join::join_specification_view);
    reveal(crate::expression::condition::expression_view);
    let p1 = match keyword_at(inp, pos, Keyword::Using) {
        Ok((_, p)) => p,
        Err(_) => return Err(ParseError::Error),
    };
    proof {
        Keyword::Using.text_width();
    }
    let p2 = match symbol_at(inp, p1, '(') {
        Ok((_, p)) => p,
        Err(_) => return Err(ParseError::Error),
    };
    let (list, p3) = match expression_list_at(inp, p2) {
        Ok(done) => done,
        Err(e) => return Err(e),
    };
    match symbol_at(inp, p3, ')') {
        Ok((_, end)) => {
            let ghost views = list.deep_view();
            let value = JoinSpecification::Using(List(list));
            proof {
                let got = value.deep_view()->Using_0;
                assert(got.len() == views.len());
                assert forall|i: int| 0 <= i < views.len() implies got[i] == views[i] by {
                    assert(views[i] == value->Using_0.0@[i].deep_view());
                    assert(got[i] == value->Using_0.0@[i].deep_view());
                }
                assert(got =~= views);
            }
            assert(value.deep_view() =~= JoinSpecificationView::Using(views));
            Ok((value, end))
        },
        Err(_) => Err(ParseError::Error),
    }
}

/// The condition of a join: `ON` and a chain of conditions, or `USING` and
/// a list between parentheses.
#[verifier::opaque]
pub open spec fn spec_join_specification(s: Seq<char>, pos: int) -> Parsed<JoinSpecificationView>
    decreases left(s, pos), 1500nat,
{
    match spec_keyword(s, pos, Keyword::On) {
        Parsed::Done(_, k) => match spec_ws_expressions(s, pos + k) {
            Parsed::Done(list, n) => Parsed::Done(JoinSpecificationView::On(list), k + n),
            Parsed::Halt => Parsed::Halt,
            Parsed::Miss => spec_using(s, pos),
        },
        _ => spec_using(s, pos),
    }
}

/// Reads at `pos` what `spec_join_specification` describes: the value and
/// the position behind it, or the kind of failure.
pub fn join_specification_at(inp: &[char], pos: usize) -> (r: Step<JoinSpecification>)
    requires
        pos <= inp@.len(),
    ensures
        agrees(r, inp@, pos as int, spec_join_specification(inp@, pos as int)),
    decreases left(inp@, pos as int), 1500nat,
{
    reveal(spec_join_specification);
    reveal(spec_ws_expressions);
    reveal(spec_using);
    reveal(crate::select::join::join_specification_view);
    reveal(crate::expression::condition::expression_view);
    proof {
        Keyword::On.text_width();
    }
    if let Ok((_, p1)) = keyword_at(inp, pos, Keyword::On) {
        match ws_expressions_at(inp, p1) {
            Ok((list, end)) => {
                let ghost views = list.deep_view();
                let value = JoinSpecification::On(List(list));
                proof {
                    let got = value.deep_view()->On_0;
                    assert(got.len() == views.len());
                    assert forall|i: int| 0 <= i < views.len() implies got[i] == views[i] by {
                        assert(views[i] == value->On_0.0@[i].deep_view());
                        assert(got[i] == value->On_0.0@[i].deep_view());
                    }
                    assert(got =~= views);
                }
                assert(value.deep_view() =~= JoinSpecificationView::On(views));
                return Ok((value, end));
            },
            Err(ParseError::Failure) => return Err(ParseError::Failure),
            Err(ParseError::Error) => {},
        }
    }
    using_at(inp, pos)
}

/// Parses the condition of a join at the start of `input`.
pub fn join_specification(input: &str) -> (r: Result<(&str, JoinSpecification), ParseError>)
    ensures
        parsed(r, input@, spec_join_specification(input@, 0)),
{
    let chars = chars_of(input);
    let step = join_specification_at(chars.as_slice(), 0);
    finish(input, step, Ghost(spec_join_specification(input@, 0)))
}

/// The condition of a join, with whitespace allowed on both sides.
#[verifier::opaque]
pub open spec fn spec_ws_join_specification(s: Seq<char>, pos: int) -> Parsed<JoinSpecificationView>
    decreases left(s, pos), 1510nat,
{
    spaced(s, pos, spec_join_specification(s, pos + ws_count(s, pos)))
}

/// Reads at `pos` what `spec_ws_join_specification` describes: the value and
/// the position behind it, or the kind of failure.
pub fn ws_join_specification_at(inp: &[char], pos: usize) -> (r: Step<JoinSpecification>)
    requires
        pos <= inp@.len(),
    ensures
        agrees(r, inp@, pos as int, spec_ws_join_specification(inp@, pos as int)),
    decreases left(inp@, pos as int), 1510nat,
{
    reveal(spec_ws_join_specification);
    reveal(spec_join_specification);
    reveal(crate::select::join::join_specification_view);
    reveal(crate::expression::condition::expression_view);
    let start = skip_ws(inp, pos);
    let step = join_specification_at(inp, start);
    spaced_step(
        inp,
        pos,
        step,
        Ghost(spec_join_specification(inp@, pos + ws_count(inp@, pos as int))),
    )
}

/// A join: its kind, `JOIN`, the joined table and an optional condition.
#[verifier::opaque]
pub open spec fn spec_join_clause(s: Seq<char>, pos: int) -> Parsed<JoinClauseView>
    decreases left(s, pos), 1530nat,
{
    match spec_ws_join_type(s, pos) {
        Parsed::Done(kind, k) => match spec_keyword(s, pos + k, Keyword::Join) {
            Parsed::Done(_, n) => match spec_ws_table_expression(s, pos + k + n) {
                Parsed::Done(table, m) => match spec_ws_join_specification(
                    s,
                    pos + k + n + m,
                ).optional() {
                    Parsed::Done(spec, j) => Parsed::Done(
                        JoinClauseView(kind, Box::new(table), spec),
                        k + n + m + j,
                    ),
                    f => f.cast(),
                },
                _ => Parsed::Miss,
            },
            _ => Parsed::Miss,
        },
        _ => Parsed::Miss,
    }
}

/// Reads at `pos` what `spec_join_clause` describes: the value and the
/// position behind it, or the kind of failure.
pub fn join_clause_at(inp: &[char], pos: usize) -> (r: Step<JoinClause>)
    requires
        pos <= inp@.len(),
    ensures
        agrees(r, inp@, pos as int, spec_join_clause(inp@, pos as int)),
    decreases left(inp@, pos as int), 1530nat,
{
    reveal(spec_join_clause);
    reveal(spec_ws_join_specification);
    reveal(crate::select::join::join_clause_view);
    reveal(crate::select::join::join_specification_view);
    let (kind, p1) = match ws_join_type_at(inp, pos) {
        Ok(done) => done,
        Err(_) => return Err(ParseError::Error),
    };
    let p2 = match keyword_at(inp, p1, Keyword::Join) {
        Ok((_, p)) => p,
        Err(_) => return Err(ParseError::Error),
    };
    proof {
        Keyword::Join.text_width();
    }
    let (table, p3) = match ws_table_expression_at(inp, p2) {
        Ok(done) => done,
        Err(_) => return Err(ParseError::Error),
    };
    match optional_step(
        inp,
        p3,
        ws_join_specification_at(inp, p3),
        Ghost(spec_ws_join_specification(inp@, p3 as int)),
    ) {
        Ok((spec, end)) => Ok((JoinClause(kind, Box::new(table), spec), end)),
        Err(e) => Err(e),
    }
}

/// Parses a join at the start of `input`.
pub fn parse_join_clause(input: &str) -> (r: Result<(&str, JoinClause), ParseError>)
    ensures
        parsed(r, input@, spec_join_clause(input@, 0)),
{
    let chars = chars_of(input);
    let step = join_clause_at(chars.as_slice(), 0);
    finish(input, step, Ghost(spec_join_clause(input@, 0)))
}

/// The elements that follow in a sequence of which `acc` has been read,
/// as many as are there. An element that consumes nothing ends the
/// sequence with a mismatch.
#[verifier::opaque]
pub open spec fn spec_joins_more(s: Seq<char>, pos: int, acc: Seq<JoinClauseView>) -> Parsed<
    Seq<JoinClauseView>,
>
    decreases left(s, pos), 1549nat,
{
    match spec_join_clause(s, pos) {
        Parsed::Done(x, n) => if n == 0 || pos + n > s.len() {
            Parsed::Miss
        } else {
            spec_joins_more(s, pos + n, acc.push(x)).after(n)
        },
        Parsed::Halt => Parsed::Halt,
        Parsed::Miss => Parsed::Done(acc, 0),
    }
}

/// One or more joins.
#[verifier::opaque]
pub open spec fn spec_joins(s: Seq<char>, pos: int) -> Parsed<Seq<JoinClauseView>>
    decreases left(s, pos), 1550nat,
{
    match spec_join_clause(s, pos) {
        Parsed::Done(x, n) => spec_joins_more(s, pos + n, seq![x]).after(n),
        f => f.cast(),
    }
}

/// Reads at `pos` what `spec_joins` describes: the value and the position
/// behind it, or the kind of failure.
pub fn joins_at(inp: &[char], pos: usize) -> (r: Step<Vec<JoinClause>>)
    requires
        pos <= inp@.len(),
    ensures
        agrees(r, inp@, pos as int, spec_joins(inp@, pos as int)),
    decreases left(inp@, pos as int), 1550nat,
{
    reveal(spec_joins);
    reveal(spec_join_clause);
    reveal(spec_joins_more);
    let (first, start) = match join_clause_at(inp, pos) {
        Ok(done) => done,
        Err(e) => return Err(e),
    };
    let ghost whole = spec_joins_more(inp@, start as int, seq![first.deep_view()]);
    let ghost mut xv = first.deep_view();
    let mut acc: Vec<JoinClause> = Vec::new();
    acc.push(first);
    assert(acc.deep_view() =~= seq![xv]);
    let mut cur = start;
    reveal(spec_joins_more);
    reveal(spec_join_clause);
    loop
        invariant
            pos <= start <= cur <= inp@.len(),
            spec_joins(inp@, pos as int) == whole.after((start - pos) as nat),
            whole == spec_joins_more(inp@, cur as int, acc.deep_view()).after((cur - start) as nat),
        decreases inp@.len() - cur,
    {
        reveal(spec_joins_more);
        reveal(spec_join_clause);
        match join_clause_at(inp, cur) {
            Ok((x, p2)) => {
                if p2 == cur {
                    return Err(ParseError::Error);
                }
                let ghost before = acc.deep_view();
                proof {
                    xv = x.deep_view();
                }
                acc.push(x);
                assert(acc.deep_view() =~= before.push(xv));
                cur = p2;
            },
            Err(ParseError::Failure) => return Err(ParseError::Failure),
            Err(ParseError::Error) => return Ok((acc, cur)),
        }
    }
}

/// Parses one or more joins at the start of `input`.
pub fn parse_joins_clause(input: &str) -> (r: Result<(&str, List<JoinClause>), ParseError>)
    ensures
        parsed(r, input@, spec_joins(input@, 0)),
{
    let chars = chars_of(input);
    let step = match joins_at(chars.as_slice(), 0) {
        Ok((list, end)) => Ok((List(list), end)),
        Err(e) => Err(e),
    };
    finish(input, step, Ghost(spec_joins(input@, 0)))
}

impl Clause for JoinClause {
    open spec fn clause_keyword() -> Keyword {
        Keyword::Join
    }

    fn leading() -> (k: Keyword) {
        Keyword::Join
    }
}

impl Format for OuterJoinType {
    open spec fn rendered(&self, st: Layout) -> Layout {
        match self {
            OuterJoinType::Left => st.append(Keyword::Left.spec_text()),
            OuterJoinType::Right => st.append(Keyword::Right.spec_text()),
            OuterJoinType::Full => st.append(Keyword::Full.spec_text()),
        }
    }

    fn format<'a>(&self, f: &'a mut Formatter) -> (r: &'a mut Formatter) {
        match self {
            OuterJoinType::Left => f.append(Keyword::Left.text()),
            OuterJoinType::Right => f.append(Keyword::Right.text()),
            OuterJoinType::Full => f.append(Keyword::Full.text()),
        }
    }
}

/// The side, and ` OUTER` where it was written.
impl Format for OuterJoin {
    open spec fn rendered(&self, st: Layout) -> Layout {
        if self.1 {
            self.0.rendered(st).space().append(Keyword::Outer.spec_text())
        } else {
            self.0.rendered(st)
        }
    }

    fn format<'a>(&self, f: &'a mut Formatter) -> (r: &'a mut Formatter) {
        if self.1 {
            self.0.format(f).space().append(Keyword::Outer.text())
        } else {
            self.0.format(f)
        }
    }
}

/// The reserved words of the kind; nothing for a plain join.
impl Format for JoinType {
    open spec fn rendered(&self, st: Layout) -> Layout {
        match self {
            JoinType::Default => st,
            JoinType::Inner => st.append(Keyword::Inner.spec_text()),
            JoinType::Cross => st.append(Keyword::Cross.spec_text()),
            JoinType::Natural => st.append(Keyword::Natural.spec_text()),
            JoinType::QualifedJoin(o) => o.rendered(st),
        }
    }

    fn format<'a>(&self, f: &'a mut Formatter) -> (r: &'a mut Formatter) {
        match self {
            JoinType::Default => f,
            JoinType::Inner => f.append(Keyword::Inner.text()),
            JoinType::Cross => f.append(Keyword::Cross.text()),
            JoinType::Natural => f.append(Keyword::Natural.text()),
            JoinType::QualifedJoin(o) => o.format(f),
        }
    }
}

/// `pad + 7`, or `usize::MAX` where that does no longer fit.
pub open spec fn widened(pad: usize) -> usize {
    if pad > usize::MAX - 7 {
        usize::MAX
    } else {
        (pad + 7) as usize
    }
}

/// `pad - 7`, or zero where `pad` is smaller.
pub open spec fn narrowed(pad: usize) -> usize {
    if pad < 7 {
        0
    } else {
        (pad - 7) as usize
    }
}

/// `ON` or `USING` at the column at which a clause body starts, a space
/// and the conditions. The conditions behind `ON` are rendered with a
/// field that is seven columns wider.
impl Format for JoinSpecification {
    open spec fn rendered(&self, st: Layout) -> Layout
        decreases self,
    {
        match self {
            JoinSpecification::On(e) => {
                let head = st.right_margin().append(Keyword::On.spec_text()).space();
                let body = e.rendered(head.set_pad(widened(head.pad)));
                body.set_pad(narrowed(body.pad))
            },
            JoinSpecification::Using(e) => e.rendered(
                st.right_margin().append(Keyword::Using.spec_text()).space(),
            ),
        }
    }

    fn format<'a>(&self, f: &'a mut Formatter) -> (r: &'a mut Formatter)
        decreases self,
    {
        match self {
            JoinSpecification::On(e) => {
                f.right_margin().append(Keyword::On.text()).space();
                let pad = f.pad();
                f.set_pad(
                    if pad > usize::MAX - 7 {
                        usize::MAX
                    } else {
                        pad + 7
                    },
                );
                e.format(f);
                let pad = f.pad();
                f.set_pad(
                    if pad < 7 {
                        0
                    } else {
                        pad - 7
                    },
                )
            },
            JoinSpecification::Using(e) => {
                f.right_margin().append(Keyword::Using.text()).space();
                e.format(f)
            },
        }
    }
}

/// A plain join starts with `JOIN`, right-aligned in the keyword field;
/// any other with its kind at the column at which a clause body starts, a
/// space and `JOIN`. The table follows behind a space, the condition on a
/// new line.
impl Format for JoinClause {
    open spec fn rendered(&self, st: Layout) -> Layout
        decreases self,
    {
        let head = match self.0 {
            JoinType::Default => st.left_side(Keyword::Join.spec_text()),
            _ => self.0.rendered(st.right_margin()).space().append(Keyword::Join.spec_text()),
        };
        let table = self.1.rendered(head.space());
        match self.2 {
            Some(spec) => spec.rendered(table.new_line()),
            None => table,
        }
    }

    fn format<'a>(&self, f: &'a mut Formatter) -> (r: &'a mut Formatter)
        decreases self,
    {
        match self.0 {
            JoinType::Default => {
                f.left_side(Keyword::Join.text());
            },
            _ => {
                f.right_margin();
                self.0.format(f).space().append(Keyword::Join.text());
            },
        }
        f.space();
        self.1.format(f);
        match &self.2 {
            Some(spec) => {
                f.new_line();
                spec.format(f)
            },
            None => f,
        }
    }
}

} // verus!
