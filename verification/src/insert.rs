//! `INSERT` statements.
use crate::clause::Clause;
use crate::expression::condition::{expression_at, spec_expression, Expression, ExpressionView};
use crate::formatter::{Format, Formatter, Layout};
use crate::identifier::{spec_ws_name, ws_name_at, Name, NameView};
use crate::keyword::{keyword_at, spec_keyword, Keyword};
use crate::list::List;
use crate::table::create::{spec_ws_table_ref, ws_table_ref_at, TableRef, TableRefView};
use crate::text::{
    agrees, chars_of, finish, left, optional_step, parsed, skip_ws, spaced, spaced_step,
    spec_symbol, symbol_at, ws_count, ParseError, Parsed, Step,
};
use vstd::prelude::*;

verus! {

/// `INSERT INTO`, `VALUES` and what they hold.
#[derive(Debug, PartialEq)]
pub struct InsertStatement(pub InsertIntoClause, pub ValuesClause);

/// The view of `InsertStatement`: the same tree with sequences of characters
/// for its strings and sequences of views for its lists.
#[verifier::ext_equal]
pub struct InsertStatementView(pub InsertIntoClauseView, pub ValuesClauseView);

/// The view of `x`.
#[verifier::opaque]
pub open spec fn insert_statement_view(x: InsertStatement) -> InsertStatementView
    decreases x,
{
    InsertStatementView(x.0.deep_view(), crate::insert::values_clause_view(x.1))
}

impl DeepView for InsertStatement {
    type V = InsertStatementView;

    open spec fn deep_view(&self) -> InsertStatementView {
        insert_statement_view(*self)
    }
}

/// `INSERT INTO`, the table and an optional list of columns.
#[derive(Debug, PartialEq, Clone)]
pub struct InsertIntoClause(pub TableRef, pub Option<List<Name>>);

/// The view of `InsertIntoClause`: the same tree with sequences of
/// characters for its strings and sequences of views for its lists.
#[verifier::ext_equal]
pub struct InsertIntoClauseView(pub TableRefView, pub Option<Seq<NameView>>);

impl DeepView for InsertIntoClause {
    type V = InsertIntoClauseView;

    open spec fn deep_view(&self) -> InsertIntoClauseView {
        InsertIntoClauseView(self.0.deep_view(), self.1.deep_view())
    }
}

/// `VALUES` and the rows.
#[derive(Debug, PartialEq)]
pub struct ValuesClause(pub List<InsertValue>);

/// The view of `ValuesClause`: the same tree with sequences of characters
/// for its strings and sequences of views for its lists.
#[verifier::ext_equal]
pub struct ValuesClauseView(pub Seq<InsertValueView>);

/// The view of `x`.
#[verifier::opaque]
pub open spec fn values_clause_view(x: ValuesClause) -> ValuesClauseView
    decreases x,
{
    ValuesClauseView(
        Seq::new(
            x.0.0@.len(),
            |i: int| if 0 <= i < x.0.0@.len() {
                crate::insert::insert_value_view(x.0.0@[i])
            } else {
                arbitrary()
            },
        ),
    )
}

impl DeepView for ValuesClause {
    type V = ValuesClauseView;

    open spec fn deep_view(&self) -> ValuesClauseView {
        values_clause_view(*self)
    }
}

/// A value to insert: `DEFAULT`, an expression, or a row of values between parentheses.
#[derive(Debug, PartialEq)]
pub enum InsertValue {
    Default,
    Expression(Box<Expression>),
    ParenthesisExpression(List<InsertValue>),
}

/// The view of `InsertValue`: the same tree with sequences of characters for
/// its strings and sequences of views for its lists.
#[verifier::ext_equal]
pub enum InsertValueView {
    Default,
    Expression(Box<ExpressionView>),
    ParenthesisExpression(Seq<InsertValueView>),
}

/// The view of `x`.
#[verifier::opaque]
pub open spec fn insert_value_view(x: InsertValue) -> InsertValueView
    decreases x,
{
    match x {
        InsertValue::Default => InsertValueView::Default,
        InsertValue::Expression(x0) => InsertValueView::Expression(
            Box::new(crate::expression::condition::expression_view((*x0))),
        ),
        InsertValue::ParenthesisExpression(x0) => InsertValueView::ParenthesisExpression(
            Seq::new(
                x0.0@.len(),
                |i: int| if 0 <= i < x0.0@.len() {
                    crate::insert::insert_value_view(x0.0@[i])
                } else {
                    arbitrary()
                },
            ),
        ),
    }
}

impl DeepView for InsertValue {
    type V = InsertValueView;

    open spec fn deep_view(&self) -> InsertValueView {
        insert_value_view(*self)
    }
}

/// The elements that follow in a list of which `acc` has been read: a
/// comma and an element, as often as both are there.
#[verifier::opaque]
pub open spec fn spec_names_more(s: Seq<char>, pos: int, acc: Seq<NameView>) -> Parsed<
    Seq<NameView>,
>
    decreases left(s, pos), 19nat,
{
    match spec_symbol(s, pos, ',') {
        Parsed::Done(_, k) => match spec_ws_name(s, pos + k) {
            Parsed::Done(x, n) => spec_names_more(s, pos + k + n, acc.push(x)).after(k + n),
            Parsed::Halt => Parsed::Halt,
            Parsed::Miss => Parsed::Done(acc, 0),
        },
        _ => Parsed::Done(acc, 0),
    }
}

/// One or more names, separated by commas.
#[verifier::opaque]
pub open spec fn spec_names(s: Seq<char>, pos: int) -> Parsed<Seq<NameView>>
    decreases left(s, pos), 20nat,
{
    match spec_ws_name(s, pos) {
        Parsed::Done(x, n) => spec_names_more(s, pos + n, seq![x]).after(n),
        f => f.cast(),
    }
}

/// Reads at `pos` what `spec_names` describes: the value and the position
/// behind it, or the kind of failure.
pub fn names_at(inp: &[char], pos: usize) -> (r: Step<Vec<Name>>)
    requires
        pos <= inp@.len(),
    ensures
        agrees(r, inp@, pos as int, spec_names(inp@, pos as int)),
    decreases left(inp@, pos as int), 20nat,
{
    reveal(spec_names);
    reveal(spec_ws_name);
    reveal(spec_names_more);
    reveal(spec_symbol);
    let (first, start) = match ws_name_at(inp, pos) {
        Ok(done) => done,
        Err(e) => return Err(e),
    };
    let ghost whole = spec_names_more(inp@, start as int, seq![first.deep_view()]);
    let ghost mut xv = first.deep_view();
    let mut acc: Vec<Name> = Vec::new();
    acc.push(first);
    assert(acc.deep_view() =~= seq![xv]);
    let mut cur = start;
    reveal(spec_names_more);
    reveal(spec_ws_name);
    loop
        invariant
            pos <= start <= cur <= inp@.len(),
            spec_names(inp@, pos as int) == whole.after((start - pos) as nat),
            whole == spec_names_more(inp@, cur as int, acc.deep_view()).after((cur - start) as nat),
        decreases inp@.len() - cur,
    {
        reveal(spec_names_more);
        reveal(spec_ws_name);
        let p1 = match symbol_at(inp, cur, ',') {
            Ok((_, p)) => p,
            Err(_) => return Ok((acc, cur)),
        };
        match ws_name_at(inp, p1) {
            Ok((x, p2)) => {
                let ghost before = acc.deep_view();
                proof {
                    xv = x.deep_view();
                }
                acc.push(x);
                assert(acc.deep_view() =~= before.push(xv));
                cur = p2;
            },
            Err(ParseError::Failure) => return Err(ParseError::Failure),
            Err(ParseError::Error) => return Ok((acc, cur)),
        }
    }
}

/// A list of column names between parentheses.
#[verifier::opaque]
pub open spec fn spec_columns(s: Seq<char>, pos: int) -> Parsed<Seq<NameView>> {
    match spec_symbol(s, pos, '(') {
        Parsed::Done(_, k) => match spec_names(s, pos + k) {
            Parsed::Done(list, n) => match spec_symbol(s, pos + k + n, ')') {
                Parsed::Done(_, m) => Parsed::Done(list, k + n + m),
                _ => Parsed::Miss,
            },
            _ => Parsed::Miss,
        },
        _ => Parsed::Miss,
    }
}

/// Reads at `pos` what `spec_columns` describes: the value and the position
/// behind it, or the kind of failure.
fn columns_at(inp: &[char], pos: usize) -> (r: Step<List<Name>>)
    requires
        pos <= inp@.len(),
    ensures
        agrees(r, inp@, pos as int, spec_columns(inp@, pos as int)),
{
    reveal(spec_columns);
    let p1 = match symbol_at(inp, pos, '(') {
        Ok((_, p)) => p,
        Err(_) => return Err(ParseError::Error),
    };
    let (list, p2) = match names_at(inp, p1) {
        Ok(done) => done,
        Err(_) => return Err(ParseError::Error),
    };
    match symbol_at(inp, p2, ')') {
        Ok((_, end)) => Ok((List(list), end)),
        Err(_) => Err(ParseError::Error),
    }
}

/// `INSERT`, `INTO`, a table and an optional list of columns between
/// parentheses.
#[verifier::opaque]
pub open spec fn spec_insert_into_clause(s: Seq<char>, pos: int) -> Parsed<InsertIntoClauseView> {
    match spec_keyword(s, pos, Keyword::Insert) {
        Parsed::Done(_, k) => match spec_keyword(s, pos + k, Keyword::Into) {
            Parsed::Done(_, n) => match spec_ws_table_ref(s, pos + k + n) {
                Parsed::Done(table, m) => match spec_columns(s, pos + k + n + m).optional() {
                    Parsed::Done(columns, j) => Parsed::Done(
                        InsertIntoClauseView(table, columns),
                        k + n + m + j,
                    ),
                    _ => Parsed::Miss,
                },
                _ => Parsed::Miss,
            },
            _ => Parsed::Miss,
        },
        _ => Parsed::Miss,
    }
}

/// Reads at `pos` what `spec_insert_into_clause` describes: the value and
/// the position behind it, or the kind of failure.
pub fn insert_into_clause_at(inp: &[char], pos: usize) -> (r: Step<InsertIntoClause>)
    requires
        pos <= inp@.len(),
    ensures
        agrees(r, inp@, pos as int, spec_insert_into_clause(inp@, pos as int)),
{
    reveal(spec_insert_into_clause);
    let p1 = match keyword_at(inp, pos, Keyword::Insert) {
        Ok((_, p)) => p,
        Err(_) => return Err(ParseError::Error),
    };
    let p2 = match keyword_at(inp, p1, Keyword::Into) {
        Ok((_, p)) => p,
        Err(_) => return Err(ParseError::Error),
    };
    let (table, p3) = match ws_table_ref_at(inp, p2) {
        Ok(done) => done,
        Err(_) => return Err(ParseError::Error),
    };
    match optional_step(inp, p3, columns_at(inp, p3), Ghost(spec_columns(inp@, p3 as int))) {
        Ok((columns, end)) => Ok((InsertIntoClause(table, columns), end)),
        Err(_) => Err(ParseError::Error),
    }
}

/// Parses `INSERT INTO`, the table and the columns at the start of `input`.
pub fn parse_insert_into_clause(input: &str) -> (r: Result<(&str, InsertIntoClause), ParseError>)
    ensures
        parsed(r, input@, spec_insert_into_clause(input@, 0)),
{
    let chars = chars_of(input);
    let step = insert_into_clause_at(chars.as_slice(), 0);
    finish(input, step, Ghost(spec_insert_into_clause(input@, 0)))
}

/// A row of values between parentheses.
#[verifier::opaque]
pub open spec fn spec_insert_row(s: Seq<char>, pos: int) -> Parsed<InsertValueView>
    decreases left(s, pos), 1390nat,
{
    match spec_symbol(s, pos, '(') {
        Parsed::Done(_, k) => match spec_insert_values(s, pos + k) {
            Parsed::Done(list, n) => match spec_symbol(s, pos + k + n, ')') {
                Parsed::Done(_, m) => Parsed::Done(
                    InsertValueView::ParenthesisExpression(list),
                    k + n + m,
                ),
                _ => Parsed::Miss,
            },
            f => f.cast(),
        },
        _ => Parsed::Miss,
    }
}

/// Reads at `pos` what `spec_insert_row` describes: the value and the
/// position behind it, or the kind of failure.
fn insert_row_at(inp: &[char], pos: usize) -> (r: Step<InsertValue>)
    requires
        pos <= inp@.len(),
    ensures
        agrees(r, inp@, pos as int, spec_insert_row(inp@, pos as int)),
    decreases left(inp@, pos as int), 1390nat,
{
    reveal(spec_insert_row);
    reveal(spec_insert_values);
    reveal(crate::insert::insert_value_view);
    reveal(crate::expression::condition::expression_view);
    let p1 = match symbol_at(inp, pos, '(') {
        Ok((_, p)) => p,
        Err(_) => return Err(ParseError::Error),
    };
    let (list, p2) = match insert_values_at(inp, p1) {
        Ok(done) => done,
        Err(e) => return Err(e),
    };
    match symbol_at(inp, p2, ')') {
        Ok((_, end)) => {
            let ghost views = list.deep_view();
            let value = InsertValue::ParenthesisExpression(List(list));
            proof {
                let got = value.deep_view()->ParenthesisExpression_0;
                assert(got.len() == views.len());
                assert forall|i: int| 0 <= i < views.len() implies got[i] == views[i] by {
                    assert(views[i] == value->ParenthesisExpression_0.0@[i].deep_view());
                    assert(got[i] == value->ParenthesisExpression_0.0@[i].deep_view());
                }
                assert(got =~= views);
            }
            Ok((value, end))
        },
        Err(_) => Err(ParseError::Error),
    }
}

/// A value to insert: a row of values between parentheses, `DEFAULT`, or a
/// link of a chain of conditions, tried in that order.
#[verifier::opaque]
pub open spec fn spec_insert_value(s: Seq<char>, pos: int) -> Parsed<InsertValueView>
    decreases left(s, pos), 1400nat,
{
    match spec_insert_row(s, pos) {
        Parsed::Done(v, n) => Parsed::Done(v, n),
        Parsed::Halt => Parsed::Halt,
        Parsed::Miss => match spec_keyword(s, pos, Keyword::Default) {
            Parsed::Done(_, n) => Parsed::Done(InsertValueView::Default, n),
            _ => match spec_expression(s, pos) {
                Parsed::Done(e, n) => Parsed::Done(InsertValueView::Expression(Box::new(e)), n),
                f => f.cast(),
            },
        },
    }
}

/// Reads at `pos` what `spec_insert_value` describes: the value and the
/// position behind it, or the kind of failure.
fn insert_value_at(inp: &[char], pos: usize) -> (r: Step<InsertValue>)
    requires
        pos <= inp@.len(),
    ensures
        agrees(r, inp@, pos as int, spec_insert_value(inp@, pos as int)),
    decreases left(inp@, pos as int), 1400nat,
{
    reveal(spec_insert_value);
    reveal(spec_insert_row);
    reveal(crate::insert::insert_value_view);
    reveal(crate::expression::condition::expression_view);
    match insert_row_at(inp, pos) {
        Err(ParseError::Error) => {},
        other => return other,
    }
    if let Ok((_, end)) = keyword_at(inp, pos, Keyword::Default) {
        return Ok((InsertValue::Default, end));
    }
    match expression_at(inp, pos) {
        Ok((e, end)) => Ok((InsertValue::Expression(Box::new(e)), end)),
        Err(e) => Err(e),
    }
}

/// A value to insert, with whitespace allowed on both sides.
#[verifier::opaque]
pub open spec fn spec_ws_insert_value(s: Seq<char>, pos: int) -> Parsed<InsertValueView>
    decreases left(s, pos), 1410nat,
{
    spaced(s, pos, spec_insert_value(s, pos + ws_count(s, pos)))
}

/// Reads at `pos` what `spec_ws_insert_value` describes: the value and the
/// position behind it, or the kind of failure.
pub fn ws_insert_value_at(inp: &[char], pos: usize) -> (r: Step<InsertValue>)
    requires
        pos <= inp@.len(),
    ensures
        agrees(r, inp@, pos as int, spec_ws_insert_value(inp@, pos as int)),
    decreases left(inp@, pos as int), 1410nat,
{
    reveal(spec_ws_insert_value);
    reveal(spec_insert_value);
    reveal(crate::insert::insert_value_view);
    reveal(crate::expression::condition::expression_view);
    let start = skip_ws(inp, pos);
    let step = insert_value_at(inp, start);
    spaced_step(inp, pos, step, Ghost(spec_insert_value(inp@, pos + ws_count(inp@, pos as int))))
}

/// The elements that follow in a list of which `acc` has been read: a
/// comma and an element, as often as both are there.
#[verifier::opaque]
pub open spec fn spec_insert_values_more(s: Seq<char>, pos: int, acc: Seq<InsertValueView>) -> Parsed<
    Seq<InsertValueView>,
>
    decreases left(s, pos), 1419nat,
{
    match spec_symbol(s, pos, ',') {
        Parsed::Done(_, k) => match spec_ws_insert_value(s, pos + k) {
            Parsed::Done(x, n) => spec_insert_values_more(s, pos + k + n, acc.push(x)).after(k + n),
            Parsed::Halt => Parsed::Halt,
            Parsed::Miss => Parsed::Done(acc, 0),
        },
        _ => Parsed::Done(acc, 0),
    }
}

/// One or more values to insert, separated by commas.
#[verifier::opaque]
pub open spec fn spec_insert_values(s: Seq<char>, pos: int) -> Parsed<Seq<InsertValueView>>
    decreases left(s, pos), 1420nat,
{
    match spec_ws_insert_value(s, pos) {
        Parsed::Done(x, n) => spec_insert_values_more(s, pos + n, seq![x]).after(n),
        f => f.cast(),
    }
}

/// Reads at `pos` what `spec_insert_values` describes: the value and the
/// position behind it, or the kind of failure.
pub fn insert_values_at(inp: &[char], pos: usize) -> (r: Step<Vec<InsertValue>>)
    requires
        pos <= inp@.len(),
    ensures
        agrees(r, inp@, pos as int, spec_insert_values(inp@, pos as int)),
    decreases left(inp@, pos as int), 1420nat,
{
    reveal(spec_insert_values);
    reveal(spec_ws_insert_value);
    reveal(spec_insert_values_more);
    reveal(spec_symbol);
    let (first, start) = match ws_insert_value_at(inp, pos) {
        Ok(done) => done,
        Err(e) => return Err(e),
    };
    let ghost whole = spec_insert_values_more(inp@, start as int, seq![first.deep_view()]);
    let ghost mut xv = first.deep_view();
    let mut acc: Vec<InsertValue> = Vec::new();
    acc.push(first);
    assert(acc.deep_view() =~= seq![xv]);
    let mut cur = start;
    reveal(spec_insert_values_more);
    reveal(spec_ws_insert_value);
    loop
        invariant
            pos <= start <= cur <= inp@.len(),
            spec_insert_values(inp@, pos as int) == whole.after((start - pos) as nat),
            whole == spec_insert_values_more(inp@, cur as int, acc.deep_view()).after(
                (cur - start) as nat,
            ),
        decreases inp@.len() - cur,
    {
        reveal(spec_insert_values_more);
        reveal(spec_ws_insert_value);
        let p1 = match symbol_at(inp, cur, ',') {
            Ok((_, p)) => p,
            Err(_) => return Ok((acc, cur)),
        };
        match ws_insert_value_at(inp, p1) {
            Ok((x, p2)) => {
                let ghost before = acc.deep_view();
                proof {
                    xv = x.deep_view();
                }
                acc.push(x);
                assert(acc.deep_view() =~= before.push(xv));
                cur = p2;
            },
            Err(ParseError::Failure) => return Err(ParseError::Failure),
            Err(ParseError::Error) => return Ok((acc, cur)),
        }
    }
}

/// `VALUES` and one or more values, separated by commas.
#[verifier::opaque]
pub open spec fn spec_values_clause(s: Seq<char>, pos: int) -> Parsed<ValuesClauseView>
    decreases left(s, pos), 1430nat,
{
    match spec_keyword(s, pos, Keyword::Values) {
        Parsed::Done(_, k) => match spec_insert_values(s, pos + k) {
            Parsed::Done(list, n) => Parsed::Done(ValuesClauseView(list), k + n),
            f => f.cast(),
        },
        _ => Parsed::Miss,
    }
}

/// Reads at `pos` what `spec_values_clause` describes: the value and the
/// position behind it, or the kind of failure.
pub fn values_clause_at(inp: &[char], pos: usize) -> (r: Step<ValuesClause>)
    requires
        pos <= inp@.len(),
    ensures
        agrees(r, inp@, pos as int, spec_values_clause(inp@, pos as int)),
    decreases left(inp@, pos as int), 1430nat,
{
    reveal(spec_values_clause);
    reveal(crate::insert::values_clause_view);
    reveal(crate::insert::insert_value_view);
    let p1 = match keyword_at(inp, pos, Keyword::Values) {
        Ok((_, p)) => p,
        Err(_) => return Err(ParseError::Error),
    };
    match insert_values_at(inp, p1) {
        Ok((list, end)) => {
            let ghost views = list.deep_view();
            let value = ValuesClause(List(list));
            proof {
                let got = value.deep_view().0;
                assert(got.len() == views.len());
                assert forall|i: int| 0 <= i < views.len() implies got[i] == views[i] by {
                    assert(views[i] == value.0.0@[i].deep_view());
                    assert(got[i] == value.0.0@[i].deep_view());
                }
                assert(got =~= views);
            }
            Ok((value, end))
        },
        Err(e) => Err(e),
    }
}

/// Parses a `VALUES` clause at the start of `input`.
pub fn parse_values_clause(input: &str) -> (r: Result<(&str, ValuesClause), ParseError>)
    ensures
        parsed(r, input@, spec_values_clause(input@, 0)),
{
    let chars = chars_of(input);
    let step = values_clause_at(chars.as_slice(), 0);
    finish(input, step, Ghost(spec_values_clause(input@, 0)))
}

/// An `INSERT` statement: `INSERT INTO` with its table and columns, and
/// `VALUES` with its rows.
#[verifier::opaque]
pub open spec fn spec_insert_into_statement(s: Seq<char>, pos: int) -> Parsed<InsertStatementView>
    decreases left(s, pos), 1440nat,
{
    match spec_insert_into_clause(s, pos) {
        Parsed::Done(into, k) => match spec_values_clause(s, pos + k) {
            Parsed::Done(values, n) => Parsed::Done(InsertStatementView(into, values), k + n),
            f => f.cast(),
        },
        _ => Parsed::Miss,
    }
}

/// Reads at `pos` what `spec_insert_into_statement` describes: the value and
/// the position behind it, or the kind of failure.
pub fn insert_into_statement_at(inp: &[char], pos: usize) -> (r: Step<InsertStatement>)
    requires
        pos <= inp@.len(),
    ensures
        agrees(r, inp@, pos as int, spec_insert_into_statement(inp@, pos as int)),
    decreases left(inp@, pos as int), 1440nat,
{
    reveal(spec_insert_into_statement);
    reveal(crate::insert::insert_statement_view);
    reveal(crate::insert::values_clause_view);
    let (into, p1) = match insert_into_clause_at(inp, pos) {
        Ok(done) => done,
        Err(_) => return Err(ParseError::Error),
    };
    match values_clause_at(inp, p1) {
        Ok((values, end)) => Ok((InsertStatement(into, values), end)),
        Err(e) => Err(e),
    }
}

/// Parses an `INSERT` statement at the start of `input`.
pub fn parse_insert_into_statement(input: &str) -> (r: Result<(&str, InsertStatement), ParseError>)
    ensures
        parsed(r, input@, spec_insert_into_statement(input@, 0)),
{
    let chars = chars_of(input);
    let step = insert_into_statement_at(chars.as_slice(), 0);
    finish(input, step, Ghost(spec_insert_into_statement(input@, 0)))
}

impl Clause for InsertIntoClause {
    open spec fn clause_keyword() -> Keyword {
        Keyword::Insert
    }

    fn leading() -> (k: Keyword) {
        Keyword::Insert
    }
}

impl Clause for ValuesClause {
    open spec fn clause_keyword() -> Keyword {
        Keyword::Values
    }

    fn leading() -> (k: Keyword) {
        Keyword::Values
    }
}

/// `INSERT`, right-aligned in a field of `pad` columns, ` INTO ` and the
/// table; the columns behind a space, between parentheses.
impl Format for InsertIntoClause {
    open spec fn rendered(&self, st: Layout) -> Layout {
        let head = self.0.rendered(
            st.padded(Keyword::Insert.spec_text()).space().append(Keyword::Into.spec_text()).space(),
        );
        match self.1 {
            Some(columns) => columns.rendered(head.space().append("("@)).append(")"@),
            None => head,
        }
    }

    fn format<'a>(&self, f: &'a mut Formatter) -> (r: &'a mut Formatter) {
        f.append_with_padding(Keyword::Insert.text()).space().append(Keyword::Into.text()).space();
        self.0.format(f);
        match &self.1 {
            Some(columns) => {
                f.space().append("(");
                columns.format(f).append(")")
            },
            None => f,
        }
    }
}

/// `DEFAULT`, an expression as it is, or a row between parentheses.
impl Format for InsertValue {
    open spec fn rendered(&self, st: Layout) -> Layout
        decreases self,
    {
        match self {
            InsertValue::Default => st.append(Keyword::Default.spec_text()),
            InsertValue::Expression(e) => e.rendered(st),
            InsertValue::ParenthesisExpression(e) => e.rendered(st.append("("@)).append(")"@),
        }
    }

    fn format<'a>(&self, f: &'a mut Formatter) -> (r: &'a mut Formatter)
        decreases self,
    {
        match self {
            InsertValue::Default => f.append(Keyword::Default.text()),
            InsertValue::Expression(e) => e.format(f),
            InsertValue::ParenthesisExpression(e) => {
                f.append_str("(");
                e.format(f).append_str(")")
            },
        }
    }
}

/// The state behind the first `n` of `items`, rendered in order, each
/// behind `", "` but the first.
pub open spec fn render_insert_values(items: Vec<InsertValue>, n: nat, st: Layout) -> Layout
    decreases items, n,
{
    if n == 0 || n > items@.len() {
        st
    } else if n == 1 {
        items@[0].rendered(st)
    } else {
        items@[n - 1].rendered(render_insert_values(items, (n - 1) as nat, st).append(", "@))
    }
}

/// Values to insert are written in one line, separated by `", "`.
impl Format for List<InsertValue> {
    open spec fn rendered(&self, st: Layout) -> Layout
        decreases self,
    {
        render_insert_values(self.0, self.0@.len(), st)
    }

    fn format<'a>(&self, f: &'a mut Formatter) -> (r: &'a mut Formatter)
        decreases self,
    {
        let mut i: usize = 0;
        while i < self.0.len()
            invariant
                i <= self.0.len(),
                f@ == render_insert_values(self.0, i as nat, old(f)@),
            decreases self.0.len() - i,
        {
            if i > 0 {
                f.append(", ");
            }
            self.0[i].format(f);
            i += 1;
        }
        f
    }
}

/// The state behind the first `n` rows: the first where the formatter
/// stands, each other on a new line at the column at which a clause body
/// starts.
pub open spec fn render_rows(items: Vec<InsertValue>, n: nat, st: Layout) -> Layout
    decreases items, n,
{
    if n == 0 || n > items@.len() {
        st
    } else if n == 1 {
        items@[0].rendered(st)
    } else {
        items@[n - 1].rendered(render_rows(items, (n - 1) as nat, st).new_line().right_margin())
    }
}

/// `VALUES`, right-aligned in a field of `pad` columns, a space and the
/// rows, one per line.
impl Format for ValuesClause {
    open spec fn rendered(&self, st: Layout) -> Layout {
        render_rows(self.0.0, self.0.0@.len(), st.padded(Keyword::Values.spec_text()).space())
    }

    fn format<'a>(&self, f: &'a mut Formatter) -> (r: &'a mut Formatter) {
        f.append_with_padding(Keyword::Values.text()).space();
        let ghost start = f@;
        let mut i: usize = 0;
        while i < self.0.0.len()
            invariant
                i <= self.0.0.len(),
                f@ == render_rows(self.0.0, i as nat, start),
            decreases self.0.0.len() - i,
        {
            if i > 0 {
                f.new_line().right_margin();
            }
            self.0.0[i].format(f);
            i += 1;
        }
        f
    }
}

/// The field width is set to the width of `INSERT`; the `VALUES` clause
/// stands on a new line.
impl Format for InsertStatement {
    open spec fn rendered(&self, st: Layout) -> Layout {
        self.1.rendered(self.0.rendered(st.set_pad(6)).new_line())
    }

    fn format<'a>(&self, f: &'a mut Formatter) -> (r: &'a mut Formatter) {
        f.set_pad(6);
        self.0.format(f).new_line();
        self.1.format(f)
    }
}

} // verus!
