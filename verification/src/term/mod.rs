//! Terms: everything that can stand where a scalar expression is expected.
pub mod bind_parameter;
pub mod case;
pub mod column;
pub mod value;

pub use self::bind_parameter::{parse_bind_parameter, BindParameter};
pub use self::case::{CaseExpression, CaseExpressionView};
use self::bind_parameter::{bind_parameter_at, spec_bind_parameter};
use self::case::{case_expression_at, spec_case_expression};
use self::column::{column_ref_at, spec_column_ref, ColumnRef, ColumnRefView};
use self::value::{spec_value, value_at, Value, ValueView};
use crate::formatter::{Format, Formatter, Layout};
pub use crate::function::{AggregateFunction, AggregateFunctionView};
use crate::function::{aggregate_function_at, spec_aggregate_function};
use crate::identifier::{spec_ws_name, ws_name_at, Name, NameView};
use crate::keyword::{keyword_at, spec_keyword, Keyword};
use crate::list::List;
use crate::select::statement::{
    select_statement_at, spec_select_statement, SelectStatement, SelectStatementView,
};
use crate::text::{
    agrees, chars_of, finish, left, parsed, skip_ws, spaced, spaced_step, spec_symbol, symbol_at,
    ws_count, ParseError, Parsed, Step,
};
use vstd::prelude::*;

verus! {

/// Everything that can stand where a scalar expression is expected.
#[derive(Debug, PartialEq)]
pub enum Term {
    Value(Value),
    Case(CaseExpression),
    BindParameter(BindParameter),
    ColumnRef(ColumnRef),
    Function(AggregateFunction),
    AliasedTerm(Box<Term>, Name),
    Subquery(Box<SelectStatement>),
}

/// The view of `Term`: the same tree with sequences of characters for its
/// strings and sequences of views for its lists.
#[verifier::ext_equal]
pub enum TermView {
    Value(ValueView),
    Case(CaseExpressionView),
    BindParameter(BindParameter),
    ColumnRef(ColumnRefView),
    Function(AggregateFunctionView),
    AliasedTerm(Box<TermView>, NameView),
    Subquery(Box<SelectStatementView>),
}

/// The view of `x`.
#[verifier::opaque]
pub open spec fn term_view(x: Term) -> TermView
    decreases x,
{
    match x {
        Term::Value(x0) => TermView::Value(x0.deep_view()),
        Term::Case(x0) => TermView::Case(crate::term::case::case_expression_view(x0)),
        Term::BindParameter(x0) => TermView::BindParameter(x0),
        Term::ColumnRef(x0) => TermView::ColumnRef(x0.deep_view()),
        Term::Function(x0) => TermView::Function(
            crate::function::aggregate_function_view(x0),
        ),
        Term::AliasedTerm(x0, x1) => TermView::AliasedTerm(
            Box::new(crate::term::term_view((*x0))),
            x1.deep_view(),
        ),
        Term::Subquery(x0) => TermView::Subquery(
            Box::new(crate::select::statement::select_statement_view((*x0))),
        ),
    }
}

impl DeepView for Term {
    type V = TermView;

    open spec fn deep_view(&self) -> TermView {
        term_view(*self)
    }
}

/// A `SELECT` statement between parentheses.
#[verifier::opaque]
pub open spec fn spec_subquery_term(s: Seq<char>, pos: int) -> Parsed<TermView>
    decreases left(s, pos), 1110nat,
{
    match spec_symbol(s, pos, '(') {
        Parsed::Done(_, k) => match spec_select_statement(s, pos + k) {
            Parsed::Done(q, n) => match spec_symbol(s, pos + k + n, ')') {
                Parsed::Done(_, m) => Parsed::Done(TermView::Subquery(Box::new(q)), k + n + m),
                _ => Parsed::Miss,
            },
            f => f.cast(),
        },
        _ => Parsed::Miss,
    }
}

/// Reads at `pos` what `spec_subquery_term` describes: the value and the
/// position behind it, or the kind of failure.
fn subquery_term_at(inp: &[char], pos: usize) -> (r: Step<Term>)
    requires
        pos <= inp@.len(),
    ensures
        agrees(r, inp@, pos as int, spec_subquery_term(inp@, pos as int)),
    decreases left(inp@, pos as int), 1110nat,
{
    reveal(spec_subquery_term);
    reveal(spec_select_statement);
    reveal(crate::term::term_view);
    reveal(crate::term::case::case_expression_view);
    reveal(crate::function::aggregate_function_view);
    reveal(crate::select::statement::select_statement_view);
    let p1 = match symbol_at(inp, pos, '(') {
        Ok((_, p)) => p,
        Err(_) => return Err(ParseError::Error),
    };
    let (q, p2) = match select_statement_at(inp, p1) {
        Ok(done) => done,
        Err(e) => return Err(e),
    };
    match symbol_at(inp, p2, ')') {
        Ok((_, end)) => Ok((Term::Subquery(Box::new(q)), end)),
        Err(_) => Err(ParseError::Error),
    }
}

/// A term without an alias: a literal value, a `CASE` expression, a
/// function call, a column reference, a bound parameter or a `SELECT`
/// statement between parentheses, tried in that order.
#[verifier::opaque]
pub open spec fn spec_term(s: Seq<char>, pos: int) -> Parsed<TermView>
    decreases left(s, pos), 1120nat,
{
    match spec_value(s, pos) {
        Parsed::Done(v, n) => Parsed::Done(TermView::Value(v), n),
        Parsed::Halt => Parsed::Halt,
        Parsed::Miss => match spec_case_expression(s, pos) {
            Parsed::Done(c, n) => Parsed::Done(TermView::Case(c), n),
            Parsed::Halt => Parsed::Halt,
            Parsed::Miss => match spec_aggregate_function(s, pos) {
                Parsed::Done(f, n) => Parsed::Done(TermView::Function(f), n),
                Parsed::Halt => Parsed::Halt,
                Parsed::Miss => match spec_column_ref(s, pos) {
                    Parsed::Done(c, n) => Parsed::Done(TermView::ColumnRef(c), n),
                    _ => match spec_bind_parameter(s, pos) {
                        Parsed::Done(b, n) => Parsed::Done(TermView::BindParameter(b), n),
                        _ => spec_subquery_term(s, pos),
                    },
                },
            },
        },
    }
}

/// Reads at `pos` what `spec_term` describes: the value and the position
/// behind it, or the kind of failure.
pub fn term_at(inp: &[char], pos: usize) -> (r: Step<Term>)
    requires
        pos <= inp@.len(),
    ensures
        agrees(r, inp@, pos as int, spec_term(inp@, pos as int)),
    decreases left(inp@, pos as int), 1120nat,
{
    reveal(spec_term);
    reveal(spec_case_expression);
    reveal(spec_aggregate_function);
    reveal(spec_subquery_term);
    reveal(crate::term::term_view);
    reveal(crate::term::case::case_expression_view);
    reveal(crate::function::aggregate_function_view);
    reveal(crate::select::statement::select_statement_view);
    match value_at(inp, pos) {
        Ok((v, end)) => return Ok((Term::Value(v), end)),
        Err(ParseError::Failure) => return Err(ParseError::Failure),
        Err(ParseError::Error) => {},
    }
    match case_expression_at(inp, pos) {
        Ok((c, end)) => return Ok((Term::Case(c), end)),
        Err(ParseError::Failure) => return Err(ParseError::Failure),
        Err(ParseError::Error) => {},
    }
    match aggregate_function_at(inp, pos) {
        Ok((f, end)) => return Ok((Term::Function(f), end)),
        Err(ParseError::Failure) => return Err(ParseError::Failure),
        Err(ParseError::Error) => {},
    }
    if let Ok((c, end)) = column_ref_at(inp, pos) {
        return Ok((Term::ColumnRef(c), end));
    }
    if let Ok((b, end)) = bind_parameter_at(inp, pos) {
        return Ok((Term::BindParameter(b), end));
    }
    subquery_term_at(inp, pos)
}

/// A term without an alias, with whitespace allowed on both sides.
#[verifier::opaque]
pub open spec fn spec_ws_term(s: Seq<char>, pos: int) -> Parsed<TermView>
    decreases left(s, pos), 1130nat,
{
    spaced(s, pos, spec_term(s, pos + ws_count(s, pos)))
}

/// Reads at `pos` what `spec_ws_term` describes: the value and the position
/// behind it, or the kind of failure.
pub fn ws_term_at(inp: &[char], pos: usize) -> (r: Step<Term>)
    requires
        pos <= inp@.len(),
    ensures
        agrees(r, inp@, pos as int, spec_ws_term(inp@, pos as int)),
    decreases left(inp@, pos as int), 1130nat,
{
    reveal(spec_ws_term);
    reveal(spec_term);
    reveal(crate::term::term_view);
    reveal(crate::term::case::case_expression_view);
    reveal(crate::function::aggregate_function_view);
    reveal(crate::select::statement::select_statement_view);
    let start = skip_ws(inp, pos);
    let step = term_at(inp, start);
    spaced_step(inp, pos, step, Ghost(spec_term(inp@, pos + ws_count(inp@, pos as int))))
}

/// A term: a term without an alias, `AS` and a name, which give an
/// aliased term; else the term without an alias.
#[verifier::opaque]
pub open spec fn spec_parse_term(s: Seq<char>, pos: int) -> Parsed<TermView>
    decreases left(s, pos), 1140nat,
{
    let plain = spec_term(s, pos);
    match spec_ws_term(s, pos) {
        Parsed::Done(t, n) => match spec_keyword(s, pos + n, Keyword::As) {
            Parsed::Done(_, k) => match spec_ws_name(s, pos + n + k) {
                Parsed::Done(alias, m) => Parsed::Done(
                    TermView::AliasedTerm(Box::new(t), alias),
                    n + k + m,
                ),
                _ => plain,
            },
            _ => plain,
        },
        Parsed::Halt => Parsed::Halt,
        Parsed::Miss => plain,
    }
}

/// Reads at `pos` what `spec_parse_term` describes: the value and the
/// position behind it, or the kind of failure.
pub fn parse_term_at(inp: &[char], pos: usize) -> (r: Step<Term>)
    requires
        pos <= inp@.len(),
    ensures
        agrees(r, inp@, pos as int, spec_parse_term(inp@, pos as int)),
    decreases left(inp@, pos as int), 1140nat,
{
    reveal(spec_parse_term);
    reveal(spec_term);
    reveal(spec_ws_term);
    reveal(crate::term::term_view);
    reveal(crate::term::case::case_expression_view);
    reveal(crate::function::aggregate_function_view);
    reveal(crate::select::statement::select_statement_view);
    let start = skip_ws(inp, pos);
    match term_at(inp, start) {
        Ok((t, p1)) => {
            let p2 = skip_ws(inp, p1);
            if let Ok((_, p3)) = keyword_at(inp, p2, Keyword::As) {
                if let Ok((alias, end)) = ws_name_at(inp, p3) {
                    return Ok((Term::AliasedTerm(Box::new(t), alias), end));
                }
            }
            if start == pos {
                Ok((t, p1))
            } else {
                term_at(inp, pos)
            }
        },
        Err(ParseError::Failure) => Err(ParseError::Failure),
        Err(ParseError::Error) => {
            if start == pos {
                Err(ParseError::Error)
            } else {
                term_at(inp, pos)
            }
        },
    }
}

/// Parses a term at the start of `input`.
pub fn parse_term(input: &str) -> (r: Result<(&str, Term), ParseError>)
    ensures
        parsed(r, input@, spec_parse_term(input@, 0)),
{
    let chars = chars_of(input);
    let step = parse_term_at(chars.as_slice(), 0);
    finish(input, step, Ghost(spec_parse_term(input@, 0)))
}

/// A term, with whitespace allowed on both sides.
#[verifier::opaque]
pub open spec fn spec_ws_parse_term(s: Seq<char>, pos: int) -> Parsed<TermView>
    decreases left(s, pos), 1150nat,
{
    spaced(s, pos, spec_parse_term(s, pos + ws_count(s, pos)))
}

/// Reads at `pos` what `spec_ws_parse_term` describes: the value and the
/// position behind it, or the kind of failure.
pub fn ws_parse_term_at(inp: &[char], pos: usize) -> (r: Step<Term>)
    requires
        pos <= inp@.len(),
    ensures
        agrees(r, inp@, pos as int, spec_ws_parse_term(inp@, pos as int)),
    decreases left(inp@, pos as int), 1150nat,
{
    reveal(spec_ws_parse_term);
    reveal(spec_parse_term);
    reveal(crate::term::term_view);
    reveal(crate::term::case::case_expression_view);
    reveal(crate::function::aggregate_function_view);
    reveal(crate::select::statement::select_statement_view);
    let start = skip_ws(inp, pos);
    let step = parse_term_at(inp, start);
    spaced_step(inp, pos, step, Ghost(spec_parse_term(inp@, pos + ws_count(inp@, pos as int))))
}

/// The elements that follow in a list of which `acc` has been read: a
/// comma and an element, as often as both are there.
#[verifier::opaque]
pub open spec fn spec_terms_more(s: Seq<char>, pos: int, acc: Seq<TermView>) -> Parsed<
    Seq<TermView>,
>
    decreases left(s, pos), 1159nat,
{
    match spec_symbol(s, pos, ',') {
        Parsed::Done(_, k) => match spec_ws_parse_term(s, pos + k) {
            Parsed::Done(x, n) => spec_terms_more(s, pos + k + n, acc.push(x)).after(k + n),
            Parsed::Halt => Parsed::Halt,
            Parsed::Miss => Parsed::Done(acc, 0),
        },
        _ => Parsed::Done(acc, 0),
    }
}

/// Terms, separated by commas.
#[verifier::opaque]
pub open spec fn spec_terms(s: Seq<char>, pos: int) -> Parsed<Seq<TermView>>
    decreases left(s, pos), 1160nat,
{
    match spec_ws_parse_term(s, pos) {
        Parsed::Done(x, n) => spec_terms_more(s, pos + n, seq![x]).after(n),
        Parsed::Halt => Parsed::Halt,
        Parsed::Miss => Parsed::Done(Seq::empty(), 0),
    }
}

/// Reads at `pos` what `spec_terms` describes: the value and the position
/// behind it, or the kind of failure.
pub fn terms_at(inp: &[char], pos: usize) -> (r: Step<Vec<Term>>)
    requires
        pos <= inp@.len(),
    ensures
        agrees(r, inp@, pos as int, spec_terms(inp@, pos as int)),
    decreases left(inp@, pos as int), 1160nat,
{
    reveal(spec_terms);
    reveal(spec_ws_parse_term);
    reveal(spec_terms_more);
    reveal(spec_symbol);
    let mut acc: Vec<Term> = Vec::new();
    let (first, start) = match ws_parse_term_at(inp, pos) {
        Ok(done) => done,
        Err(ParseError::Failure) => return Err(ParseError::Failure),
        Err(ParseError::Error) => {
            assert(acc.deep_view() =~= Seq::empty());
            return Ok((acc, pos));
        },
    };
    let ghost whole = spec_terms_more(inp@, start as int, seq![first.deep_view()]);
    let ghost mut xv = first.deep_view();
    acc.push(first);
    assert(acc.deep_view() =~= seq![xv]);
    let mut cur = start;
    reveal(spec_terms_more);
    reveal(spec_ws_parse_term);
    loop
        invariant
            pos <= start <= cur <= inp@.len(),
            spec_terms(inp@, pos as int) == whole.after((start - pos) as nat),
            whole == spec_terms_more(inp@, cur as int, acc.deep_view()).after((cur - start) as nat),
        decreases inp@.len() - cur,
    {
        reveal(spec_terms_more);
        reveal(spec_ws_parse_term);
        let p1 = match symbol_at(inp, cur, ',') {
            Ok((_, p)) => p,
            Err(_) => return Ok((acc, cur)),
        };
        match ws_parse_term_at(inp, p1) {
            Ok((x, p2)) => {
                let ghost before = acc.deep_view();
                proof {
                    xv = x.deep_view();
                }
                acc.push(x);
                assert(acc.deep_view() =~= before.push(xv));
                cur = p2;
            },
            Err(ParseError::Failure) => return Err(ParseError::Failure),
            Err(ParseError::Error) => return Ok((acc, cur)),
        }
    }
}

/// A value, `CASE` expression, bound parameter, column reference or
/// function call is written as it is. An aliased term is followed by
/// ` AS ` and the alias. A subquery starts a new line one level deeper,
/// stands between parentheses and is shifted two columns to the right.
impl Format for Term {
    open spec fn rendered(&self, st: Layout) -> Layout
        decreases self,
    {
        match self {
            Term::ColumnRef(column) => column.rendered(st),
            Term::Value(value) => value.rendered(st),
            Term::Case(case) => case.rendered(st),
            Term::BindParameter(parameter) => parameter.rendered(st),
            Term::Function(function) => function.rendered(st),
            Term::AliasedTerm(term, alias) => alias.rendered(
                term.rendered(st).space().append(Keyword::As.spec_text()).space(),
            ),
            Term::Subquery(query) => query.rendered(
                st.new_line().new_context().right_margin().append("("@).set_offset(2),
            ).append(")"@).set_offset(0).pop_context(),
        }
    }

    fn format<'a>(&self, f: &'a mut Formatter) -> (r: &'a mut Formatter)
        decreases self,
    {
        match self {
            Term::ColumnRef(column) => column.format(f),
            Term::Value(value) => value.format(f),
            Term::Case(case) => case.format(f),
            Term::BindParameter(parameter) => parameter.format(f),
            Term::Function(function) => function.format(f),
            Term::AliasedTerm(term, alias) => {
                term.format(f).space().append(Keyword::As.text()).space();
                alias.format(f)
            },
            Term::Subquery(query) => {
                f.new_line().new_context().right_margin().append("(").set_offset(2);
                query.format(f).append_str(")").set_offset(0).pop_context()
            },
        }
    }
}

/// The state behind the first `n` of `items`, rendered in order, each
/// behind `", "` but the first.
pub open spec fn render_terms(items: Vec<Term>, n: nat, st: Layout) -> Layout
    decreases items, n,
{
    if n == 0 || n > items@.len() {
        st
    } else if n == 1 {
        items@[0].rendered(st)
    } else {
        items@[n - 1].rendered(render_terms(items, (n - 1) as nat, st).append(", "@))
    }
}

/// Terms are written in one line, separated by `", "`.
impl Format for List<Term> {
    open spec fn rendered(&self, st: Layout) -> Layout
        decreases self,
    {
        render_terms(self.0, self.0@.len(), st)
    }

    fn format<'a>(&self, f: &'a mut Formatter) -> (r: &'a mut Formatter)
        decreases self,
    {
        let mut i: usize = 0;
        while i < self.0.len()
            invariant
                i <= self.0.len(),
                f@ == render_terms(self.0, i as nat, old(f)@),
            decreases self.0.len() - i,
        {
            if i > 0 {
                f.append(", ");
            }
            self.0[i].format(f);
            i += 1;
        }
        f
    }
}

} // verus!
