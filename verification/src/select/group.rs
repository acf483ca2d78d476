//! The `GROUP BY` clause and its `HAVING`.
use crate::clause::Clause;
use crate::expression::condition::{
    spec_ws_expression, ws_expression_at, Expression, ExpressionView,
};
use crate::formatter::{Format, Formatter, Layout};
use crate::keyword::{keyword_at, spec_keyword, Keyword};
use crate::list::List;
use crate::term::column::{column_ref_at, spec_column_ref, ColumnRef, ColumnRefView};
use crate::text::{
    agrees, chars_of, finish, left, optional_step, parsed, skip_ws, spaced, spaced_step,
    spec_symbol, symbol_at, ws_count, ParseError, Parsed, Step,
};
use vstd::prelude::*;

verus! {

/// `GROUP BY`, its columns and an optional `HAVING`.
#[derive(Debug, PartialEq)]
pub struct GroupByClause(pub List<GroupingElement>, pub Option<HavingClause>);

/// The view of `GroupByClause`: the same tree with sequences of characters
/// for its strings and sequences of views for its lists.
#[verifier::ext_equal]
pub struct GroupByClauseView(pub Seq<GroupingElementView>, pub Option<HavingClauseView>);

/// The view of `x`.
#[verifier::opaque]
pub open spec fn group_by_clause_view(x: GroupByClause) -> GroupByClauseView
    decreases x,
{
    GroupByClauseView(
        Seq::new(
            x.0.0@.len(),
            |i: int| if 0 <= i < x.0.0@.len() {
                x.0.0@[i].deep_view()
            } else {
                arbitrary()
            },
        ),
        match x.1 {
            Some(y0) => Some(crate::select::group::having_clause_view(y0)),
            None => None,
        },
    )
}

impl DeepView for GroupByClause {
    type V = GroupByClauseView;

    open spec fn deep_view(&self) -> GroupByClauseView {
        group_by_clause_view(*self)
    }
}

/// A column to group by.
#[derive(Debug, PartialEq, Clone)]
pub enum GroupingElement {
    ColumnRef(ColumnRef),
}

/// The view of `GroupingElement`: the same tree with sequences of characters
/// for its strings and sequences of views for its lists.
#[verifier::ext_equal]
pub enum GroupingElementView {
    ColumnRef(ColumnRefView),
}

impl DeepView for GroupingElement {
    type V = GroupingElementView;

    open spec fn deep_view(&self) -> GroupingElementView {
        match *self {
            GroupingElement::ColumnRef(x0) => GroupingElementView::ColumnRef(x0.deep_view()),
        }
    }
}

/// `HAVING` and its condition.
#[derive(Debug, PartialEq)]
pub struct HavingClause(pub Expression);

/// The view of `HavingClause`: the same tree with sequences of characters
/// for its strings and sequences of views for its lists.
#[verifier::ext_equal]
pub struct HavingClauseView(pub ExpressionView);

/// The view of `x`.
#[verifier::opaque]
pub open spec fn having_clause_view(x: HavingClause) -> HavingClauseView
    decreases x,
{
    HavingClauseView(crate::expression::condition::expression_view(x.0))
}

impl DeepView for HavingClause {
    type V = HavingClauseView;

    open spec fn deep_view(&self) -> HavingClauseView {
        having_clause_view(*self)
    }
}

/// A column to group by.
#[verifier::opaque]
pub open spec fn spec_grouping_element(s: Seq<char>, pos: int) -> Parsed<GroupingElementView> {
    match spec_column_ref(s, pos) {
        Parsed::Done(c, n) => Parsed::Done(GroupingElementView::ColumnRef(c), n),
        _ => Parsed::Miss,
    }
}

/// Reads at `pos` what `spec_grouping_element` describes: the value and the
/// position behind it, or the kind of failure.
pub fn grouping_element_at(inp: &[char], pos: usize) -> (r: Step<GroupingElement>)
    requires
        pos <= inp@.len(),
    ensures
        agrees(r, inp@, pos as int, spec_grouping_element(inp@, pos as int)),
{
    reveal(spec_grouping_element);
    match column_ref_at(inp, pos) {
        Ok((c, end)) => Ok((GroupingElement::ColumnRef(c), end)),
        Err(_) => Err(ParseError::Error),
    }
}

/// Parses a column to group by at the start of `input`.
pub fn parse_grouping_element(input: &str) -> (r: Result<(&str, GroupingElement), ParseError>)
    ensures
        parsed(r, input@, spec_grouping_element(input@, 0)),
{
    let chars = chars_of(input);
    let step = grouping_element_at(chars.as_slice(), 0);
    finish(input, step, Ghost(spec_grouping_element(input@, 0)))
}

/// A column to group by, with whitespace allowed on both sides.
#[verifier::opaque]
pub open spec fn spec_ws_grouping_element(s: Seq<char>, pos: int) -> Parsed<GroupingElementView>
    decreases left(s, pos), 10nat,
{
    spaced(s, pos, spec_grouping_element(s, pos + ws_count(s, pos)))
}

/// Reads at `pos` what `spec_ws_grouping_element` describes: the value and
/// the position behind it, or the kind of failure.
pub fn ws_grouping_element_at(inp: &[char], pos: usize) -> (r: Step<GroupingElement>)
    requires
        pos <= inp@.len(),
    ensures
        agrees(r, inp@, pos as int, spec_ws_grouping_element(inp@, pos as int)),
    decreases left(inp@, pos as int), 10nat,
{
    reveal(spec_ws_grouping_element);
    let start = skip_ws(inp, pos);
    let step = grouping_element_at(inp, start);
    spaced_step(
        inp,
        pos,
        step,
        Ghost(spec_grouping_element(inp@, pos + ws_count(inp@, pos as int))),
    )
}

/// The elements that follow in a list of which `acc` has been read: a
/// comma and an element, as often as both are there.
#[verifier::opaque]
pub open spec fn spec_grouping_elements_more(s: Seq<char>, pos: int, acc: Seq<GroupingElementView>) -> Parsed<
    Seq<GroupingElementView>,
>
    decreases left(s, pos), 19nat,
{
    match spec_symbol(s, pos, ',') {
        Parsed::Done(_, k) => match spec_ws_grouping_element(s, pos + k) {
            Parsed::Done(x, n) => spec_grouping_elements_more(s, pos + k + n, acc.push(x)).after(
                k + n,
            ),
            Parsed::Halt => Parsed::Halt,
            Parsed::Miss => Parsed::Done(acc, 0),
        },
        _ => Parsed::Done(acc, 0),
    }
}

/// One or more columns to group by, separated by commas.
#[verifier::opaque]
pub open spec fn spec_grouping_elements(s: Seq<char>, pos: int) -> Parsed<Seq<GroupingElementView>>
    decreases left(s, pos), 20nat,
{
    match spec_ws_grouping_element(s, pos) {
        Parsed::Done(x, n) => spec_grouping_elements_more(s, pos + n, seq![x]).after(n),
        f => f.cast(),
    }
}

/// Reads at `pos` what `spec_grouping_elements` describes: the value and the
/// position behind it, or the kind of failure.
pub fn grouping_elements_at(inp: &[char], pos: usize) -> (r: Step<Vec<GroupingElement>>)
    requires
        pos <= inp@.len(),
    ensures
        agrees(r, inp@, pos as int, spec_grouping_elements(inp@, pos as int)),
    decreases left(inp@, pos as int), 20nat,
{
    reveal(spec_grouping_elements);
    reveal(spec_ws_grouping_element);
    reveal(spec_grouping_elements_more);
    reveal(spec_symbol);
    let (first, start) = match ws_grouping_element_at(inp, pos) {
        Ok(done) => done,
        Err(e) => return Err(e),
    };
    let ghost whole = spec_grouping_elements_more(inp@, start as int, seq![first.deep_view()]);
    let ghost mut xv = first.deep_view();
    let mut acc: Vec<GroupingElement> = Vec::new();
    acc.push(first);
    assert(acc.deep_view() =~= seq![xv]);
    let mut cur = start;
    reveal(spec_grouping_elements_more);
    reveal(spec_ws_grouping_element);
    loop
        invariant
            pos <= start <= cur <= inp@.len(),
            spec_grouping_elements(inp@, pos as int) == whole.after((start - pos) as nat),
            whole == spec_grouping_elements_more(inp@, cur as int, acc.deep_view()).after(
                (cur - start) as nat,
            ),
        decreases inp@.len() - cur,
    {
        reveal(spec_grouping_elements_more);
        reveal(spec_ws_grouping_element);
        let p1 = match symbol_at(inp, cur, ',') {
            Ok((_, p)) => p,
            Err(_) => return Ok((acc, cur)),
        };
        match ws_grouping_element_at(inp, p1) {
            Ok((x, p2)) => {
                let ghost before = acc.deep_view();
                proof {
                    xv = x.deep_view();
                }
                acc.push(x);
                assert(acc.deep_view() =~= before.push(xv));
                cur = p2;
            },
            Err(ParseError::Failure) => return Err(ParseError::Failure),
            Err(ParseError::Error) => return Ok((acc, cur)),
        }
    }
}

/// `HAVING` and a link of a chain of conditions.
#[verifier::opaque]
pub open spec fn spec_having_clause(s: Seq<char>, pos: int) -> Parsed<HavingClauseView>
    decreases left(s, pos), 1440nat,
{
    match spec_keyword(s, pos, Keyword::Having) {
        Parsed::Done(_, k) => match spec_ws_expression(s, pos + k) {
            Parsed::Done(e, n) => Parsed::Done(HavingClauseView(e), k + n),
            f => f.cast(),
        },
        _ => Parsed::Miss,
    }
}

/// Reads at `pos` what `spec_having_clause` describes: the value and the
/// position behind it, or the kind of failure.
pub fn having_clause_at(inp: &[char], pos: usize) -> (r: Step<HavingClause>)
    requires
        pos <= inp@.len(),
    ensures
        agrees(r, inp@, pos as int, spec_having_clause(inp@, pos as int)),
    decreases left(inp@, pos as int), 1440nat,
{
    reveal(spec_having_clause);
    reveal(spec_ws_expression);
    reveal(crate::select::group::having_clause_view);
    reveal(crate::expression::condition::expression_view);
    let p1 = match keyword_at(inp, pos, Keyword::Having) {
        Ok((_, p)) => p,
        Err(_) => return Err(ParseError::Error),
    };
    proof {
        Keyword::Having.text_width();
    }
    match ws_expression_at(inp, p1) {
        Ok((e, end)) => Ok((HavingClause(e), end)),
        Err(e) => Err(e),
    }
}

/// Parses a `HAVING` clause at the start of `input`.
pub fn parse_having_clause(input: &str) -> (r: Result<(&str, HavingClause), ParseError>)
    ensures
        parsed(r, input@, spec_having_clause(input@, 0)),
{
    let chars = chars_of(input);
    let step = having_clause_at(chars.as_slice(), 0);
    finish(input, step, Ghost(spec_having_clause(input@, 0)))
}

/// `GROUP`, `BY`, one or more columns and an optional `HAVING` clause.
#[verifier::opaque]
pub open spec fn spec_group_by_clause(s: Seq<char>, pos: int) -> Parsed<GroupByClauseView>
    decreases left(s, pos), 1460nat,
{
    match spec_keyword(s, pos, Keyword::Group) {
        Parsed::Done(_, k) => match spec_keyword(s, pos + k, Keyword::By) {
            Parsed::Done(_, n) => match spec_grouping_elements(s, pos + k + n) {
                Parsed::Done(list, m) => match spec_having_clause(s, pos + k + n + m).optional() {
                    Parsed::Done(having, j) => Parsed::Done(
                        GroupByClauseView(list, having),
                        k + n + m + j,
                    ),
                    f => f.cast(),
                },
                _ => Parsed::Miss,
            },
            _ => Parsed::Miss,
        },
        _ => Parsed::Miss,
    }
}

/// Reads at `pos` what `spec_group_by_clause` describes: the value and the
/// position behind it, or the kind of failure.
pub fn group_by_clause_at(inp: &[char], pos: usize) -> (r: Step<GroupByClause>)
    requires
        pos <= inp@.len(),
    ensures
        agrees(r, inp@, pos as int, spec_group_by_clause(inp@, pos as int)),
    decreases left(inp@, pos as int), 1460nat,
{
    reveal(spec_group_by_clause);
    reveal(spec_having_clause);
    reveal(crate::select::group::group_by_clause_view);
    reveal(crate::select::group::having_clause_view);
    let p1 = match keyword_at(inp, pos, Keyword::Group) {
        Ok((_, p)) => p,
        Err(_) => return Err(ParseError::Error),
    };
    proof {
        Keyword::Group.text_width();
    }
    let p2 = match keyword_at(inp, p1, Keyword::By) {
        Ok((_, p)) => p,
        Err(_) => return Err(ParseError::Error),
    };
    let (list, p3) = match grouping_elements_at(inp, p2) {
        Ok(done) => done,
        Err(_) => return Err(ParseError::Error),
    };
    match optional_step(
        inp,
        p3,
        having_clause_at(inp, p3),
        Ghost(spec_having_clause(inp@, p3 as int)),
    ) {
        Ok((having, end)) => {
            let ghost views = list.deep_view();
            let ghost having_view = having.deep_view();
            let value = GroupByClause(List(list), having);
            proof {
                let got = value.deep_view().0;
                assert(got.len() == views.len());
                assert forall|i: int| 0 <= i < views.len() implies got[i] == views[i] by {
                    assert(views[i] == value.0.0@[i].deep_view());
                    assert(got[i] == value.0.0@[i].deep_view());
                }
                assert(got =~= views);
            }
            assert(value.deep_view() =~= GroupByClauseView(views, having_view));
            Ok((value, end))
        },
        Err(e) => Err(e),
    }
}

/// Parses a `GROUP BY` clause at the start of `input`.
pub fn parse_group_by_clause(input: &str) -> (r: Result<(&str, GroupByClause), ParseError>)
    ensures
        parsed(r, input@, spec_group_by_clause(input@, 0)),
{
    let chars = chars_of(input);
    let step = group_by_clause_at(chars.as_slice(), 0);
    finish(input, step, Ghost(spec_group_by_clause(input@, 0)))
}

impl Clause for GroupByClause {
    open spec fn clause_keyword() -> Keyword {
        Keyword::Group
    }

    fn leading() -> (k: Keyword) {
        Keyword::Group
    }
}

impl Clause for HavingClause {
    open spec fn clause_keyword() -> Keyword {
        Keyword::Having
    }

    fn leading() -> (k: Keyword) {
        Keyword::Having
    }
}

impl Format for GroupingElement {
    open spec fn rendered(&self, st: Layout) -> Layout {
        match self {
            GroupingElement::ColumnRef(c) => c.rendered(st),
        }
    }

    fn format<'a>(&self, f: &'a mut Formatter) -> (r: &'a mut Formatter) {
        match self {
            GroupingElement::ColumnRef(c) => c.format(f),
        }
    }
}

/// The state behind the first `n` of `items`, rendered in order, each
/// behind `", "` but the first.
pub open spec fn render_grouping_elements(items: Vec<GroupingElement>, n: nat, st: Layout) -> Layout
    decreases n,
{
    if n == 0 || n > items@.len() {
        st
    } else if n == 1 {
        items@[0].rendered(st)
    } else {
        items@[n - 1].rendered(render_grouping_elements(items, (n - 1) as nat, st).append(", "@))
    }
}

/// Columns to group by are written in one line, separated by `", "`.
impl Format for List<GroupingElement> {
    open spec fn rendered(&self, st: Layout) -> Layout
    {
        render_grouping_elements(self.0, self.0@.len(), st)
    }

    fn format<'a>(&self, f: &'a mut Formatter) -> (r: &'a mut Formatter)
    {
        let mut i: usize = 0;
        while i < self.0.len()
            invariant
                i <= self.0.len(),
                f@ == render_grouping_elements(self.0, i as nat, old(f)@),
            decreases self.0.len() - i,
        {
            if i > 0 {
                f.append(", ");
            }
            self.0[i].format(f);
            i += 1;
        }
        f
    }
}

/// `HAVING`, right-aligned in the keyword field, a space and the
/// condition.
impl Format for HavingClause {
    open spec fn rendered(&self, st: Layout) -> Layout
        decreases self,
    {
        self.0.rendered(st.left_side(Keyword::Having.spec_text()).space())
    }

    fn format<'a>(&self, f: &'a mut Formatter) -> (r: &'a mut Formatter)
        decreases self,
    {
        f.left_side(Keyword::Having.text()).ws();
        self.0.format(f)
    }
}

/// `GROUP`, right-aligned in the keyword field, ` BY ` and the columns;
/// the `HAVING` clause on a new line.
impl Format for GroupByClause {
    open spec fn rendered(&self, st: Layout) -> Layout
        decreases self,
    {
        let columns = self.0.rendered(
            st.left_side(Keyword::Group.spec_text()).space().append(Keyword::By.spec_text()).space(),
        );
        match self.1 {
            Some(having) => having.rendered(columns.new_line()),
            None => columns,
        }
    }

    fn format<'a>(&self, f: &'a mut Formatter) -> (r: &'a mut Formatter)
        decreases self,
    {
        f.left_side(Keyword::Group.text()).ws().append(Keyword::By.text()).ws();
        self.0.format(f);
        match &self.1 {
            Some(having) => {
                f.new_line();
                having.format(f)
            },
            None => f,
        }
    }
}

} // verus!
