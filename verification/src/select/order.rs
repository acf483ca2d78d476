//! The `ORDER BY` clause.
use crate::clause::Clause;
use crate::formatter::{Format, Formatter, Layout};
use crate::keyword::{keyword_at, spec_keyword, Keyword};
use crate::list::List;
use crate::term::column::{column_ref_at, spec_column_ref, ColumnRef, ColumnRefView};
use crate::text::{
    agrees, chars_of, finish, left, optional_step, parsed, skip_ws, spaced, spaced_step,
    spec_symbol, symbol_at, ws_count, ParseError, Parsed, Step,
};
use vstd::prelude::*;

verus! {

/// `ORDER BY` and its sort keys.
#[derive(Debug, PartialEq, Clone)]
pub struct OrderByClause(pub List<Order>);

/// The view of `OrderByClause`: the same tree with sequences of characters
/// for its strings and sequences of views for its lists.
#[verifier::ext_equal]
pub struct OrderByClauseView(pub Seq<OrderView>);

impl DeepView for OrderByClause {
    type V = OrderByClauseView;

    open spec fn deep_view(&self) -> OrderByClauseView {
        OrderByClauseView(self.0.deep_view())
    }
}

/// A sort key with its direction and the place of nulls.
#[derive(Debug, PartialEq, Clone)]
pub struct Order(pub SortKey, pub Option<OrderSort>, pub Option<NullsSort>);

/// The view of `Order`: the same tree with sequences of characters for its
/// strings and sequences of views for its lists.
#[verifier::ext_equal]
pub struct OrderView(pub SortKeyView, pub Option<OrderSort>, pub Option<NullsSort>);

impl DeepView for Order {
    type V = OrderView;

    open spec fn deep_view(&self) -> OrderView {
        OrderView(self.0.deep_view(), self.1.deep_view(), self.2.deep_view())
    }
}

/// The direction of a sort.
#[derive(Debug, Clone, Copy, PartialEq, Eq, Structural)]
pub enum OrderSort {
    Asc,
    Desc,
}

impl DeepView for OrderSort {
    type V = OrderSort;

    open spec fn deep_view(&self) -> OrderSort {
        *self
    }
}

/// A column to sort by.
#[derive(Debug, PartialEq, Clone)]
pub enum SortKey {
    ColumnRef(ColumnRef),
}

/// The view of `SortKey`: the same tree with sequences of characters for its
/// strings and sequences of views for its lists.
#[verifier::ext_equal]
pub enum SortKeyView {
    ColumnRef(ColumnRefView),
}

impl DeepView for SortKey {
    type V = SortKeyView;

    open spec fn deep_view(&self) -> SortKeyView {
        match *self {
            SortKey::ColumnRef(x0) => SortKeyView::ColumnRef(x0.deep_view()),
        }
    }
}

/// Where nulls are sorted.
#[derive(Debug, Clone, Copy, PartialEq, Eq, Structural)]
pub enum NullsSort {
    First,
    Last,
}

impl DeepView for NullsSort {
    type V = NullsSort;

    open spec fn deep_view(&self) -> NullsSort {
        *self
    }
}

/// `NULLS` and `FIRST` or `LAST`.
#[verifier::opaque]
pub open spec fn spec_null_sort(s: Seq<char>, pos: int) -> Parsed<NullsSort> {
    match spec_keyword(s, pos, Keyword::Nulls) {
        Parsed::Done(_, k) => match spec_keyword(s, pos + k, Keyword::First) {
            Parsed::Done(_, n) => Parsed::Done(NullsSort::First, k + n),
            _ => match spec_keyword(s, pos + k, Keyword::Last) {
                Parsed::Done(_, n) => Parsed::Done(NullsSort::Last, k + n),
                _ => Parsed::Miss,
            },
        },
        _ => Parsed::Miss,
    }
}

/// Reads at `pos` what `spec_null_sort` describes: the value and the
/// position behind it, or the kind of failure.
fn null_sort_at(inp: &[char], pos: usize) -> (r: Step<NullsSort>)
    requires
        pos <= inp@.len(),
    ensures
        agrees(r, inp@, pos as int, spec_null_sort(inp@, pos as int)),
{
    reveal(spec_null_sort);
    let p1 = match keyword_at(inp, pos, Keyword::Nulls) {
        Ok((_, p)) => p,
        Err(_) => return Err(ParseError::Error),
    };
    if let Ok((_, end)) = keyword_at(inp, p1, Keyword::First) {
        return Ok((NullsSort::First, end));
    }
    match keyword_at(inp, p1, Keyword::Last) {
        Ok((_, end)) => Ok((NullsSort::Last, end)),
        Err(_) => Err(ParseError::Error),
    }
}

/// `ASC` or `DESC`.
#[verifier::opaque]
pub open spec fn spec_order_sort(s: Seq<char>, pos: int) -> Parsed<OrderSort> {
    match spec_keyword(s, pos, Keyword::Asc) {
        Parsed::Done(_, n) => Parsed::Done(OrderSort::Asc, n),
        _ => match spec_keyword(s, pos, Keyword::Desc) {
            Parsed::Done(_, n) => Parsed::Done(OrderSort::Desc, n),
            _ => Parsed::Miss,
        },
    }
}

/// Reads at `pos` what `spec_order_sort` describes: the value and the
/// position behind it, or the kind of failure.
fn order_sort_at(inp: &[char], pos: usize) -> (r: Step<OrderSort>)
    requires
        pos <= inp@.len(),
    ensures
        agrees(r, inp@, pos as int, spec_order_sort(inp@, pos as int)),
{
    reveal(spec_order_sort);
    if let Ok((_, end)) = keyword_at(inp, pos, Keyword::Asc) {
        return Ok((OrderSort::Asc, end));
    }
    match keyword_at(inp, pos, Keyword::Desc) {
        Ok((_, end)) => Ok((OrderSort::Desc, end)),
        Err(_) => Err(ParseError::Error),
    }
}

/// A column to sort by.
#[verifier::opaque]
pub open spec fn spec_sort_key(s: Seq<char>, pos: int) -> Parsed<SortKeyView> {
    match spec_column_ref(s, pos) {
        Parsed::Done(c, n) => Parsed::Done(SortKeyView::ColumnRef(c), n),
        _ => Parsed::Miss,
    }
}

/// Reads at `pos` what `spec_sort_key` describes: the value and the position
/// behind it, or the kind of failure.
pub fn sort_key_at(inp: &[char], pos: usize) -> (r: Step<SortKey>)
    requires
        pos <= inp@.len(),
    ensures
        agrees(r, inp@, pos as int, spec_sort_key(inp@, pos as int)),
{
    reveal(spec_sort_key);
    match column_ref_at(inp, pos) {
        Ok((c, end)) => Ok((SortKey::ColumnRef(c), end)),
        Err(_) => Err(ParseError::Error),
    }
}

/// Parses a column to sort by at the start of `input`.
pub fn parse_sort_key(input: &str) -> (r: Result<(&str, SortKey), ParseError>)
    ensures
        parsed(r, input@, spec_sort_key(input@, 0)),
{
    let chars = chars_of(input);
    let step = sort_key_at(chars.as_slice(), 0);
    finish(input, step, Ghost(spec_sort_key(input@, 0)))
}

/// A column to sort by, with whitespace allowed on both sides.
#[verifier::opaque]
pub open spec fn spec_ws_sort_key(s: Seq<char>, pos: int) -> Parsed<SortKeyView>
    decreases left(s, pos), 10nat,
{
    spaced(s, pos, spec_sort_key(s, pos + ws_count(s, pos)))
}

/// Reads at `pos` what `spec_ws_sort_key` describes: the value and the
/// position behind it, or the kind of failure.
pub fn ws_sort_key_at(inp: &[char], pos: usize) -> (r: Step<SortKey>)
    requires
        pos <= inp@.len(),
    ensures
        agrees(r, inp@, pos as int, spec_ws_sort_key(inp@, pos as int)),
    decreases left(inp@, pos as int), 10nat,
{
    reveal(spec_ws_sort_key);
    let start = skip_ws(inp, pos);
    let step = sort_key_at(inp, start);
    spaced_step(inp, pos, step, Ghost(spec_sort_key(inp@, pos + ws_count(inp@, pos as int))))
}

/// A sort key, an optional direction and an optional place of nulls, each
/// with whitespace allowed on both sides.
#[verifier::opaque]
pub open spec fn spec_order(s: Seq<char>, pos: int) -> Parsed<OrderView> {
    match spec_ws_sort_key(s, pos) {
        Parsed::Done(key, k) => {
            let p1 = pos + k;
            match spaced(s, p1, spec_order_sort(s, p1 + ws_count(s, p1)).optional()) {
                Parsed::Done(sort, n) => {
                    let p2 = p1 + n;
                    match spaced(s, p2, spec_null_sort(s, p2 + ws_count(s, p2)).optional()) {
                        Parsed::Done(nulls, m) => Parsed::Done(OrderView(key, sort, nulls), k + n + m),
                        _ => Parsed::Miss,
                    }
                },
                _ => Parsed::Miss,
            }
        },
        _ => Parsed::Miss,
    }
}

/// Reads at `pos` what `spec_order` describes: the value and the position
/// behind it, or the kind of failure.
pub fn order_at(inp: &[char], pos: usize) -> (r: Step<Order>)
    requires
        pos <= inp@.len(),
    ensures
        agrees(r, inp@, pos as int, spec_order(inp@, pos as int)),
{
    reveal(spec_order);
    let (key, p1) = match ws_sort_key_at(inp, pos) {
        Ok(done) => done,
        Err(_) => return Err(ParseError::Error),
    };
    let s1 = skip_ws(inp, p1);
    let sort_step = optional_step(
        inp,
        s1,
        order_sort_at(inp, s1),
        Ghost(spec_order_sort(inp@, s1 as int)),
    );
    let (sort, p2) = match spaced_step(
        inp,
        p1,
        sort_step,
        Ghost(spec_order_sort(inp@, s1 as int).optional()),
    ) {
        Ok(done) => done,
        Err(_) => return Err(ParseError::Error),
    };
    let s2 = skip_ws(inp, p2);
    let nulls_step = optional_step(
        inp,
        s2,
        null_sort_at(inp, s2),
        Ghost(spec_null_sort(inp@, s2 as int)),
    );
    match spaced_step(inp, p2, nulls_step, Ghost(spec_null_sort(inp@, s2 as int).optional())) {
        Ok((nulls, end)) => Ok((Order(key, sort, nulls), end)),
        Err(_) => Err(ParseError::Error),
    }
}

/// A sort key with its options, with whitespace allowed on both sides.
#[verifier::opaque]
pub open spec fn spec_ws_order(s: Seq<char>, pos: int) -> Parsed<OrderView>
    decreases left(s, pos), 10nat,
{
    spaced(s, pos, spec_order(s, pos + ws_count(s, pos)))
}

/// Reads at `pos` what `spec_ws_order` describes: the value and the position
/// behind it, or the kind of failure.
pub fn ws_order_at(inp: &[char], pos: usize) -> (r: Step<Order>)
    requires
        pos <= inp@.len(),
    ensures
        agrees(r, inp@, pos as int, spec_ws_order(inp@, pos as int)),
    decreases left(inp@, pos as int), 10nat,
{
    reveal(spec_ws_order);
    let start = skip_ws(inp, pos);
    let step = order_at(inp, start);
    spaced_step(inp, pos, step, Ghost(spec_order(inp@, pos + ws_count(inp@, pos as int))))
}

/// The elements that follow in a list of which `acc` has been read: a
/// comma and an element, as often as both are there.
#[verifier::opaque]
pub open spec fn spec_orders_more(s: Seq<char>, pos: int, acc: Seq<OrderView>) -> Parsed<
    Seq<OrderView>,
>
    decreases left(s, pos), 19nat,
{
    match spec_symbol(s, pos, ',') {
        Parsed::Done(_, k) => match spec_ws_order(s, pos + k) {
            Parsed::Done(x, n) => spec_orders_more(s, pos + k + n, acc.push(x)).after(k + n),
            Parsed::Halt => Parsed::Halt,
            Parsed::Miss => Parsed::Done(acc, 0),
        },
        _ => Parsed::Done(acc, 0),
    }
}

/// One or more sort keys, separated by commas.
#[verifier::opaque]
pub open spec fn spec_orders(s: Seq<char>, pos: int) -> Parsed<Seq<OrderView>>
    decreases left(s, pos), 20nat,
{
    match spec_ws_order(s, pos) {
        Parsed::Done(x, n) => spec_orders_more(s, pos + n, seq![x]).after(n),
        f => f.cast(),
    }
}

/// Reads at `pos` what `spec_orders` describes: the value and the position
/// behind it, or the kind of failure.
pub fn orders_at(inp: &[char], pos: usize) -> (r: Step<Vec<Order>>)
    requires
        pos <= inp@.len(),
    ensures
        agrees(r, inp@, pos as int, spec_orders(inp@, pos as int)),
    decreases left(inp@, pos as int), 20nat,
{
    reveal(spec_orders);
    reveal(spec_ws_order);
    reveal(spec_orders_more);
    reveal(spec_symbol);
    let (first, start) = match ws_order_at(inp, pos) {
        Ok(done) => done,
        Err(e) => return Err(e),
    };
    let ghost whole = spec_orders_more(inp@, start as int, seq![first.deep_view()]);
    let ghost mut xv = first.deep_view();
    let mut acc: Vec<Order> = Vec::new();
    acc.push(first);
    assert(acc.deep_view() =~= seq![xv]);
    let mut cur = start;
    reveal(spec_orders_more);
    reveal(spec_ws_order);
    loop
        invariant
            pos <= start <= cur <= inp@.len(),
            spec_orders(inp@, pos as int) == whole.after((start - pos) as nat),
            whole == spec_orders_more(inp@, cur as int, acc.deep_view()).after(
                (cur - start) as nat,
            ),
        decreases inp@.len() - cur,
    {
        reveal(spec_orders_more);
        reveal(spec_ws_order);
        let p1 = match symbol_at(inp, cur, ',') {
            Ok((_, p)) => p,
            Err(_) => return Ok((acc, cur)),
        };
        match ws_order_at(inp, p1) {
            Ok((x, p2)) => {
                let ghost before = acc.deep_view();
                proof {
                    xv = x.deep_view();
                }
                acc.push(x);
                assert(acc.deep_view() =~= before.push(xv));
                cur = p2;
            },
            Err(ParseError::Failure) => return Err(ParseError::Failure),
            Err(ParseError::Error) => return Ok((acc, cur)),
        }
    }
}

/// `ORDER`, `BY` and one or more sort keys.
#[verifier::opaque]
pub open spec fn spec_order_by_clause(s: Seq<char>, pos: int) -> Parsed<OrderByClauseView> {
    match spec_keyword(s, pos, Keyword::Order) {
        Parsed::Done(_, k) => match spec_keyword(s, pos + k, Keyword::By) {
            Parsed::Done(_, n) => {
                let p = pos + k + n;
                match spaced(s, p, spec_orders(s, p + ws_count(s, p))) {
                    Parsed::Done(list, m) => Parsed::Done(OrderByClauseView(list), k + n + m),
                    _ => Parsed::Miss,
                }
            },
            _ => Parsed::Miss,
        },
        _ => Parsed::Miss,
    }
}

/// Reads at `pos` what `spec_order_by_clause` describes: the value and the
/// position behind it, or the kind of failure.
pub fn order_by_clause_at(inp: &[char], pos: usize) -> (r: Step<OrderByClause>)
    requires
        pos <= inp@.len(),
    ensures
        agrees(r, inp@, pos as int, spec_order_by_clause(inp@, pos as int)),
{
    reveal(spec_order_by_clause);
    let p1 = match keyword_at(inp, pos, Keyword::Order) {
        Ok((_, p)) => p,
        Err(_) => return Err(ParseError::Error),
    };
    let p2 = match keyword_at(inp, p1, Keyword::By) {
        Ok((_, p)) => p,
        Err(_) => return Err(ParseError::Error),
    };
    let start = skip_ws(inp, p2);
    let step = orders_at(inp, start);
    match spaced_step(inp, p2, step, Ghost(spec_orders(inp@, start as int))) {
        Ok((list, end)) => {
            let ghost views = list.deep_view();
            let value = OrderByClause(List(list));
            assert(value.deep_view() =~= OrderByClauseView(views));
            Ok((value, end))
        },
        Err(_) => Err(ParseError::Error),
    }
}

/// Parses an `ORDER BY` clause at the start of `input`.
pub fn parse_order_by_clause(input: &str) -> (r: Result<(&str, OrderByClause), ParseError>)
    ensures
        parsed(r, input@, spec_order_by_clause(input@, 0)),
{
    let chars = chars_of(input);
    let step = order_by_clause_at(chars.as_slice(), 0);
    finish(input, step, Ghost(spec_order_by_clause(input@, 0)))
}

impl Clause for OrderByClause {
    open spec fn clause_keyword() -> Keyword {
        Keyword::Order
    }

    fn leading() -> (k: Keyword) {
        Keyword::Order
    }
}

impl Format for OrderSort {
    open spec fn rendered(&self, st: Layout) -> Layout {
        match self {
            OrderSort::Asc => st.append(Keyword::Asc.spec_text()),
            OrderSort::Desc => st.append(Keyword::Desc.spec_text()),
        }
    }

    fn format<'a>(&self, f: &'a mut Formatter) -> (r: &'a mut Formatter) {
        match self {
            OrderSort::Asc => f.append(Keyword::Asc.text()),
            OrderSort::Desc => f.append(Keyword::Desc.text()),
        }
    }
}

impl Format for SortKey {
    open spec fn rendered(&self, st: Layout) -> Layout {
        match self {
            SortKey::ColumnRef(c) => c.rendered(st),
        }
    }

    fn format<'a>(&self, f: &'a mut Formatter) -> (r: &'a mut Formatter) {
        match self {
            SortKey::ColumnRef(c) => c.format(f),
        }
    }
}

/// The sort key and, behind a space, the direction where there is one. The
/// place of nulls is not written.
impl Format for Order {
    open spec fn rendered(&self, st: Layout) -> Layout {
        match self.1 {
            None => self.0.rendered(st),
            Some(sort) => sort.rendered(self.0.rendered(st).space()),
        }
    }

    fn format<'a>(&self, f: &'a mut Formatter) -> (r: &'a mut Formatter) {
        self.0.format(f);
        match &self.1 {
            None => f,
            Some(sort) => {
                f.ws();
                sort.format(f)
            },
        }
    }
}

/// The state behind the first `n` of `items`, rendered in order, each
/// behind `", "` but the first.
pub open spec fn render_orders(items: Vec<Order>, n: nat, st: Layout) -> Layout
    decreases n,
{
    if n == 0 || n > items@.len() {
        st
    } else if n == 1 {
        items@[0].rendered(st)
    } else {
        items@[n - 1].rendered(render_orders(items, (n - 1) as nat, st).append(", "@))
    }
}

/// Sort keys are written in one line, separated by `", "`.
impl Format for List<Order> {
    open spec fn rendered(&self, st: Layout) -> Layout
    {
        render_orders(self.0, self.0@.len(), st)
    }

    fn format<'a>(&self, f: &'a mut Formatter) -> (r: &'a mut Formatter)
    {
        let mut i: usize = 0;
        while i < self.0.len()
            invariant
                i <= self.0.len(),
                f@ == render_orders(self.0, i as nat, old(f)@),
            decreases self.0.len() - i,
        {
            if i > 0 {
                f.append(", ");
            }
            self.0[i].format(f);
            i += 1;
        }
        f
    }
}

/// `ORDER`, right-aligned in the keyword field, ` BY ` and the sort keys.
impl Format for OrderByClause {
    open spec fn rendered(&self, st: Layout) -> Layout {
        self.0.rendered(
            st.left_side(Keyword::Order.spec_text()).space().append(Keyword::By.spec_text()).space(),
        )
    }

    fn format<'a>(&self, f: &'a mut Formatter) -> (r: &'a mut Formatter) {
        f.left_side(Keyword::Order.text()).ws().append(Keyword::By.text()).ws();
        self.0.format(f)
    }
}

} // verus!
