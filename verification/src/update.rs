//! `UPDATE` statements.
use crate::clause::Clause;
use crate::expression::condition::{
    spec_where_clause, spec_ws_expression, where_clause_at, ws_expression_at, Expression,
    ExpressionView, WhereClause, WhereClauseView,
};
use crate::formatter::{Format, Formatter, Layout};
use crate::identifier::{spec_ws_name, ws_name_at, Name, NameView};
use crate::keyword::{keyword_at, spec_keyword, Keyword};
use crate::list::List;
use crate::table::create::{spec_ws_table_ref, ws_table_ref_at, TableRef, TableRefView};
use crate::text::{
    agrees, chars_of, finish, left, optional_step, parsed, spec_symbol, symbol_at, ParseError,
    Parsed, Step,
};
use vstd::prelude::*;

verus! {

/// An `UPDATE` statement.
#[derive(Debug, PartialEq)]
pub struct UpdateStatement(pub UpdateClause, pub SetClause, pub Option<WhereClause>);

/// The view of `UpdateStatement`: the same tree with sequences of characters
/// for its strings and sequences of views for its lists.
#[verifier::ext_equal]
pub struct UpdateStatementView(
    pub UpdateClauseView,
    pub SetClauseView,
    pub Option<WhereClauseView>,
);

/// The view of `x`.
#[verifier::opaque]
pub open spec fn update_statement_view(x: UpdateStatement) -> UpdateStatementView
    decreases x,
{
    UpdateStatementView(
        x.0.deep_view(),
        crate::update::set_clause_view(x.1),
        match x.2 {
            Some(y0) => Some(crate::expression::condition::where_clause_view(y0)),
            None => None,
        },
    )
}

impl DeepView for UpdateStatement {
    type V = UpdateStatementView;

    open spec fn deep_view(&self) -> UpdateStatementView {
        update_statement_view(*self)
    }
}

/// `UPDATE` and the table.
#[derive(Debug, PartialEq, Clone)]
pub struct UpdateClause(pub TableRef);

/// The view of `UpdateClause`: the same tree with sequences of characters
/// for its strings and sequences of views for its lists.
#[verifier::ext_equal]
pub struct UpdateClauseView(pub TableRefView);

impl DeepView for UpdateClause {
    type V = UpdateClauseView;

    open spec fn deep_view(&self) -> UpdateClauseView {
        UpdateClauseView(self.0.deep_view())
    }
}

/// `SET` and the assignments.
#[derive(Debug, PartialEq)]
pub struct SetClause(pub List<SetExpression>);

/// The view of `SetClause`: the same tree with sequences of characters for
/// its strings and sequences of views for its lists.
#[verifier::ext_equal]
pub struct SetClauseView(pub Seq<SetExpressionView>);

/// The view of `x`.
#[verifier::opaque]
pub open spec fn set_clause_view(x: SetClause) -> SetClauseView
    decreases x,
{
    SetClauseView(
        Seq::new(
            x.0.0@.len(),
            |i: int| if 0 <= i < x.0.0@.len() {
                crate::update::set_expression_view(x.0.0@[i])
            } else {
                arbitrary()
            },
        ),
    )
}

impl DeepView for SetClause {
    type V = SetClauseView;

    open spec fn deep_view(&self) -> SetClauseView {
        set_clause_view(*self)
    }
}

/// One assignment: a column and the expression assigned to it.
#[derive(Debug, PartialEq)]
pub struct SetExpression(pub Name, pub Expression);

/// The view of `SetExpression`: the same tree with sequences of characters
/// for its strings and sequences of views for its lists.
#[verifier::ext_equal]
pub struct SetExpressionView(pub NameView, pub ExpressionView);

/// The view of `x`.
#[verifier::opaque]
pub open spec fn set_expression_view(x: SetExpression) -> SetExpressionView
    decreases x,
{
    SetExpressionView(
        x.0.deep_view(),
        crate::expression::condition::expression_view(x.1),
    )
}

impl DeepView for SetExpression {
    type V = SetExpressionView;

    open spec fn deep_view(&self) -> SetExpressionView {
        set_expression_view(*self)
    }
}

/// `UPDATE` and a table.
#[verifier::opaque]
pub open spec fn spec_update_clause(s: Seq<char>, pos: int) -> Parsed<UpdateClauseView> {
    match spec_keyword(s, pos, Keyword::Update) {
        Parsed::Done(_, k) => match spec_ws_table_ref(s, pos + k) {
            Parsed::Done(table, n) => Parsed::Done(UpdateClauseView(table), k + n),
            _ => Parsed::Miss,
        },
        _ => Parsed::Miss,
    }
}

/// Reads at `pos` what `spec_update_clause` describes: the value and the
/// position behind it, or the kind of failure.
pub fn update_clause_at(inp: &[char], pos: usize) -> (r: Step<UpdateClause>)
    requires
        pos <= inp@.len(),
    ensures
        agrees(r, inp@, pos as int, spec_update_clause(inp@, pos as int)),
{
    reveal(spec_update_clause);
    let p1 = match keyword_at(inp, pos, Keyword::Update) {
        Ok((_, p)) => p,
        Err(_) => return Err(ParseError::Error),
    };
    match ws_table_ref_at(inp, p1) {
        Ok((table, end)) => Ok((UpdateClause(table), end)),
        Err(_) => Err(ParseError::Error),
    }
}

/// Parses `UPDATE` and the table at the start of `input`.
pub fn parse_update_clause(input: &str) -> (r: Result<(&str, UpdateClause), ParseError>)
    ensures
        parsed(r, input@, spec_update_clause(input@, 0)),
{
    let chars = chars_of(input);
    let step = update_clause_at(chars.as_slice(), 0);
    finish(input, step, Ghost(spec_update_clause(input@, 0)))
}

/// An assignment: a name, `=` and a link of a chain of conditions, each
/// with whitespace allowed on both sides.
#[verifier::opaque]
pub open spec fn spec_set_expression(s: Seq<char>, pos: int) -> Parsed<SetExpressionView>
    decreases left(s, pos), 1340nat,
{
    match spec_ws_name(s, pos) {
        Parsed::Done(name, k) => match spec_symbol(s, pos + k, '=') {
            Parsed::Done(_, n) => match spec_ws_expression(s, pos + k + n) {
                Parsed::Done(e, m) => Parsed::Done(SetExpressionView(name, e), k + n + m),
                f => f.cast(),
            },
            _ => Parsed::Miss,
        },
        _ => Parsed::Miss,
    }
}

/// Reads at `pos` what `spec_set_expression` describes: the value and the
/// position behind it, or the kind of failure.
pub fn set_expression_at(inp: &[char], pos: usize) -> (r: Step<SetExpression>)
    requires
        pos <= inp@.len(),
    ensures
        agrees(r, inp@, pos as int, spec_set_expression(inp@, pos as int)),
    decreases left(inp@, pos as int), 1340nat,
{
    reveal(spec_set_expression);
    reveal(crate::update::set_expression_view);
    reveal(crate::expression::condition::expression_view);
    let (name, p1) = match ws_name_at(inp, pos) {
        Ok(done) => done,
        Err(_) => return Err(ParseError::Error),
    };
    let p2 = match symbol_at(inp, p1, '=') {
        Ok((_, p)) => p,
        Err(_) => return Err(ParseError::Error),
    };
    match ws_expression_at(inp, p2) {
        Ok((e, end)) => Ok((SetExpression(name, e), end)),
        Err(e) => Err(e),
    }
}

/// Parses an assignment at the start of `input`.
pub fn parse_set_expression(input: &str) -> (r: Result<(&str, SetExpression), ParseError>)
    ensures
        parsed(r, input@, spec_set_expression(input@, 0)),
{
    let chars = chars_of(input);
    let step = set_expression_at(chars.as_slice(), 0);
    finish(input, step, Ghost(spec_set_expression(input@, 0)))
}

/// The elements that follow in a list of which `acc` has been read: a
/// comma and an element, as often as both are there.
#[verifier::opaque]
pub open spec fn spec_set_expressions_more(s: Seq<char>, pos: int, acc: Seq<SetExpressionView>) -> Parsed<
    Seq<SetExpressionView>,
>
    decreases left(s, pos), 1349nat,
{
    match spec_symbol(s, pos, ',') {
        Parsed::Done(_, k) => match spec_set_expression(s, pos + k) {
            Parsed::Done(x, n) => spec_set_expressions_more(s, pos + k + n, acc.push(x)).after(
                k + n,
            ),
            Parsed::Halt => Parsed::Halt,
            Parsed::Miss => Parsed::Done(acc, 0),
        },
        _ => Parsed::Done(acc, 0),
    }
}

/// One or more assignments, separated by commas.
#[verifier::opaque]
pub open spec fn spec_set_expressions(s: Seq<char>, pos: int) -> Parsed<Seq<SetExpressionView>>
    decreases left(s, pos), 1350nat,
{
    match spec_set_expression(s, pos) {
        Parsed::Done(x, n) => spec_set_expressions_more(s, pos + n, seq![x]).after(n),
        f => f.cast(),
    }
}

/// Reads at `pos` what `spec_set_expressions` describes: the value and the
/// position behind it, or the kind of failure.
pub fn set_expressions_at(inp: &[char], pos: usize) -> (r: Step<Vec<SetExpression>>)
    requires
        pos <= inp@.len(),
    ensures
        agrees(r, inp@, pos as int, spec_set_expressions(inp@, pos as int)),
    decreases left(inp@, pos as int), 1350nat,
{
    reveal(spec_set_expressions);
    reveal(spec_set_expression);
    reveal(spec_set_expressions_more);
    reveal(spec_symbol);
    let (first, start) = match set_expression_at(inp, pos) {
        Ok(done) => done,
        Err(e) => return Err(e),
    };
    let ghost whole = spec_set_expressions_more(inp@, start as int, seq![first.deep_view()]);
    let ghost mut xv = first.deep_view();
    let mut acc: Vec<SetExpression> = Vec::new();
    acc.push(first);
    assert(acc.deep_view() =~= seq![xv]);
    let mut cur = start;
    reveal(spec_set_expressions_more);
    reveal(spec_set_expression);
    loop
        invariant
            pos <= start <= cur <= inp@.len(),
            spec_set_expressions(inp@, pos as int) == whole.after((start - pos) as nat),
            whole == spec_set_expressions_more(inp@, cur as int, acc.deep_view()).after(
                (cur - start) as nat,
            ),
        decreases inp@.len() - cur,
    {
        reveal(spec_set_expressions_more);
        reveal(spec_set_expression);
        let p1 = match symbol_at(inp, cur, ',') {
            Ok((_, p)) => p,
            Err(_) => return Ok((acc, cur)),
        };
        match set_expression_at(inp, p1) {
            Ok((x, p2)) => {
                let ghost before = acc.deep_view();
                proof {
                    xv = x.deep_view();
                }
                acc.push(x);
                assert(acc.deep_view() =~= before.push(xv));
                cur = p2;
            },
            Err(ParseError::Failure) => return Err(ParseError::Failure),
            Err(ParseError::Error) => return Ok((acc, cur)),
        }
    }
}

/// `SET` and one or more assignments, separated by commas.
#[verifier::opaque]
pub open spec fn spec_set_clause(s: Seq<char>, pos: int) -> Parsed<SetClauseView>
    decreases left(s, pos), 1360nat,
{
    match spec_keyword(s, pos, Keyword::SetWord) {
        Parsed::Done(_, k) => match spec_set_expressions(s, pos + k) {
            Parsed::Done(list, n) => Parsed::Done(SetClauseView(list), k + n),
            f => f.cast(),
        },
        _ => Parsed::Miss,
    }
}

/// Reads at `pos` what `spec_set_clause` describes: the value and the
/// position behind it, or the kind of failure.
pub fn set_clause_at(inp: &[char], pos: usize) -> (r: Step<SetClause>)
    requires
        pos <= inp@.len(),
    ensures
        agrees(r, inp@, pos as int, spec_set_clause(inp@, pos as int)),
    decreases left(inp@, pos as int), 1360nat,
{
    reveal(spec_set_clause);
    reveal(crate::update::set_clause_view);
    reveal(crate::update::set_expression_view);
    let p1 = match keyword_at(inp, pos, Keyword::SetWord) {
        Ok((_, p)) => p,
        Err(_) => return Err(ParseError::Error),
    };
    match set_expressions_at(inp, p1) {
        Ok((list, end)) => {
            let ghost views = list.deep_view();
            let value = SetClause(List(list));
            proof {
                let got = value.deep_view().0;
                assert(got.len() == views.len());
                assert forall|i: int| 0 <= i < views.len() implies got[i] == views[i] by {
                    assert(views[i] == value.0.0@[i].deep_view());
                    assert(got[i] == value.0.0@[i].deep_view());
                }
                assert(got =~= views);
            }
            Ok((value, end))
        },
        Err(e) => Err(e),
    }
}

/// Parses a `SET` clause at the start of `input`.
pub fn parse_set_clause(input: &str) -> (r: Result<(&str, SetClause), ParseError>)
    ensures
        parsed(r, input@, spec_set_clause(input@, 0)),
{
    let chars = chars_of(input);
    let step = set_clause_at(chars.as_slice(), 0);
    finish(input, step, Ghost(spec_set_clause(input@, 0)))
}

/// An `UPDATE` statement: `UPDATE` with its table, `SET` with its
/// assignments and an optional `WHERE` clause.
#[verifier::opaque]
pub open spec fn spec_update_statement(s: Seq<char>, pos: int) -> Parsed<UpdateStatementView>
    decreases left(s, pos), 1500nat,
{
    match spec_update_clause(s, pos) {
        Parsed::Done(update, k) => match spec_set_clause(s, pos + k) {
            Parsed::Done(set, n) => match spec_where_clause(s, pos + k + n).optional() {
                Parsed::Done(where_clause, m) => Parsed::Done(
                    UpdateStatementView(update, set, where_clause),
                    k + n + m,
                ),
                f => f.cast(),
            },
            f => f.cast(),
        },
        _ => Parsed::Miss,
    }
}

/// Reads at `pos` what `spec_update_statement` describes: the value and the
/// position behind it, or the kind of failure.
pub fn update_statement_at(inp: &[char], pos: usize) -> (r: Step<UpdateStatement>)
    requires
        pos <= inp@.len(),
    ensures
        agrees(r, inp@, pos as int, spec_update_statement(inp@, pos as int)),
    decreases left(inp@, pos as int), 1500nat,
{
    reveal(spec_update_statement);
    reveal(crate::update::update_statement_view);
    reveal(crate::update::set_clause_view);
    reveal(crate::expression::condition::where_clause_view);
    let (update, p1) = match update_clause_at(inp, pos) {
        Ok(done) => done,
        Err(_) => return Err(ParseError::Error),
    };
    let (set, p2) = match set_clause_at(inp, p1) {
        Ok(done) => done,
        Err(e) => return Err(e),
    };
    match optional_step(
        inp,
        p2,
        where_clause_at(inp, p2),
        Ghost(spec_where_clause(inp@, p2 as int)),
    ) {
        Ok((where_clause, end)) => Ok((UpdateStatement(update, set, where_clause), end)),
        Err(e) => Err(e),
    }
}

/// Parses an `UPDATE` statement at the start of `input`.
pub fn parse_update_statement(input: &str) -> (r: Result<(&str, UpdateStatement), ParseError>)
    ensures
        parsed(r, input@, spec_update_statement(input@, 0)),
{
    let chars = chars_of(input);
    let step = update_statement_at(chars.as_slice(), 0);
    finish(input, step, Ghost(spec_update_statement(input@, 0)))
}

impl Clause for UpdateClause {
    open spec fn clause_keyword() -> Keyword {
        Keyword::Update
    }

    fn leading() -> (k: Keyword) {
        Keyword::Update
    }
}

impl Clause for SetClause {
    open spec fn clause_keyword() -> Keyword {
        Keyword::SetWord
    }

    fn leading() -> (k: Keyword) {
        Keyword::SetWord
    }
}

impl Format for UpdateClause {
    open spec fn rendered(&self, st: Layout) -> Layout {
        self.0.rendered(st.append(Keyword::Update.spec_text()).space())
    }

    fn format<'a>(&self, f: &'a mut Formatter) -> (r: &'a mut Formatter) {
        f.append(Keyword::Update.text()).space();
        self.0.format(f)
    }
}

/// The column, ` = ` and the expression.
impl Format for SetExpression {
    open spec fn rendered(&self, st: Layout) -> Layout {
        self.1.rendered(self.0.rendered(st).space().append("="@).space())
    }

    fn format<'a>(&self, f: &'a mut Formatter) -> (r: &'a mut Formatter) {
        self.0.format(f).ws().append_str("=").ws();
        self.1.format(f)
    }
}

/// The state behind the first `n` assignments: the first where the
/// formatter stands, each other behind a comma on a new line at the column
/// at which a clause body starts.
pub open spec fn render_assignments(items: Vec<SetExpression>, n: nat, st: Layout) -> Layout
    decreases n,
{
    if n == 0 || n > items@.len() {
        st
    } else if n == 1 {
        items@[0].rendered(st)
    } else {
        items@[n - 1].rendered(
            render_assignments(items, (n - 1) as nat, st).append(","@).new_line().right_margin(),
        )
    }
}

/// `SET`, right-aligned in a field of `pad` columns, a space and the
/// assignments, one per line.
impl Format for SetClause {
    open spec fn rendered(&self, st: Layout) -> Layout {
        render_assignments(
            self.0.0,
            self.0.0@.len(),
            st.padded(Keyword::SetWord.spec_text()).space(),
        )
    }

    fn format<'a>(&self, f: &'a mut Formatter) -> (r: &'a mut Formatter) {
        f.append_with_padding(Keyword::SetWord.text()).space();
        let ghost start = f@;
        let mut i: usize = 0;
        while i < self.0.0.len()
            invariant
                i <= self.0.0.len(),
                f@ == render_assignments(self.0.0, i as nat, start),
            decreases self.0.0.len() - i,
        {
            if i > 0 {
                f.append_str(",").new_line().right_margin();
            }
            self.0.0[i].format(f);
            i += 1;
        }
        f
    }
}

/// The field width is set to the width of `UPDATE`; the `SET` clause and
/// the `WHERE` clause stand on new lines.
impl Format for UpdateStatement {
    open spec fn rendered(&self, st: Layout) -> Layout {
        let set = self.1.rendered(self.0.rendered(st.set_pad(6)).new_line());
        match self.2 {
            Some(where_clause) => where_clause.rendered(set.new_line()),
            None => set,
        }
    }

    fn format<'a>(&self, f: &'a mut Formatter) -> (r: &'a mut Formatter) {
        f.set_pad(6);
        self.0.format(f).new_line();
        self.1.format(f);
        match &self.2 {
            Some(where_clause) => {
                f.new_line();
                where_clause.format(f)
            },
            None => f,
        }
    }
}

} // verus!
