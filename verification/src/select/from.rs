//! The `FROM` clause.
use crate::clause::Clause;
use crate::formatter::{Format, Formatter, Layout};
use crate::identifier::{name_at, spec_name, Name, NameView};
use crate::keyword::{keyword_at, keyword_from, keyword_of, spec_keyword, Keyword};
use crate::list::List;
use crate::select::join::{joins_at, spec_joins, JoinClause, JoinClauseView};
use crate::text::{
    agrees, chars_of, finish, left, optional_step, parsed, run_end, run_len, skip_ws, spaced,
    spaced_step, spec_symbol, symbol_at, ws_count, Class, ParseError, Parsed, Step,
};
use vstd::prelude::*;

verus! {

/// `FROM`, its tables and the joins on them.
#[derive(Debug, PartialEq)]
pub struct FromClause(pub List<TableExpression>, pub Option<List<JoinClause>>);

/// The view of `FromClause`: the same tree with sequences of characters for
/// its strings and sequences of views for its lists.
#[verifier::ext_equal]
pub struct FromClauseView(pub Seq<TableExpressionView>, pub Option<Seq<JoinClauseView>>);

/// The view of `x`.
#[verifier::opaque]
pub open spec fn from_clause_view(x: FromClause) -> FromClauseView
    decreases x,
{
    FromClauseView(
        Seq::new(
            x.0.0@.len(),
            |i: int| if 0 <= i < x.0.0@.len() {
                x.0.0@[i].deep_view()
            } else {
                arbitrary()
            },
        ),
        match x.1 {
            Some(y0) => Some(Seq::new(
                y0.0@.len(),
                |i: int| if 0 <= i < y0.0@.len() {
                    crate::select::join::join_clause_view(y0.0@[i])
                } else {
                    arbitrary()
                },
            )),
            None => None,
        },
    )
}

impl DeepView for FromClause {
    type V = FromClauseView;

    open spec fn deep_view(&self) -> FromClauseView {
        from_clause_view(*self)
    }
}

/// A table name, with or without an alias.
#[derive(Debug, PartialEq, Clone)]
pub enum TableName {
    Name(Name),
    AliasedName(Name, Name),
}

/// The view of `TableName`: the same tree with sequences of characters for
/// its strings and sequences of views for its lists.
#[verifier::ext_equal]
pub enum TableNameView {
    Name(NameView),
    AliasedName(NameView, NameView),
}

impl DeepView for TableName {
    type V = TableNameView;

    open spec fn deep_view(&self) -> TableNameView {
        match *self {
            TableName::Name(x0) => TableNameView::Name(x0.deep_view()),
            TableName::AliasedName(x0, x1) => TableNameView::AliasedName(
                x0.deep_view(),
                x1.deep_view(),
            ),
        }
    }
}

/// A table in a `FROM` clause or a join.
#[derive(Debug, PartialEq, Clone)]
pub struct TableExpression(pub TableName);

/// The view of `TableExpression`: the same tree with sequences of characters
/// for its strings and sequences of views for its lists.
#[verifier::ext_equal]
pub struct TableExpressionView(pub TableNameView);

impl DeepView for TableExpression {
    type V = TableExpressionView;

    open spec fn deep_view(&self) -> TableExpressionView {
        TableExpressionView(self.0.deep_view())
    }
}

/// An alias: a name, unless it is a bare name that spells a reserved word.
#[verifier::opaque]
pub open spec fn spec_alias(s: Seq<char>, pos: int) -> Parsed<NameView> {
    let n = run_len(s, pos, Class::Word);
    if n > 0 && keyword_from(s.subrange(pos, pos + n), 0) is Some {
        Parsed::Miss
    } else {
        spec_name(s, pos)
    }
}

/// Reads at `pos` what `spec_alias` describes: the value and the position
/// behind it, or the kind of failure.
pub fn alias_at(inp: &[char], pos: usize) -> (r: Step<Name>)
    requires
        pos <= inp@.len(),
    ensures
        agrees(r, inp@, pos as int, spec_alias(inp@, pos as int)),
{
    reveal(spec_alias);
    let end = run_end(inp, pos, Class::Word);
    if end > pos && keyword_of(inp, pos, end).is_some() {
        Err(ParseError::Error)
    } else {
        name_at(inp, pos)
    }
}

/// An alias, with whitespace allowed on both sides.
#[verifier::opaque]
pub open spec fn spec_ws_alias(s: Seq<char>, pos: int) -> Parsed<NameView>
    decreases left(s, pos), 10nat,
{
    spaced(s, pos, spec_alias(s, pos + ws_count(s, pos)))
}

/// Reads at `pos` what `spec_ws_alias` describes: the value and the position
/// behind it, or the kind of failure.
pub fn ws_alias_at(inp: &[char], pos: usize) -> (r: Step<Name>)
    requires
        pos <= inp@.len(),
    ensures
        agrees(r, inp@, pos as int, spec_ws_alias(inp@, pos as int)),
    decreases left(inp@, pos as int), 10nat,
{
    reveal(spec_ws_alias);
    let start = skip_ws(inp, pos);
    let step = alias_at(inp, start);
    spaced_step(inp, pos, step, Ghost(spec_alias(inp@, pos + ws_count(inp@, pos as int))))
}

/// A table name: a name, an optional `AS` and an alias, which give an
/// aliased name; else a name and the whitespace behind it.
#[verifier::opaque]
pub open spec fn spec_table_name(s: Seq<char>, pos: int) -> Parsed<TableNameView> {
    match spec_name(s, pos) {
        Parsed::Done(name, k) => {
            let bare = Parsed::Done(TableNameView::Name(name), k + ws_count(s, pos + k));
            match spec_keyword(s, pos + k, Keyword::As).optional() {
                Parsed::Done(_, n) => match spec_ws_alias(s, pos + k + n) {
                    Parsed::Done(alias, m) => Parsed::Done(
                        TableNameView::AliasedName(name, alias),
                        k + n + m,
                    ),
                    _ => bare,
                },
                _ => bare,
            }
        },
        _ => Parsed::Miss,
    }
}

/// Reads at `pos` what `spec_table_name` describes: the value and the
/// position behind it, or the kind of failure.
pub fn table_name_at(inp: &[char], pos: usize) -> (r: Step<TableName>)
    requires
        pos <= inp@.len(),
    ensures
        agrees(r, inp@, pos as int, spec_table_name(inp@, pos as int)),
{
    reveal(spec_table_name);
    let (name, p1) = match name_at(inp, pos) {
        Ok(done) => done,
        Err(_) => return Err(ParseError::Error),
    };
    let p2 = match keyword_at(inp, p1, Keyword::As) {
        Ok((_, p)) => p,
        Err(_) => p1,
    };
    match ws_alias_at(inp, p2) {
        Ok((alias, end)) => Ok((TableName::AliasedName(name, alias), end)),
        Err(_) => Ok((TableName::Name(name), skip_ws(inp, p1))),
    }
}

/// Parses a table name, with or without an alias, at the start of `input`.
pub fn table_name(input: &str) -> (r: Result<(&str, TableName), ParseError>)
    ensures
        parsed(r, input@, spec_table_name(input@, 0)),
{
    let chars = chars_of(input);
    let step = table_name_at(chars.as_slice(), 0);
    finish(input, step, Ghost(spec_table_name(input@, 0)))
}

/// A table of a `FROM` clause or a join.
#[verifier::opaque]
pub open spec fn spec_table_expression(s: Seq<char>, pos: int) -> Parsed<TableExpressionView> {
    match spec_table_name(s, pos) {
        Parsed::Done(name, n) => Parsed::Done(TableExpressionView(name), n),
        _ => Parsed::Miss,
    }
}

/// Reads at `pos` what `spec_table_expression` describes: the value and the
/// position behind it, or the kind of failure.
pub fn table_expression_at(inp: &[char], pos: usize) -> (r: Step<TableExpression>)
    requires
        pos <= inp@.len(),
    ensures
        agrees(r, inp@, pos as int, spec_table_expression(inp@, pos as int)),
{
    reveal(spec_table_expression);
    match table_name_at(inp, pos) {
        Ok((name, end)) => Ok((TableExpression(name), end)),
        Err(_) => Err(ParseError::Error),
    }
}

/// Parses a table at the start of `input`.
pub fn table_expression(input: &str) -> (r: Result<(&str, TableExpression), ParseError>)
    ensures
        parsed(r, input@, spec_table_expression(input@, 0)),
{
    let chars = chars_of(input);
    let step = table_expression_at(chars.as_slice(), 0);
    finish(input, step, Ghost(spec_table_expression(input@, 0)))
}

/// A table, with whitespace allowed on both sides.
#[verifier::opaque]
pub open spec fn spec_ws_table_expression(s: Seq<char>, pos: int) -> Parsed<TableExpressionView>
    decreases left(s, pos), 10nat,
{
    spaced(s, pos, spec_table_expression(s, pos + ws_count(s, pos)))
}

/// Reads at `pos` what `spec_ws_table_expression` describes: the value and
/// the position behind it, or the kind of failure.
pub fn ws_table_expression_at(inp: &[char], pos: usize) -> (r: Step<TableExpression>)
    requires
        pos <= inp@.len(),
    ensures
        agrees(r, inp@, pos as int, spec_ws_table_expression(inp@, pos as int)),
    decreases left(inp@, pos as int), 10nat,
{
    reveal(spec_ws_table_expression);
    let start = skip_ws(inp, pos);
    let step = table_expression_at(inp, start);
    spaced_step(
        inp,
        pos,
        step,
        Ghost(spec_table_expression(inp@, pos + ws_count(inp@, pos as int))),
    )
}

/// The elements that follow in a list of which `acc` has been read: a
/// comma and an element, as often as both are there.
#[verifier::opaque]
pub open spec fn spec_table_expressions_more(s: Seq<char>, pos: int, acc: Seq<TableExpressionView>) -> Parsed<
    Seq<TableExpressionView>,
>
    decreases left(s, pos), 19nat,
{
    match spec_symbol(s, pos, ',') {
        Parsed::Done(_, k) => match spec_ws_table_expression(s, pos + k) {
            Parsed::Done(x, n) => spec_table_expressions_more(s, pos + k + n, acc.push(x)).after(
                k + n,
            ),
            Parsed::Halt => Parsed::Halt,
            Parsed::Miss => Parsed::Done(acc, 0),
        },
        _ => Parsed::Done(acc, 0),
    }
}

/// One or more tables, separated by commas.
#[verifier::opaque]
pub open spec fn spec_table_expressions(s: Seq<char>, pos: int) -> Parsed<Seq<TableExpressionView>>
    decreases left(s, pos), 20nat,
{
    match spec_ws_table_expression(s, pos) {
        Parsed::Done(x, n) => spec_table_expressions_more(s, pos + n, seq![x]).after(n),
        f => f.cast(),
    }
}

/// Reads at `pos` what `spec_table_expressions` describes: the value and the
/// position behind it, or the kind of failure.
pub fn table_expressions_at(inp: &[char], pos: usize) -> (r: Step<Vec<TableExpression>>)
    requires
        pos <= inp@.len(),
    ensures
        agrees(r, inp@, pos as int, spec_table_expressions(inp@, pos as int)),
    decreases left(inp@, pos as int), 20nat,
{
    reveal(spec_table_expressions);
    reveal(spec_ws_table_expression);
    reveal(spec_table_expressions_more);
    reveal(spec_symbol);
    let (first, start) = match ws_table_expression_at(inp, pos) {
        Ok(done) => done,
        Err(e) => return Err(e),
    };
    let ghost whole = spec_table_expressions_more(inp@, start as int, seq![first.deep_view()]);
    let ghost mut xv = first.deep_view();
    let mut acc: Vec<TableExpression> = Vec::new();
    acc.push(first);
    assert(acc.deep_view() =~= seq![xv]);
    let mut cur = start;
    reveal(spec_table_expressions_more);
    reveal(spec_ws_table_expression);
    loop
        invariant
            pos <= start <= cur <= inp@.len(),
            spec_table_expressions(inp@, pos as int) == whole.after((start - pos) as nat),
            whole == spec_table_expressions_more(inp@, cur as int, acc.deep_view()).after(
                (cur - start) as nat,
            ),
        decreases inp@.len() - cur,
    {
        reveal(spec_table_expressions_more);
        reveal(spec_ws_table_expression);
        let p1 = match symbol_at(inp, cur, ',') {
            Ok((_, p)) => p,
            Err(_) => return Ok((acc, cur)),
        };
        match ws_table_expression_at(inp, p1) {
            Ok((x, p2)) => {
                let ghost before = acc.deep_view();
                proof {
                    xv = x.deep_view();
                }
                acc.push(x);
                assert(acc.deep_view() =~= before.push(xv));
                cur = p2;
            },
            Err(ParseError::Failure) => return Err(ParseError::Failure),
            Err(ParseError::Error) => return Ok((acc, cur)),
        }
    }
}

/// `FROM`, one or more tables and the joins on them.
#[verifier::opaque]
pub open spec fn spec_from_clause(s: Seq<char>, pos: int) -> Parsed<FromClauseView>
    decreases left(s, pos), 1600nat,
{
    match spec_keyword(s, pos, Keyword::From) {
        Parsed::Done(_, k) => match spec_table_expressions(s, pos + k) {
            Parsed::Done(tables, n) => match spec_joins(s, pos + k + n).optional() {
                Parsed::Done(joins, m) => Parsed::Done(FromClauseView(tables, joins), k + n + m),
                f => f.cast(),
            },
            _ => Parsed::Miss,
        },
        _ => Parsed::Miss,
    }
}

/// Reads at `pos` what `spec_from_clause` describes: the value and the
/// position behind it, or the kind of failure.
pub fn from_clause_at(inp: &[char], pos: usize) -> (r: Step<FromClause>)
    requires
        pos <= inp@.len(),
    ensures
        agrees(r, inp@, pos as int, spec_from_clause(inp@, pos as int)),
    decreases left(inp@, pos as int), 1600nat,
{
    reveal(spec_from_clause);
    reveal(spec_joins);
    reveal(crate::select::from::from_clause_view);
    reveal(crate::select::join::join_clause_view);
    let p1 = match keyword_at(inp, pos, Keyword::From) {
        Ok((_, p)) => p,
        Err(_) => return Err(ParseError::Error),
    };
    proof {
        Keyword::From.text_width();
    }
    let (tables, p2) = match table_expressions_at(inp, p1) {
        Ok(done) => done,
        Err(_) => return Err(ParseError::Error),
    };
    match optional_step(inp, p2, joins_at(inp, p2), Ghost(spec_joins(inp@, p2 as int))) {
        Ok((joins, end)) => {
            let ghost tables_view = tables.deep_view();
            let ghost joins_view = joins.deep_view();
            let value = FromClause(
                List(tables),
                match joins {
                    Some(j) => Some(List(j)),
                    None => None,
                },
            );
            proof {
                let got = value.deep_view().0;
                assert(got.len() == tables_view.len());
                assert forall|i: int| 0 <= i < tables_view.len() implies got[i] == tables_view[i] by {
                    assert(tables_view[i] == value.0.0@[i].deep_view());
                    assert(got[i] == value.0.0@[i].deep_view());
                }
                assert(got =~= tables_view);
            }
            proof {
                if value.1 is Some {
                    let list = value.1->Some_0;
                    let got = value.deep_view().1->Some_0;
                    let expect = joins_view->Some_0;
                    assert(got.len() == expect.len());
                    assert forall|i: int| 0 <= i < expect.len() implies got[i] == expect[i] by {
                        assert(expect[i] == list.0@[i].deep_view());
                        assert(got[i] == list.0@[i].deep_view());
                    }
                    assert(got =~= expect);
                }
            }
            assert(value.deep_view() =~= FromClauseView(tables_view, joins_view));
            Ok((value, end))
        },
        Err(e) => Err(e),
    }
}

/// Parses a `FROM` clause at the start of `input`.
pub fn parse_from_clause(input: &str) -> (r: Result<(&str, FromClause), ParseError>)
    ensures
        parsed(r, input@, spec_from_clause(input@, 0)),
{
    let chars = chars_of(input);
    let step = from_clause_at(chars.as_slice(), 0);
    finish(input, step, Ghost(spec_from_clause(input@, 0)))
}

impl Clause for FromClause {
    open spec fn clause_keyword() -> Keyword {
        Keyword::From
    }

    fn leading() -> (k: Keyword) {
        Keyword::From
    }
}

/// A name is written as it is, an aliased name as name, ` AS ` and alias.
impl Format for TableName {
    open spec fn rendered(&self, st: Layout) -> Layout {
        match self {
            TableName::Name(name) => name.rendered(st),
            TableName::AliasedName(name, alias) => alias.rendered(
                name.rendered(st).space().append(Keyword::As.spec_text()).space(),
            ),
        }
    }

    fn format<'a>(&self, f: &'a mut Formatter) -> (r: &'a mut Formatter) {
        match self {
            TableName::Name(name) => name.format(f),
            TableName::AliasedName(name, alias) => {
                name.format(f).space().append(Keyword::As.text()).space();
                alias.format(f)
            },
        }
    }
}

impl Format for TableExpression {
    open spec fn rendered(&self, st: Layout) -> Layout {
        self.0.rendered(st)
    }

    fn format<'a>(&self, f: &'a mut Formatter) -> (r: &'a mut Formatter) {
        self.0.format(f)
    }
}

/// The state behind the first `n` of `items`, rendered in order, each
/// behind `", "` but the first.
pub open spec fn render_table_expressions(items: Vec<TableExpression>, n: nat, st: Layout) -> Layout
    decreases n,
{
    if n == 0 || n > items@.len() {
        st
    } else if n == 1 {
        items@[0].rendered(st)
    } else {
        items@[n - 1].rendered(render_table_expressions(items, (n - 1) as nat, st).append(", "@))
    }
}

/// Tables are written in one line, separated by `", "`.
impl Format for List<TableExpression> {
    open spec fn rendered(&self, st: Layout) -> Layout
    {
        render_table_expressions(self.0, self.0@.len(), st)
    }

    fn format<'a>(&self, f: &'a mut Formatter) -> (r: &'a mut Formatter)
    {
        let mut i: usize = 0;
        while i < self.0.len()
            invariant
                i <= self.0.len(),
                f@ == render_table_expressions(self.0, i as nat, old(f)@),
            decreases self.0.len() - i,
        {
            if i > 0 {
                f.append(", ");
            }
            self.0[i].format(f);
            i += 1;
        }
        f
    }
}

/// The state behind the first `n` of `items`: each join starts a new line,
/// and a blank line stands between two joins.
pub open spec fn render_joins(items: Vec<JoinClause>, n: nat, st: Layout) -> Layout
    decreases items, n,
{
    if n == 0 || n > items@.len() {
        st
    } else if n == 1 {
        items@[0].rendered(st.new_line())
    } else {
        items@[n - 1].rendered(render_joins(items, (n - 1) as nat, st).new_line().new_line())
    }
}

impl Format for List<JoinClause> {
    open spec fn rendered(&self, st: Layout) -> Layout
        decreases self,
    {
        render_joins(self.0, self.0@.len(), st)
    }

    fn format<'a>(&self, f: &'a mut Formatter) -> (r: &'a mut Formatter)
        decreases self,
    {
        let mut i: usize = 0;
        while i < self.0.len()
            invariant
                i <= self.0.len(),
                f@ == render_joins(self.0, i as nat, old(f)@),
            decreases self.0.len() - i,
        {
            if i > 0 {
                f.new_line();
            }
            f.new_line();
            self.0[i].format(f);
            i += 1;
        }
        f
    }
}

/// `FROM`, right-aligned in the keyword field, a space and the tables;
/// then the joins.
impl Format for FromClause {
    open spec fn rendered(&self, st: Layout) -> Layout
        decreases self,
    {
        let tables = self.0.rendered(st.left_side(Keyword::From.spec_text()).space());
        match self.1 {
            Some(joins) => joins.rendered(tables),
            None => tables,
        }
    }

    fn format<'a>(&self, f: &'a mut Formatter) -> (r: &'a mut Formatter)
        decreases self,
    {
        f.left_side(Keyword::From.text()).space();
        self.0.format(f);
        match &self.1 {
            Some(joins) => joins.format(f),
            None => f,
        }
    }
}

} // verus!
