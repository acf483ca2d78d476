//! The `SELECT` clause.
use crate::clause::Clause;
use crate::formatter::{Format, Formatter, Layout};
use crate::identifier::{name_at, spec_name, Name, NameView};
use crate::keyword::{keyword_at, spec_keyword, Keyword};
use crate::list::List;
use crate::term::{spec_ws_parse_term, ws_parse_term_at, Term, TermView};
use crate::text::{
    agrees, char_at, chars_of, finish, left, optional_step, parsed, skip_ws, spaced, spaced_step,
    spec_char, spec_symbol, symbol_at, ws_count, ParseError, Parsed, Step,
};
use vstd::prelude::*;

verus! {

/// `SELECT`, an optional quantifier and the selected expressions.
#[derive(Debug, PartialEq)]
pub struct SelectClause(pub Option<SetQuantifier>, pub List<SelectedExpression>);

/// The view of `SelectClause`: the same tree with sequences of characters
/// for its strings and sequences of views for its lists.
#[verifier::ext_equal]
pub struct SelectClauseView(pub Option<SetQuantifier>, pub Seq<SelectedExpressionView>);

/// The view of `x`.
#[verifier::opaque]
pub open spec fn select_clause_view(x: SelectClause) -> SelectClauseView
    decreases x,
{
    SelectClauseView(
        x.0,
        Seq::new(
            x.1.0@.len(),
            |i: int| if 0 <= i < x.1.0@.len() {
                crate::select::clause::selected_expression_view(x.1.0@[i])
            } else {
                arbitrary()
            },
        ),
    )
}

impl DeepView for SelectClause {
    type V = SelectClauseView;

    open spec fn deep_view(&self) -> SelectClauseView {
        select_clause_view(*self)
    }
}

/// One item of a select list.
#[derive(Debug, PartialEq)]
pub enum SelectedExpression {
    All,
    AllWithFamilyName(Name),
    Term(Term),
}

/// The view of `SelectedExpression`: the same tree with sequences of
/// characters for its strings and sequences of views for its lists.
#[verifier::ext_equal]
pub enum SelectedExpressionView {
    All,
    AllWithFamilyName(NameView),
    Term(TermView),
}

/// The view of `x`.
#[verifier::opaque]
pub open spec fn selected_expression_view(x: SelectedExpression) -> SelectedExpressionView
    decreases x,
{
    match x {
        SelectedExpression::All => SelectedExpressionView::All,
        SelectedExpression::AllWithFamilyName(x0) => SelectedExpressionView::AllWithFamilyName(
            x0.deep_view(),
        ),
        SelectedExpression::Term(x0) => SelectedExpressionView::Term(
            crate::term::term_view(x0),
        ),
    }
}

impl DeepView for SelectedExpression {
    type V = SelectedExpressionView;

    open spec fn deep_view(&self) -> SelectedExpressionView {
        selected_expression_view(*self)
    }
}

/// `ALL` or `DISTINCT`.
#[derive(Debug, Clone, Copy, PartialEq, Eq, Structural)]
pub enum SetQuantifier {
    Distinct,
    All,
}

impl DeepView for SetQuantifier {
    type V = SetQuantifier;

    open spec fn deep_view(&self) -> SetQuantifier {
        *self
    }
}

/// `ALL` or `DISTINCT`.
#[verifier::opaque]
pub open spec fn spec_set_quantifier(s: Seq<char>, pos: int) -> Parsed<SetQuantifier> {
    match spec_keyword(s, pos, Keyword::All) {
        Parsed::Done(_, n) => Parsed::Done(SetQuantifier::All, n),
        _ => match spec_keyword(s, pos, Keyword::Distinct) {
            Parsed::Done(_, n) => Parsed::Done(SetQuantifier::Distinct, n),
            _ => Parsed::Miss,
        },
    }
}

/// Reads at `pos` what `spec_set_quantifier` describes: the value and the
/// position behind it, or the kind of failure.
pub fn set_quantifier_at(inp: &[char], pos: usize) -> (r: Step<SetQuantifier>)
    requires
        pos <= inp@.len(),
    ensures
        agrees(r, inp@, pos as int, spec_set_quantifier(inp@, pos as int)),
{
    reveal(spec_set_quantifier);
    match keyword_at(inp, pos, Keyword::All) {
        Ok((_, end)) => Ok((SetQuantifier::All, end)),
        Err(_) => match keyword_at(inp, pos, Keyword::Distinct) {
            Ok((_, end)) => Ok((SetQuantifier::Distinct, end)),
            Err(_) => Err(ParseError::Error),
        },
    }
}

/// Parses `ALL` or `DISTINCT` at the start of `input`.
pub fn parse_set_quantifier(input: &str) -> (r: Result<(&str, SetQuantifier), ParseError>)
    ensures
        parsed(r, input@, spec_set_quantifier(input@, 0)),
{
    let chars = chars_of(input);
    let step = set_quantifier_at(chars.as_slice(), 0);
    finish(input, step, Ghost(spec_set_quantifier(input@, 0)))
}

/// All columns of a table: a name, a dot and a star.
#[verifier::opaque]
pub open spec fn spec_family_star(s: Seq<char>, pos: int) -> Parsed<NameView> {
    match spec_name(s, pos) {
        Parsed::Done(name, n) => match spec_char(s, pos + n, '.') {
            Parsed::Done(_, _) => match spec_char(s, pos + n + 1, '*') {
                Parsed::Done(_, _) => Parsed::Done(name, n + 2),
                _ => Parsed::Miss,
            },
            _ => Parsed::Miss,
        },
        _ => Parsed::Miss,
    }
}

/// Reads at `pos` what `spec_family_star` describes: the value and the
/// position behind it, or the kind of failure.
fn family_star_at(inp: &[char], pos: usize) -> (r: Step<Name>)
    requires
        pos <= inp@.len(),
    ensures
        agrees(r, inp@, pos as int, spec_family_star(inp@, pos as int)),
{
    reveal(spec_family_star);
    let (name, p1) = match name_at(inp, pos) {
        Ok(done) => done,
        Err(_) => return Err(ParseError::Error),
    };
    let p2 = match char_at(inp, p1, '.') {
        Ok((_, p)) => p,
        Err(_) => return Err(ParseError::Error),
    };
    match char_at(inp, p2, '*') {
        Ok((_, end)) => Ok((name, end)),
        Err(_) => Err(ParseError::Error),
    }
}

/// One item of a select list: a star, all columns of a table, or a term.
#[verifier::opaque]
pub open spec fn spec_selected_expression(s: Seq<char>, pos: int) -> Parsed<SelectedExpressionView>
    decreases left(s, pos), 1650nat,
{
    match spec_symbol(s, pos, '*') {
        Parsed::Done(_, n) => Parsed::Done(SelectedExpressionView::All, n),
        _ => match spec_family_star(s, pos) {
            Parsed::Done(name, n) => Parsed::Done(SelectedExpressionView::AllWithFamilyName(name), n),
            _ => match spec_ws_parse_term(s, pos) {
                Parsed::Done(t, n) => Parsed::Done(SelectedExpressionView::Term(t), n),
                f => f.cast(),
            },
        },
    }
}

/// Reads at `pos` what `spec_selected_expression` describes: the value and
/// the position behind it, or the kind of failure.
pub fn selected_expression_at(inp: &[char], pos: usize) -> (r: Step<SelectedExpression>)
    requires
        pos <= inp@.len(),
    ensures
        agrees(r, inp@, pos as int, spec_selected_expression(inp@, pos as int)),
    decreases left(inp@, pos as int), 1650nat,
{
    reveal(spec_selected_expression);
    reveal(spec_ws_parse_term);
    reveal(crate::select::clause::selected_expression_view);
    reveal(crate::term::term_view);
    if let Ok((_, end)) = symbol_at(inp, pos, '*') {
        return Ok((SelectedExpression::All, end));
    }
    if let Ok((name, end)) = family_star_at(inp, pos) {
        return Ok((SelectedExpression::AllWithFamilyName(name), end));
    }
    match ws_parse_term_at(inp, pos) {
        Ok((t, end)) => Ok((SelectedExpression::Term(t), end)),
        Err(e) => Err(e),
    }
}

/// An item of a select list, with whitespace allowed on both sides.
#[verifier::opaque]
pub open spec fn spec_ws_selected_expression(s: Seq<char>, pos: int) -> Parsed<
    SelectedExpressionView,
>
    decreases left(s, pos), 1660nat,
{
    spaced(s, pos, spec_selected_expression(s, pos + ws_count(s, pos)))
}

/// Reads at `pos` what `spec_ws_selected_expression` describes: the value
/// and the position behind it, or the kind of failure.
pub fn ws_selected_expression_at(inp: &[char], pos: usize) -> (r: Step<SelectedExpression>)
    requires
        pos <= inp@.len(),
    ensures
        agrees(r, inp@, pos as int, spec_ws_selected_expression(inp@, pos as int)),
    decreases left(inp@, pos as int), 1660nat,
{
    reveal(spec_ws_selected_expression);
    reveal(spec_selected_expression);
    reveal(crate::select::clause::selected_expression_view);
    reveal(crate::term::term_view);
    let start = skip_ws(inp, pos);
    let step = selected_expression_at(inp, start);
    spaced_step(
        inp,
        pos,
        step,
        Ghost(spec_selected_expression(inp@, pos + ws_count(inp@, pos as int))),
    )
}

/// The elements that follow in a list of which `acc` has been read: a
/// comma and an element, as often as both are there.
#[verifier::opaque]
pub open spec fn spec_selected_expressions_more(s: Seq<char>, pos: int, acc: Seq<SelectedExpressionView>) -> Parsed<
    Seq<SelectedExpressionView>,
>
    decreases left(s, pos), 1679nat,
{
    match spec_symbol(s, pos, ',') {
        Parsed::Done(_, k) => match spec_ws_selected_expression(s, pos + k) {
            Parsed::Done(x, n) => spec_selected_expressions_more(s, pos + k + n, acc.push(x)).after(
                k + n,
            ),
            Parsed::Halt => Parsed::Halt,
            Parsed::Miss => Parsed::Done(acc, 0),
        },
        _ => Parsed::Done(acc, 0),
    }
}

/// The items of a select list: one or more, separated by commas.
#[verifier::opaque]
pub open spec fn spec_selected_expressions(s: Seq<char>, pos: int) -> Parsed<
    Seq<SelectedExpressionView>,
>
    decreases left(s, pos), 1680nat,
{
    match spec_ws_selected_expression(s, pos) {
        Parsed::Done(x, n) => spec_selected_expressions_more(s, pos + n, seq![x]).after(n),
        f => f.cast(),
    }
}

/// Reads at `pos` what `spec_selected_expressions` describes: the value and
/// the position behind it, or the kind of failure.
pub fn selected_expressions_at(inp: &[char], pos: usize) -> (r: Step<Vec<SelectedExpression>>)
    requires
        pos <= inp@.len(),
    ensures
        agrees(r, inp@, pos as int, spec_selected_expressions(inp@, pos as int)),
    decreases left(inp@, pos as int), 1680nat,
{
    reveal(spec_selected_expressions);
    reveal(spec_ws_selected_expression);
    reveal(spec_selected_expressions_more);
    reveal(spec_symbol);
    let (first, start) = match ws_selected_expression_at(inp, pos) {
        Ok(done) => done,
        Err(e) => return Err(e),
    };
    let ghost whole = spec_selected_expressions_more(inp@, start as int, seq![first.deep_view()]);
    let ghost mut xv = first.deep_view();
    let mut acc: Vec<SelectedExpression> = Vec::new();
    acc.push(first);
    assert(acc.deep_view() =~= seq![xv]);
    let mut cur = start;
    reveal(spec_selected_expressions_more);
    reveal(spec_ws_selected_expression);
    loop
        invariant
            pos <= start <= cur <= inp@.len(),
            spec_selected_expressions(inp@, pos as int) == whole.after((start - pos) as nat),
            whole == spec_selected_expressions_more(inp@, cur as int, acc.deep_view()).after(
                (cur - start) as nat,
            ),
        decreases inp@.len() - cur,
    {
        reveal(spec_selected_expressions_more);
        reveal(spec_ws_selected_expression);
        let p1 = match symbol_at(inp, cur, ',') {
            Ok((_, p)) => p,
            Err(_) => return Ok((acc, cur)),
        };
        match ws_selected_expression_at(inp, p1) {
            Ok((x, p2)) => {
                let ghost before = acc.deep_view();
                proof {
                    xv = x.deep_view();
                }
                acc.push(x);
                assert(acc.deep_view() =~= before.push(xv));
                cur = p2;
            },
            Err(ParseError::Failure) => return Err(ParseError::Failure),
            Err(ParseError::Error) => return Ok((acc, cur)),
        }
    }
}

/// `SELECT`, an optional quantifier and the select list.
#[verifier::opaque]
pub open spec fn spec_select_clause(s: Seq<char>, pos: int) -> Parsed<SelectClauseView>
    decreases left(s, pos), 1700nat,
{
    match spec_keyword(s, pos, Keyword::Select) {
        Parsed::Done(_, k) => match spec_set_quantifier(s, pos + k).optional() {
            Parsed::Done(q, n) => match spec_selected_expressions(s, pos + k + n) {
                Parsed::Done(list, m) => Parsed::Done(SelectClauseView(q, list), k + n + m),
                f => f.cast(),
            },
            _ => Parsed::Miss,
        },
        _ => Parsed::Miss,
    }
}

/// Reads at `pos` what `spec_select_clause` describes: the value and the
/// position behind it, or the kind of failure.
pub fn select_clause_at(inp: &[char], pos: usize) -> (r: Step<SelectClause>)
    requires
        pos <= inp@.len(),
    ensures
        agrees(r, inp@, pos as int, spec_select_clause(inp@, pos as int)),
    decreases left(inp@, pos as int), 1700nat,
{
    reveal(spec_select_clause);
    reveal(spec_selected_expressions);
    reveal(crate::select::clause::select_clause_view);
    reveal(crate::select::clause::selected_expression_view);
    let p1 = match keyword_at(inp, pos, Keyword::Select) {
        Ok((_, p)) => p,
        Err(_) => return Err(ParseError::Error),
    };
    proof {
        Keyword::Select.text_width();
    }
    let (q, p2) = match optional_step(
        inp,
        p1,
        set_quantifier_at(inp, p1),
        Ghost(spec_set_quantifier(inp@, p1 as int)),
    ) {
        Ok(done) => done,
        Err(_) => return Err(ParseError::Error),
    };
    match selected_expressions_at(inp, p2) {
        Ok((list, end)) => {
            let ghost views = list.deep_view();
            let value = SelectClause(q, List(list));
            proof {
                let got = value.deep_view().1;
                assert(got.len() == views.len());
                assert forall|i: int| 0 <= i < views.len() implies got[i] == views[i] by {
                    assert(views[i] == value.1.0@[i].deep_view());
                    assert(got[i] == value.1.0@[i].deep_view());
                }
                assert(got =~= views);
            }
            assert(value.deep_view() =~= SelectClauseView(q, views));
            Ok((value, end))
        },
        Err(e) => Err(e),
    }
}

/// Parses a `SELECT` clause at the start of `input`.
pub fn parse_select_clause(input: &str) -> (r: Result<(&str, SelectClause), ParseError>)
    ensures
        parsed(r, input@, spec_select_clause(input@, 0)),
{
    let chars = chars_of(input);
    let step = select_clause_at(chars.as_slice(), 0);
    finish(input, step, Ghost(spec_select_clause(input@, 0)))
}

impl Clause for SelectClause {
    open spec fn clause_keyword() -> Keyword {
        Keyword::Select
    }

    fn leading() -> (k: Keyword) {
        Keyword::Select
    }
}

impl Format for SelectedExpression {
    open spec fn rendered(&self, st: Layout) -> Layout
        decreases self,
    {
        match self {
            SelectedExpression::All => st.append("*"@),
            SelectedExpression::Term(term) => term.rendered(st),
            SelectedExpression::AllWithFamilyName(name) => name.rendered(st).append(".*"@),
        }
    }

    fn format<'a>(&self, f: &'a mut Formatter) -> (r: &'a mut Formatter)
        decreases self,
    {
        match self {
            SelectedExpression::All => f.append("*"),
            SelectedExpression::Term(term) => term.format(f),
            SelectedExpression::AllWithFamilyName(name) => name.format(f).append(".*"),
        }
    }
}

impl Format for SetQuantifier {
    open spec fn rendered(&self, st: Layout) -> Layout {
        match self {
            SetQuantifier::All => st.append(Keyword::All.spec_text()),
            SetQuantifier::Distinct => st.append(Keyword::Distinct.spec_text()),
        }
    }

    fn format<'a>(&self, f: &'a mut Formatter) -> (r: &'a mut Formatter) {
        match self {
            SetQuantifier::All => f.append(Keyword::All.text()),
            SetQuantifier::Distinct => f.append(Keyword::Distinct.text()),
        }
    }
}

/// The state behind the first `n` of `items`, rendered in order, each
/// behind `", "` but the first.
pub open spec fn render_selected_expressions(items: Vec<SelectedExpression>, n: nat, st: Layout) -> Layout
    decreases items, n,
{
    if n == 0 || n > items@.len() {
        st
    } else if n == 1 {
        items@[0].rendered(st)
    } else {
        items@[n - 1].rendered(render_selected_expressions(items, (n - 1) as nat, st).append(", "@))
    }
}

/// The items of a select list are written in one line, separated by `", "`.
impl Format for List<SelectedExpression> {
    open spec fn rendered(&self, st: Layout) -> Layout
        decreases self,
    {
        render_selected_expressions(self.0, self.0@.len(), st)
    }

    fn format<'a>(&self, f: &'a mut Formatter) -> (r: &'a mut Formatter)
        decreases self,
    {
        let mut i: usize = 0;
        while i < self.0.len()
            invariant
                i <= self.0.len(),
                f@ == render_selected_expressions(self.0, i as nat, old(f)@),
            decreases self.0.len() - i,
        {
            if i > 0 {
                f.append(", ");
            }
            self.0[i].format(f);
            i += 1;
        }
        f
    }
}

/// `SELECT`, the quantifier where there is one, and the select list,
/// separated by single spaces.
impl Format for SelectClause {
    open spec fn rendered(&self, st: Layout) -> Layout
        decreases self,
    {
        let head = st.append(Keyword::Select.spec_text()).space();
        self.1.rendered(
            match self.0 {
                Some(q) => q.rendered(head).space(),
                None => head,
            },
        )
    }

    fn format<'a>(&self, f: &'a mut Formatter) -> (r: &'a mut Formatter)
        decreases self,
    {
        f.append(Keyword::Select.text()).ws();
        match &self.0 {
            Some(q) => {
                q.format(f).ws();
            },
            None => {},
        }
        self.1.format(f)
    }
}

} // verus!
