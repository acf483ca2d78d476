//! `CASE` expressions.
use crate::clause::Clause;
use crate::expression::condition::{
    spec_ws_expression, ws_expression_at, Expression, ExpressionView,
};
use crate::formatter::{Format, Formatter, Layout};
use crate::keyword::{keyword_at, spec_keyword, Keyword};
use crate::term::{
    parse_term_at, spec_parse_term, spec_ws_parse_term, ws_parse_term_at, Term, TermView,
};
use crate::text::{
    agrees, chars_of, finish, left, optional_step, parsed, skip_ws, spaced, spaced_step, ws_count,
    ParseError, Parsed, Step,
};
use vstd::prelude::*;

verus! {

/// A `CASE` expression, with or without a subject.
#[derive(Debug, PartialEq)]
pub enum CaseExpression {
    Simple(Case),
    Searched(SearchedCase),
}

/// The view of `CaseExpression`: the same tree with sequences of characters
/// for its strings and sequences of views for its lists.
#[verifier::ext_equal]
pub enum CaseExpressionView {
    Simple(CaseView),
    Searched(SearchedCaseView),
}

/// The view of `x`.
#[verifier::opaque]
pub open spec fn case_expression_view(x: CaseExpression) -> CaseExpressionView
    decreases x,
{
    match x {
        CaseExpression::Simple(x0) => CaseExpressionView::Simple(
            crate::term::case::case_view(x0),
        ),
        CaseExpression::Searched(x0) => CaseExpressionView::Searched(
            crate::term::case::searched_case_view(x0),
        ),
    }
}

impl DeepView for CaseExpression {
    type V = CaseExpressionView;

    open spec fn deep_view(&self) -> CaseExpressionView {
        case_expression_view(*self)
    }
}

/// `CASE subject WHEN .. THEN .. [ELSE ..] END`.
#[derive(Debug, PartialEq)]
pub struct Case(pub Box<Term>, pub Vec<When>, pub Option<Box<Else>>);

/// The view of `Case`: the same tree with sequences of characters for its
/// strings and sequences of views for its lists.
#[verifier::ext_equal]
pub struct CaseView(pub Box<TermView>, pub Seq<WhenView>, pub Option<Box<ElseView>>);

/// The view of `x`.
#[verifier::opaque]
pub open spec fn case_view(x: Case) -> CaseView
    decreases x,
{
    CaseView(
        Box::new(crate::term::term_view((*x.0))),
        Seq::new(
            x.1@.len(),
            |i: int| if 0 <= i < x.1@.len() {
                crate::term::case::when_view(x.1@[i])
            } else {
                arbitrary()
            },
        ),
        match x.2 {
            Some(y0) => Some(Box::new(crate::term::case::else_view((*y0)))),
            None => None,
        },
    )
}

impl DeepView for Case {
    type V = CaseView;

    open spec fn deep_view(&self) -> CaseView {
        case_view(*self)
    }
}

/// `CASE WHEN .. THEN .. [ELSE ..] END`.
#[derive(Debug, PartialEq)]
pub struct SearchedCase(pub Box<When>, pub Option<Box<Else>>);

/// The view of `SearchedCase`: the same tree with sequences of characters
/// for its strings and sequences of views for its lists.
#[verifier::ext_equal]
pub struct SearchedCaseView(pub Box<WhenView>, pub Option<Box<ElseView>>);

/// The view of `x`.
#[verifier::opaque]
pub open spec fn searched_case_view(x: SearchedCase) -> SearchedCaseView
    decreases x,
{
    SearchedCaseView(
        Box::new(crate::term::case::when_view((*x.0))),
        match x.1 {
            Some(y0) => Some(Box::new(crate::term::case::else_view((*y0)))),
            None => None,
        },
    )
}

impl DeepView for SearchedCase {
    type V = SearchedCaseView;

    open spec fn deep_view(&self) -> SearchedCaseView {
        searched_case_view(*self)
    }
}

/// One `WHEN .. THEN ..` branch.
#[derive(Debug, PartialEq)]
pub struct When(pub Expression, pub Term);

/// The view of `When`: the same tree with sequences of characters for its
/// strings and sequences of views for its lists.
#[verifier::ext_equal]
pub struct WhenView(pub ExpressionView, pub TermView);

/// The view of `x`.
#[verifier::opaque]
pub open spec fn when_view(x: When) -> WhenView
    decreases x,
{
    WhenView(
        crate::expression::condition::expression_view(x.0),
        crate::term::term_view(x.1),
    )
}

impl DeepView for When {
    type V = WhenView;

    open spec fn deep_view(&self) -> WhenView {
        when_view(*self)
    }
}

/// The `ELSE` branch.
#[derive(Debug, PartialEq)]
pub struct Else(pub Term);

/// The view of `Else`: the same tree with sequences of characters for its
/// strings and sequences of views for its lists.
#[verifier::ext_equal]
pub struct ElseView(pub TermView);

/// The view of `x`.
#[verifier::opaque]
pub open spec fn else_view(x: Else) -> ElseView
    decreases x,
{
    ElseView(crate::term::term_view(x.0))
}

impl DeepView for Else {
    type V = ElseView;

    open spec fn deep_view(&self) -> ElseView {
        else_view(*self)
    }
}

/// `WHEN`, a link of a chain of conditions, `THEN` and a term.
#[verifier::opaque]
pub open spec fn spec_when(s: Seq<char>, pos: int) -> Parsed<WhenView>
    decreases left(s, pos), 1040nat,
{
    match spec_keyword(s, pos, Keyword::When) {
        Parsed::Done(_, k) => match spec_ws_expression(s, pos + k) {
            Parsed::Done(e, n) => match spec_keyword(s, pos + k + n, Keyword::Then) {
                Parsed::Done(_, m) => match spec_ws_parse_term(s, pos + k + n + m) {
                    Parsed::Done(t, j) => Parsed::Done(WhenView(e, t), k + n + m + j),
                    f => f.cast(),
                },
                _ => Parsed::Miss,
            },
            f => f.cast(),
        },
        _ => Parsed::Miss,
    }
}

/// Reads at `pos` what `spec_when` describes: the value and the position
/// behind it, or the kind of failure.
pub fn when_at(inp: &[char], pos: usize) -> (r: Step<When>)
    requires
        pos <= inp@.len(),
    ensures
        agrees(r, inp@, pos as int, spec_when(inp@, pos as int)),
    decreases left(inp@, pos as int), 1040nat,
{
    reveal(spec_when);
    reveal(spec_ws_expression);
    reveal(spec_ws_parse_term);
    reveal(crate::term::case::when_view);
    reveal(crate::expression::condition::expression_view);
    reveal(crate::term::term_view);
    let p1 = match keyword_at(inp, pos, Keyword::When) {
        Ok((_, p)) => p,
        Err(_) => return Err(ParseError::Error),
    };
    proof {
        Keyword::When.text_width();
    }
    let (e, p2) = match ws_expression_at(inp, p1) {
        Ok(done) => done,
        Err(e) => return Err(e),
    };
    let p3 = match keyword_at(inp, p2, Keyword::Then) {
        Ok((_, p)) => p,
        Err(_) => return Err(ParseError::Error),
    };
    match ws_parse_term_at(inp, p3) {
        Ok((t, end)) => Ok((When(e, t), end)),
        Err(e) => Err(e),
    }
}

/// Parses a `WHEN` branch at the start of `input`.
pub fn when(input: &str) -> (r: Result<(&str, When), ParseError>)
    ensures
        parsed(r, input@, spec_when(input@, 0)),
{
    let chars = chars_of(input);
    let step = when_at(chars.as_slice(), 0);
    finish(input, step, Ghost(spec_when(input@, 0)))
}

/// A `WHEN` branch, with whitespace allowed on both sides.
#[verifier::opaque]
pub open spec fn spec_ws_when(s: Seq<char>, pos: int) -> Parsed<WhenView>
    decreases left(s, pos), 1050nat,
{
    spaced(s, pos, spec_when(s, pos + ws_count(s, pos)))
}

/// Reads at `pos` what `spec_ws_when` describes: the value and the position
/// behind it, or the kind of failure.
pub fn ws_when_at(inp: &[char], pos: usize) -> (r: Step<When>)
    requires
        pos <= inp@.len(),
    ensures
        agrees(r, inp@, pos as int, spec_ws_when(inp@, pos as int)),
    decreases left(inp@, pos as int), 1050nat,
{
    reveal(spec_ws_when);
    reveal(spec_when);
    reveal(crate::term::case::when_view);
    reveal(crate::expression::condition::expression_view);
    reveal(crate::term::term_view);
    let start = skip_ws(inp, pos);
    let step = when_at(inp, start);
    spaced_step(inp, pos, step, Ghost(spec_when(inp@, pos + ws_count(inp@, pos as int))))
}

/// The elements that follow in a sequence of which `acc` has been read,
/// as many as are there. An element that consumes nothing ends the
/// sequence with a mismatch.
#[verifier::opaque]
pub open spec fn spec_whens_more(s: Seq<char>, pos: int, acc: Seq<WhenView>) -> Parsed<
    Seq<WhenView>,
>
    decreases left(s, pos), 1069nat,
{
    match spec_when(s, pos) {
        Parsed::Done(x, n) => if n == 0 || pos + n > s.len() {
            Parsed::Miss
        } else {
            spec_whens_more(s, pos + n, acc.push(x)).after(n)
        },
        Parsed::Halt => Parsed::Halt,
        Parsed::Miss => Parsed::Done(acc, 0),
    }
}

/// One or more `WHEN` branches.
#[verifier::opaque]
pub open spec fn spec_whens(s: Seq<char>, pos: int) -> Parsed<Seq<WhenView>>
    decreases left(s, pos), 1070nat,
{
    match spec_when(s, pos) {
        Parsed::Done(x, n) => spec_whens_more(s, pos + n, seq![x]).after(n),
        f => f.cast(),
    }
}

/// Reads at `pos` what `spec_whens` describes: the value and the position
/// behind it, or the kind of failure.
pub fn whens_at(inp: &[char], pos: usize) -> (r: Step<Vec<When>>)
    requires
        pos <= inp@.len(),
    ensures
        agrees(r, inp@, pos as int, spec_whens(inp@, pos as int)),
    decreases left(inp@, pos as int), 1070nat,
{
    reveal(spec_whens);
    reveal(spec_when);
    reveal(spec_whens_more);
    let (first, start) = match when_at(inp, pos) {
        Ok(done) => done,
        Err(e) => return Err(e),
    };
    let ghost whole = spec_whens_more(inp@, start as int, seq![first.deep_view()]);
    let ghost mut xv = first.deep_view();
    let mut acc: Vec<When> = Vec::new();
    acc.push(first);
    assert(acc.deep_view() =~= seq![xv]);
    let mut cur = start;
    reveal(spec_whens_more);
    reveal(spec_when);
    loop
        invariant
            pos <= start <= cur <= inp@.len(),
            spec_whens(inp@, pos as int) == whole.after((start - pos) as nat),
            whole == spec_whens_more(inp@, cur as int, acc.deep_view()).after((cur - start) as nat),
        decreases inp@.len() - cur,
    {
        reveal(spec_whens_more);
        reveal(spec_when);
        match when_at(inp, cur) {
            Ok((x, p2)) => {
                if p2 == cur {
                    return Err(ParseError::Error);
                }
                let ghost before = acc.deep_view();
                proof {
                    xv = x.deep_view();
                }
                acc.push(x);
                assert(acc.deep_view() =~= before.push(xv));
                cur = p2;
            },
            Err(ParseError::Failure) => return Err(ParseError::Failure),
            Err(ParseError::Error) => return Ok((acc, cur)),
        }
    }
}

/// `ELSE` and a term.
#[verifier::opaque]
pub open spec fn spec_else(s: Seq<char>, pos: int) -> Parsed<ElseView>
    decreases left(s, pos), 1030nat,
{
    match spec_keyword(s, pos, Keyword::Else) {
        Parsed::Done(_, k) => match spec_parse_term(s, pos + k) {
            Parsed::Done(t, n) => Parsed::Done(ElseView(t), k + n),
            f => f.cast(),
        },
        _ => Parsed::Miss,
    }
}

/// Reads at `pos` what `spec_else` describes: the value and the position
/// behind it, or the kind of failure.
fn else_at(inp: &[char], pos: usize) -> (r: Step<Box<Else>>)
    requires
        pos <= inp@.len(),
    ensures
        agrees(r, inp@, pos as int, spec_else(inp@, pos as int)),
    decreases left(inp@, pos as int), 1030nat,
{
    reveal(spec_else);
    reveal(spec_parse_term);
    reveal(crate::term::case::else_view);
    reveal(crate::term::term_view);
    let p1 = match keyword_at(inp, pos, Keyword::Else) {
        Ok((_, p)) => p,
        Err(_) => return Err(ParseError::Error),
    };
    proof {
        Keyword::Else.text_width();
    }
    match parse_term_at(inp, p1) {
        Ok((t, end)) => Ok((Box::new(Else(t)), end)),
        Err(e) => Err(e),
    }
}

/// `CASE`, a `WHEN` branch, an optional `ELSE` branch and `END`.
#[verifier::opaque]
pub open spec fn spec_searched_case(s: Seq<char>, pos: int) -> Parsed<SearchedCaseView>
    decreases left(s, pos), 1080nat,
{
    match spec_keyword(s, pos, Keyword::Case) {
        Parsed::Done(_, k) => match spec_ws_when(s, pos + k) {
            Parsed::Done(w, n) => match spec_else(s, pos + k + n).optional() {
                Parsed::Done(e, m) => match spec_keyword(s, pos + k + n + m, Keyword::End) {
                    Parsed::Done(_, j) => Parsed::Done(
                        SearchedCaseView(
                            Box::new(w),
                            match e {
                                Some(x) => Some(Box::new(x)),
                                None => None,
                            },
                        ),
                        k + n + m + j,
                    ),
                    _ => Parsed::Miss,
                },
                f => f.cast(),
            },
            f => f.cast(),
        },
        _ => Parsed::Miss,
    }
}

/// Reads at `pos` what `spec_searched_case` describes: the value and the
/// position behind it, or the kind of failure.
pub fn searched_case_at(inp: &[char], pos: usize) -> (r: Step<SearchedCase>)
    requires
        pos <= inp@.len(),
    ensures
        agrees(r, inp@, pos as int, spec_searched_case(inp@, pos as int)),
    decreases left(inp@, pos as int), 1080nat,
{
    reveal(spec_searched_case);
    reveal(spec_ws_when);
    reveal(spec_else);
    reveal(crate::term::case::searched_case_view);
    reveal(crate::term::case::when_view);
    reveal(crate::term::case::else_view);
    let p1 = match keyword_at(inp, pos, Keyword::Case) {
        Ok((_, p)) => p,
        Err(_) => return Err(ParseError::Error),
    };
    proof {
        Keyword::Case.text_width();
    }
    let (w, p2) = match ws_when_at(inp, p1) {
        Ok(done) => done,
        Err(e) => return Err(e),
    };
    let (e, p3) = match optional_step(
        inp,
        p2,
        else_at(inp, p2),
        Ghost(spec_else(inp@, p2 as int)),
    ) {
        Ok(done) => done,
        Err(e) => return Err(e),
    };
    match keyword_at(inp, p3, Keyword::End) {
        Ok((_, end)) => Ok((SearchedCase(Box::new(w), e), end)),
        Err(_) => Err(ParseError::Error),
    }
}

/// Parses a `CASE` expression without a subject at the start of `input`.
pub fn parse_searched_case(input: &str) -> (r: Result<(&str, SearchedCase), ParseError>)
    ensures
        parsed(r, input@, spec_searched_case(input@, 0)),
{
    let chars = chars_of(input);
    let step = searched_case_at(chars.as_slice(), 0);
    finish(input, step, Ghost(spec_searched_case(input@, 0)))
}

/// `CASE`, a term, one or more `WHEN` branches, an optional `ELSE` branch
/// and `END`.
#[verifier::opaque]
pub open spec fn spec_case(s: Seq<char>, pos: int) -> Parsed<CaseView>
    decreases left(s, pos), 1090nat,
{
    match spec_keyword(s, pos, Keyword::Case) {
        Parsed::Done(_, k) => match spec_parse_term(s, pos + k) {
            Parsed::Done(t, n) => match spec_whens(s, pos + k + n) {
                Parsed::Done(w, m) => match spec_else(s, pos + k + n + m).optional() {
                    Parsed::Done(e, j) => match spec_keyword(
                        s,
                        pos + k + n + m + j,
                        Keyword::End,
                    ) {
                        Parsed::Done(_, i) => Parsed::Done(
                            CaseView(
                                Box::new(t),
                                w,
                                match e {
                                    Some(x) => Some(Box::new(x)),
                                    None => None,
                                },
                            ),
                            k + n + m + j + i,
                        ),
                        _ => Parsed::Miss,
                    },
                    f => f.cast(),
                },
                f => f.cast(),
            },
            f => f.cast(),
        },
        _ => Parsed::Miss,
    }
}

/// Reads at `pos` what `spec_case` describes: the value and the position
/// behind it, or the kind of failure.
pub fn case_at(inp: &[char], pos: usize) -> (r: Step<Case>)
    requires
        pos <= inp@.len(),
    ensures
        agrees(r, inp@, pos as int, spec_case(inp@, pos as int)),
    decreases left(inp@, pos as int), 1090nat,
{
    reveal(spec_case);
    reveal(spec_parse_term);
    reveal(spec_whens);
    reveal(spec_else);
    reveal(crate::term::case::case_view);
    reveal(crate::term::term_view);
    reveal(crate::term::case::when_view);
    reveal(crate::term::case::else_view);
    let p1 = match keyword_at(inp, pos, Keyword::Case) {
        Ok((_, p)) => p,
        Err(_) => return Err(ParseError::Error),
    };
    proof {
        Keyword::Case.text_width();
    }
    let (t, p2) = match parse_term_at(inp, p1) {
        Ok(done) => done,
        Err(e) => return Err(e),
    };
    let (w, p3) = match whens_at(inp, p2) {
        Ok(done) => done,
        Err(e) => return Err(e),
    };
    let (e, p4) = match optional_step(
        inp,
        p3,
        else_at(inp, p3),
        Ghost(spec_else(inp@, p3 as int)),
    ) {
        Ok(done) => done,
        Err(e) => return Err(e),
    };
    match keyword_at(inp, p4, Keyword::End) {
        Ok((_, end)) => {
            let ghost views = w.deep_view();
            let value = Case(Box::new(t), w, e);
            proof {
                let got = value.deep_view().1;
                assert(got.len() == views.len());
                assert forall|i: int| 0 <= i < views.len() implies got[i] == views[i] by {
                    assert(views[i] == value.1@[i].deep_view());
                    assert(got[i] == value.1@[i].deep_view());
                }
                assert(got =~= views);
            }

            Ok((value, end))
        },
        Err(_) => Err(ParseError::Error),
    }
}

/// Parses a `CASE` expression with a subject at the start of `input`.
pub fn parse_case(input: &str) -> (r: Result<(&str, Case), ParseError>)
    ensures
        parsed(r, input@, spec_case(input@, 0)),
{
    let chars = chars_of(input);
    let step = case_at(chars.as_slice(), 0);
    finish(input, step, Ghost(spec_case(input@, 0)))
}

/// A `CASE` expression with a subject, or one without.
#[verifier::opaque]
pub open spec fn spec_case_expression(s: Seq<char>, pos: int) -> Parsed<CaseExpressionView>
    decreases left(s, pos), 1100nat,
{
    match spec_case(s, pos) {
        Parsed::Done(c, n) => Parsed::Done(CaseExpressionView::Simple(c), n),
        Parsed::Halt => Parsed::Halt,
        Parsed::Miss => match spec_searched_case(s, pos) {
            Parsed::Done(c, n) => Parsed::Done(CaseExpressionView::Searched(c), n),
            f => f.cast(),
        },
    }
}

/// Reads at `pos` what `spec_case_expression` describes: the value and the
/// position behind it, or the kind of failure.
pub fn case_expression_at(inp: &[char], pos: usize) -> (r: Step<CaseExpression>)
    requires
        pos <= inp@.len(),
    ensures
        agrees(r, inp@, pos as int, spec_case_expression(inp@, pos as int)),
    decreases left(inp@, pos as int), 1100nat,
{
    reveal(spec_case_expression);
    reveal(spec_case);
    reveal(spec_searched_case);
    reveal(crate::term::case::case_expression_view);
    reveal(crate::term::case::case_view);
    reveal(crate::term::case::searched_case_view);
    match case_at(inp, pos) {
        Ok((c, end)) => Ok((CaseExpression::Simple(c), end)),
        Err(ParseError::Failure) => Err(ParseError::Failure),
        Err(ParseError::Error) => match searched_case_at(inp, pos) {
            Ok((c, end)) => Ok((CaseExpression::Searched(c), end)),
            Err(e) => Err(e),
        },
    }
}

/// Parses a `CASE` expression at the start of `input`.
pub fn parse_case_expression(input: &str) -> (r: Result<(&str, CaseExpression), ParseError>)
    ensures
        parsed(r, input@, spec_case_expression(input@, 0)),
{
    let chars = chars_of(input);
    let step = case_expression_at(chars.as_slice(), 0);
    finish(input, step, Ghost(spec_case_expression(input@, 0)))
}

impl Clause for Case {
    open spec fn clause_keyword() -> Keyword {
        Keyword::Case
    }

    fn leading() -> (k: Keyword) {
        Keyword::Case
    }
}

impl Clause for SearchedCase {
    open spec fn clause_keyword() -> Keyword {
        Keyword::Case
    }

    fn leading() -> (k: Keyword) {
        Keyword::Case
    }
}

impl Format for CaseExpression {
    open spec fn rendered(&self, st: Layout) -> Layout
        decreases self,
    {
        match self {
            CaseExpression::Simple(c) => c.rendered(st),
            CaseExpression::Searched(c) => c.rendered(st),
        }
    }

    fn format<'a>(&self, f: &'a mut Formatter) -> (r: &'a mut Formatter)
        decreases self,
    {
        match self {
            CaseExpression::Simple(c) => c.format(f),
            CaseExpression::Searched(c) => c.format(f),
        }
    }
}

/// `WHEN`, the condition, `THEN` and the result, separated by single
/// spaces.
impl Format for When {
    open spec fn rendered(&self, st: Layout) -> Layout
        decreases self,
    {
        self.1.rendered(
            self.0.rendered(st.append(Keyword::When.spec_text()).space()).space().append(
                Keyword::Then.spec_text(),
            ).space(),
        )
    }

    fn format<'a>(&self, f: &'a mut Formatter) -> (r: &'a mut Formatter)
        decreases self,
    {
        f.append(Keyword::When.text()).ws();
        self.0.format(f).ws().append(Keyword::Then.text()).ws();
        self.1.format(f)
    }
}

impl Format for Else {
    open spec fn rendered(&self, st: Layout) -> Layout
        decreases self,
    {
        self.0.rendered(st.append(Keyword::Else.spec_text()).space())
    }

    fn format<'a>(&self, f: &'a mut Formatter) -> (r: &'a mut Formatter)
        decreases self,
    {
        f.append(Keyword::Else.text()).ws();
        self.0.format(f)
    }
}

/// The state behind the first `n` of `items`, each on a line of its own at
/// the column at which a clause body starts.
pub open spec fn render_whens(items: Vec<When>, n: nat, st: Layout) -> Layout
    decreases items, n,
{
    if n == 0 || n > items@.len() {
        st
    } else {
        items@[n - 1].rendered(render_whens(items, (n - 1) as nat, st).new_line().right_margin())
    }
}

/// The state behind an optional `ELSE` branch on a line of its own.
pub open spec fn render_else(branch: Option<Box<Else>>, st: Layout) -> Layout
    decreases branch, 1nat,
{
    match branch {
        Some(e) => e.rendered(st.new_line().right_margin()),
        None => st,
    }
}

fn format_else(branch: &Option<Box<Else>>, f: &mut Formatter)
    ensures
        final(f)@ == render_else(*branch, old(f)@),
    decreases branch, 1nat,
{
    match branch {
        Some(e) => {
            f.new_line().right_margin();
            e.format(f);
        },
        None => {},
    }
}

/// `CASE` and the subject in one line; then each branch and `END` on a
/// line of its own, at the column at which a clause body starts.
impl Format for Case {
    open spec fn rendered(&self, st: Layout) -> Layout
        decreases self,
    {
        render_else(
            self.2,
            render_whens(
                self.1,
                self.1@.len(),
                self.0.rendered(st.append(Keyword::Case.spec_text()).space()),
            ),
        ).new_line().right_margin().append(Keyword::End.spec_text())
    }

    fn format<'a>(&self, f: &'a mut Formatter) -> (r: &'a mut Formatter)
        decreases self,
    {
        f.append(Keyword::Case.text()).space();
        self.0.format(f);
        let ghost start = f@;
        let mut i: usize = 0;
        while i < self.1.len()
            invariant
                i <= self.1.len(),
                f@ == render_whens(self.1, i as nat, start),
            decreases self.1.len() - i,
        {
            f.new_line().right_margin();
            self.1[i].format(f);
            i += 1;
        }
        format_else(&self.2, f);
        f.new_line().right_margin().append(Keyword::End.text())
    }
}

/// `CASE` and a space; then the branches and `END`, each on a line of its
/// own, at the column at which a clause body starts.
impl Format for SearchedCase {
    open spec fn rendered(&self, st: Layout) -> Layout
        decreases self,
    {
        render_else(
            self.1,
            self.0.rendered(st.append(Keyword::Case.spec_text()).space().new_line().right_margin()),
        ).new_line().right_margin().append(Keyword::End.spec_text())
    }

    fn format<'a>(&self, f: &'a mut Formatter) -> (r: &'a mut Formatter)
        decreases self,
    {
        f.append(Keyword::Case.text()).space().new_line().right_margin();
        self.0.format(f);
        format_else(&self.1, f);
        f.new_line().right_margin().append(Keyword::End.text())
    }
}

} // verus!
