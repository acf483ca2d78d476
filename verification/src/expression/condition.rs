//! The three layers of a predicate: operands, conditions on operands, and
//! chains of conditions joined by `AND` and `OR`.
use crate::clause::Clause;
use crate::formatter::{Format, Formatter, Layout};
use crate::keyword::{keyword_ahead, keyword_at, spec_is_keyword, spec_keyword, Keyword};
use crate::list::List;
use crate::term::{parse_term_at, spec_parse_term, Term, TermView};
use crate::text::{
    agrees, chars_of, finish, left, parsed, skip_ws, spaced, spaced_step, spec_symbol, symbol_at,
    ws_count, ParseError, Parsed, Step,
};
use vstd::prelude::*;

verus! {

/// A comparison operator.
#[derive(Debug, Clone, Copy, PartialEq, Eq, Structural)]
pub enum Compare {
    GreaterThan,
    GreaterOrEqual,
    LowerThan,
    LowerOrEqual,
    Equal,
    NotEqual,
}

impl DeepView for Compare {
    type V = Compare;

    open spec fn deep_view(&self) -> Compare {
        *self
    }
}

/// An operand of a condition.
#[derive(Debug, PartialEq)]
pub enum Operand {
    Term(Term),
}

/// The view of `Operand`: the same tree with sequences of characters for its
/// strings and sequences of views for its lists.
#[verifier::ext_equal]
pub enum OperandView {
    Term(TermView),
}

/// The view of `x`.
#[verifier::opaque]
pub open spec fn operand_view(x: Operand) -> OperandView
    decreases x,
{
    match x {
        Operand::Term(x0) => OperandView::Term(crate::term::term_view(x0)),
    }
}

impl DeepView for Operand {
    type V = OperandView;

    open spec fn deep_view(&self) -> OperandView {
        operand_view(*self)
    }
}

/// What is at the right of `IN`.
#[derive(Debug, PartialEq)]
pub enum InPredicateValue {
    Subquery(Operand),
    InValueList(List<Operand>),
}

/// The view of `InPredicateValue`: the same tree with sequences of
/// characters for its strings and sequences of views for its lists.
#[verifier::ext_equal]
pub enum InPredicateValueView {
    Subquery(OperandView),
    InValueList(Seq<OperandView>),
}

/// The view of `x`.
#[verifier::opaque]
pub open spec fn in_predicate_value_view(x: InPredicateValue) -> InPredicateValueView
    decreases x,
{
    match x {
        InPredicateValue::Subquery(x0) => InPredicateValueView::Subquery(
            crate::expression::condition::operand_view(x0),
        ),
        InPredicateValue::InValueList(x0) => InPredicateValueView::InValueList(
            Seq::new(
                x0.0@.len(),
                |i: int| if 0 <= i < x0.0@.len() {
                    crate::expression::condition::operand_view(x0.0@[i])
                } else {
                    arbitrary()
                },
            ),
        ),
    }
}

impl DeepView for InPredicateValue {
    type V = InPredicateValueView;

    open spec fn deep_view(&self) -> InPredicateValueView {
        in_predicate_value_view(*self)
    }
}

/// The predicate that follows the left operand of a condition.
#[derive(Debug, PartialEq)]
pub enum RightOperand {
    Compare(Compare, Operand),
    In(InPredicateValue),
    Like(Operand),
    Between(Operand, Operand),
    Null(bool),
}

/// The view of `RightOperand`: the same tree with sequences of characters
/// for its strings and sequences of views for its lists.
#[verifier::ext_equal]
pub enum RightOperandView {
    Compare(Compare, OperandView),
    In(InPredicateValueView),
    Like(OperandView),
    Between(OperandView, OperandView),
    Null(bool),
}

/// The view of `x`.
#[verifier::opaque]
pub open spec fn right_operand_view(x: RightOperand) -> RightOperandView
    decreases x,
{
    match x {
        RightOperand::Compare(x0, x1) => RightOperandView::Compare(
            x0,
            crate::expression::condition::operand_view(x1),
        ),
        RightOperand::In(x0) => RightOperandView::In(
            crate::expression::condition::in_predicate_value_view(x0),
        ),
        RightOperand::Like(x0) => RightOperandView::Like(
            crate::expression::condition::operand_view(x0),
        ),
        RightOperand::Between(x0, x1) => RightOperandView::Between(
            crate::expression::condition::operand_view(x0),
            crate::expression::condition::operand_view(x1),
        ),
        RightOperand::Null(x0) => RightOperandView::Null(x0),
    }
}

impl DeepView for RightOperand {
    type V = RightOperandView;

    open spec fn deep_view(&self) -> RightOperandView {
        right_operand_view(*self)
    }
}

/// An operand alone, or an operand and the predicate on it.
#[derive(Debug, PartialEq)]
pub enum Condition {
    Operand(Operand),
    BinaryExpression(Operand, RightOperand),
}

/// The view of `Condition`: the same tree with sequences of characters for
/// its strings and sequences of views for its lists.
#[verifier::ext_equal]
pub enum ConditionView {
    Operand(OperandView),
    BinaryExpression(OperandView, RightOperandView),
}

/// The view of `x`.
#[verifier::opaque]
pub open spec fn condition_view(x: Condition) -> ConditionView
    decreases x,
{
    match x {
        Condition::Operand(x0) => ConditionView::Operand(
            crate::expression::condition::operand_view(x0),
        ),
        Condition::BinaryExpression(x0, x1) => ConditionView::BinaryExpression(
            crate::expression::condition::operand_view(x0),
            crate::expression::condition::right_operand_view(x1),
        ),
    }
}

impl DeepView for Condition {
    type V = ConditionView;

    open spec fn deep_view(&self) -> ConditionView {
        condition_view(*self)
    }
}

/// A condition, bare or behind `AND` or `OR`.
#[derive(Debug, PartialEq)]
pub enum Expression {
    Condition(Condition),
    AndExpression(Condition),
    OrExpression(Condition),
}

/// The view of `Expression`: the same tree with sequences of characters for
/// its strings and sequences of views for its lists.
#[verifier::ext_equal]
pub enum ExpressionView {
    Condition(ConditionView),
    AndExpression(ConditionView),
    OrExpression(ConditionView),
}

/// The view of `x`.
#[verifier::opaque]
pub open spec fn expression_view(x: Expression) -> ExpressionView
    decreases x,
{
    match x {
        Expression::Condition(x0) => ExpressionView::Condition(
            crate::expression::condition::condition_view(x0),
        ),
        Expression::AndExpression(x0) => ExpressionView::AndExpression(
            crate::expression::condition::condition_view(x0),
        ),
        Expression::OrExpression(x0) => ExpressionView::OrExpression(
            crate::expression::condition::condition_view(x0),
        ),
    }
}

impl DeepView for Expression {
    type V = ExpressionView;

    open spec fn deep_view(&self) -> ExpressionView {
        expression_view(*self)
    }
}

/// `WHERE` and its conditions.
#[derive(Debug, PartialEq)]
pub struct WhereClause(pub List<Expression>);

/// The view of `WhereClause`: the same tree with sequences of characters for
/// its strings and sequences of views for its lists.
#[verifier::ext_equal]
pub struct WhereClauseView(pub Seq<ExpressionView>);

/// The view of `x`.
#[verifier::opaque]
pub open spec fn where_clause_view(x: WhereClause) -> WhereClauseView
    decreases x,
{
    WhereClauseView(
        Seq::new(
            x.0.0@.len(),
            |i: int| if 0 <= i < x.0.0@.len() {
                crate::expression::condition::expression_view(x.0.0@[i])
            } else {
                arbitrary()
            },
        ),
    )
}

impl DeepView for WhereClause {
    type V = WhereClauseView;

    open spec fn deep_view(&self) -> WhereClauseView {
        where_clause_view(*self)
    }
}

/// A comparison operator: `>=`, `<=`, `>`, `<`, `=` or `!=`, tried in that
/// order, so that the longer of two operators wins.
#[verifier::opaque]
pub open spec fn spec_compare(s: Seq<char>, pos: int) -> Parsed<Compare> {
    if !(0 <= pos < s.len()) {
        Parsed::Miss
    } else if s[pos] == '>' && pos + 1 < s.len() && s[pos + 1] == '=' {
        Parsed::Done(Compare::GreaterOrEqual, 2)
    } else if s[pos] == '<' && pos + 1 < s.len() && s[pos + 1] == '=' {
        Parsed::Done(Compare::LowerOrEqual, 2)
    } else if s[pos] == '>' {
        Parsed::Done(Compare::GreaterThan, 1)
    } else if s[pos] == '<' {
        Parsed::Done(Compare::LowerThan, 1)
    } else if s[pos] == '=' {
        Parsed::Done(Compare::Equal, 1)
    } else if s[pos] == '!' && pos + 1 < s.len() && s[pos + 1] == '=' {
        Parsed::Done(Compare::NotEqual, 2)
    } else {
        Parsed::Miss
    }
}

/// Reads at `pos` what `spec_compare` describes: the value and the position
/// behind it, or the kind of failure.
pub fn compare_at(inp: &[char], pos: usize) -> (r: Step<Compare>)
    requires
        pos <= inp@.len(),
    ensures
        agrees(r, inp@, pos as int, spec_compare(inp@, pos as int)),
{
    reveal(spec_compare);
    if pos >= inp.len() {
        return Err(ParseError::Error);
    }
    let c = inp[pos];
    let equals_next = pos + 1 < inp.len() && inp[pos + 1] == '=';
    if c == '>' && equals_next {
        Ok((Compare::GreaterOrEqual, pos + 2))
    } else if c == '<' && equals_next {
        Ok((Compare::LowerOrEqual, pos + 2))
    } else if c == '>' {
        Ok((Compare::GreaterThan, pos + 1))
    } else if c == '<' {
        Ok((Compare::LowerThan, pos + 1))
    } else if c == '=' {
        Ok((Compare::Equal, pos + 1))
    } else if c == '!' && equals_next {
        Ok((Compare::NotEqual, pos + 2))
    } else {
        Err(ParseError::Error)
    }
}

/// Parses a comparison operator at the start of `input`.
pub fn compare(input: &str) -> (r: Result<(&str, Compare), ParseError>)
    ensures
        parsed(r, input@, spec_compare(input@, 0)),
{
    let chars = chars_of(input);
    let step = compare_at(chars.as_slice(), 0);
    finish(input, step, Ghost(spec_compare(input@, 0)))
}

/// A comparison operator, with whitespace allowed on both sides.
#[verifier::opaque]
pub open spec fn spec_ws_compare(s: Seq<char>, pos: int) -> Parsed<Compare>
    decreases left(s, pos), 10nat,
{
    spaced(s, pos, spec_compare(s, pos + ws_count(s, pos)))
}

/// Reads at `pos` what `spec_ws_compare` describes: the value and the
/// position behind it, or the kind of failure.
pub fn ws_compare_at(inp: &[char], pos: usize) -> (r: Step<Compare>)
    requires
        pos <= inp@.len(),
    ensures
        agrees(r, inp@, pos as int, spec_ws_compare(inp@, pos as int)),
    decreases left(inp@, pos as int), 10nat,
{
    reveal(spec_ws_compare);
    let start = skip_ws(inp, pos);
    let step = compare_at(inp, start);
    spaced_step(inp, pos, step, Ghost(spec_compare(inp@, pos + ws_count(inp@, pos as int))))
}

/// An operand: a term, unless the token at `pos` spells a reserved word.
#[verifier::opaque]
pub open spec fn spec_operand(s: Seq<char>, pos: int) -> Parsed<OperandView>
    decreases left(s, pos), 1180nat,
{
    if spec_is_keyword(s, pos) is Done {
        Parsed::Miss
    } else {
        match spec_parse_term(s, pos) {
            Parsed::Done(t, n) => Parsed::Done(OperandView::Term(t), n),
            f => f.cast(),
        }
    }
}

/// Reads at `pos` what `spec_operand` describes: the value and the position
/// behind it, or the kind of failure.
pub fn operand_at(inp: &[char], pos: usize) -> (r: Step<Operand>)
    requires
        pos <= inp@.len(),
    ensures
        agrees(r, inp@, pos as int, spec_operand(inp@, pos as int)),
    decreases left(inp@, pos as int), 1180nat,
{
    reveal(spec_operand);
    reveal(spec_parse_term);
    reveal(crate::expression::condition::operand_view);
    reveal(crate::term::term_view);
    if keyword_ahead(inp, pos).is_ok() {
        return Err(ParseError::Error);
    }
    match parse_term_at(inp, pos) {
        Ok((t, end)) => Ok((Operand::Term(t), end)),
        Err(e) => Err(e),
    }
}

/// Parses an operand at the start of `input`.
pub fn operand(input: &str) -> (r: Result<(&str, Operand), ParseError>)
    ensures
        parsed(r, input@, spec_operand(input@, 0)),
{
    let chars = chars_of(input);
    let step = operand_at(chars.as_slice(), 0);
    finish(input, step, Ghost(spec_operand(input@, 0)))
}

/// An operand, with whitespace allowed on both sides.
#[verifier::opaque]
pub open spec fn spec_ws_operand(s: Seq<char>, pos: int) -> Parsed<OperandView>
    decreases left(s, pos), 1190nat,
{
    spaced(s, pos, spec_operand(s, pos + ws_count(s, pos)))
}

/// Reads at `pos` what `spec_ws_operand` describes: the value and the
/// position behind it, or the kind of failure.
pub fn ws_operand_at(inp: &[char], pos: usize) -> (r: Step<Operand>)
    requires
        pos <= inp@.len(),
    ensures
        agrees(r, inp@, pos as int, spec_ws_operand(inp@, pos as int)),
    decreases left(inp@, pos as int), 1190nat,
{
    reveal(spec_ws_operand);
    reveal(spec_operand);
    reveal(crate::expression::condition::operand_view);
    reveal(crate::term::term_view);
    let start = skip_ws(inp, pos);
    let step = operand_at(inp, start);
    spaced_step(inp, pos, step, Ghost(spec_operand(inp@, pos + ws_count(inp@, pos as int))))
}

/// The elements that follow in a list of which `acc` has been read: a
/// comma and an element, as often as both are there.
#[verifier::opaque]
pub open spec fn spec_operands_more(s: Seq<char>, pos: int, acc: Seq<OperandView>) -> Parsed<
    Seq<OperandView>,
>
    decreases left(s, pos), 1209nat,
{
    match spec_symbol(s, pos, ',') {
        Parsed::Done(_, k) => match spec_ws_operand(s, pos + k) {
            Parsed::Done(x, n) => spec_operands_more(s, pos + k + n, acc.push(x)).after(k + n),
            Parsed::Halt => Parsed::Halt,
            Parsed::Miss => Parsed::Done(acc, 0),
        },
        _ => Parsed::Done(acc, 0),
    }
}

/// Operands, separated by commas.
#[verifier::opaque]
pub open spec fn spec_operands(s: Seq<char>, pos: int) -> Parsed<Seq<OperandView>>
    decreases left(s, pos), 1210nat,
{
    match spec_ws_operand(s, pos) {
        Parsed::Done(x, n) => spec_operands_more(s, pos + n, seq![x]).after(n),
        Parsed::Halt => Parsed::Halt,
        Parsed::Miss => Parsed::Done(Seq::empty(), 0),
    }
}

/// Reads at `pos` what `spec_operands` describes: the value and the position
/// behind it, or the kind of failure.
pub fn operands_at(inp: &[char], pos: usize) -> (r: Step<Vec<Operand>>)
    requires
        pos <= inp@.len(),
    ensures
        agrees(r, inp@, pos as int, spec_operands(inp@, pos as int)),
    decreases left(inp@, pos as int), 1210nat,
{
    reveal(spec_operands);
    reveal(spec_ws_operand);
    reveal(spec_operands_more);
    reveal(spec_symbol);
    let mut acc: Vec<Operand> = Vec::new();
    let (first, start) = match ws_operand_at(inp, pos) {
        Ok(done) => done,
        Err(ParseError::Failure) => return Err(ParseError::Failure),
        Err(ParseError::Error) => {
            assert(acc.deep_view() =~= Seq::empty());
            return Ok((acc, pos));
        },
    };
    let ghost whole = spec_operands_more(inp@, start as int, seq![first.deep_view()]);
    let ghost mut xv = first.deep_view();
    acc.push(first);
    assert(acc.deep_view() =~= seq![xv]);
    let mut cur = start;
    reveal(spec_operands_more);
    reveal(spec_ws_operand);
    loop
        invariant
            pos <= start <= cur <= inp@.len(),
            spec_operands(inp@, pos as int) == whole.after((start - pos) as nat),
            whole == spec_operands_more(inp@, cur as int, acc.deep_view()).after(
                (cur - start) as nat,
            ),
        decreases inp@.len() - cur,
    {
        reveal(spec_operands_more);
        reveal(spec_ws_operand);
        let p1 = match symbol_at(inp, cur, ',') {
            Ok((_, p)) => p,
            Err(_) => return Ok((acc, cur)),
        };
        match ws_operand_at(inp, p1) {
            Ok((x, p2)) => {
                let ghost before = acc.deep_view();
                proof {
                    xv = x.deep_view();
                }
                acc.push(x);
                assert(acc.deep_view() =~= before.push(xv));
                cur = p2;
            },
            Err(ParseError::Failure) => return Err(ParseError::Failure),
            Err(ParseError::Error) => return Ok((acc, cur)),
        }
    }
}

/// What is at the right of `IN`: an operand, or a list of operands between
/// parentheses.
#[verifier::opaque]
pub open spec fn spec_in_predicate_value(s: Seq<char>, pos: int) -> Parsed<InPredicateValueView>
    decreases left(s, pos), 1215nat,
{
    match spec_operand(s, pos) {
        Parsed::Done(o, n) => Parsed::Done(InPredicateValueView::Subquery(o), n),
        Parsed::Halt => Parsed::Halt,
        Parsed::Miss => match spec_symbol(s, pos, '(') {
            Parsed::Done(_, k) => match spec_operands(s, pos + k) {
                Parsed::Done(list, n) => match spec_symbol(s, pos + k + n, ')') {
                    Parsed::Done(_, m) => Parsed::Done(
                        InPredicateValueView::InValueList(list),
                        k + n + m,
                    ),
                    _ => Parsed::Miss,
                },
                f => f.cast(),
            },
            _ => Parsed::Miss,
        },
    }
}

/// Reads at `pos` what `spec_in_predicate_value` describes: the value and
/// the position behind it, or the kind of failure.
pub fn in_predicate_value_at(inp: &[char], pos: usize) -> (r: Step<InPredicateValue>)
    requires
        pos <= inp@.len(),
    ensures
        agrees(r, inp@, pos as int, spec_in_predicate_value(inp@, pos as int)),
    decreases left(inp@, pos as int), 1215nat,
{
    reveal(spec_in_predicate_value);
    reveal(spec_operand);
    reveal(spec_operands);
    reveal(crate::expression::condition::in_predicate_value_view);
    reveal(crate::expression::condition::operand_view);
    match operand_at(inp, pos) {
        Ok((o, end)) => return Ok((InPredicateValue::Subquery(o), end)),
        Err(ParseError::Failure) => return Err(ParseError::Failure),
        Err(ParseError::Error) => {},
    }
    let p1 = match symbol_at(inp, pos, '(') {
        Ok((_, p)) => p,
        Err(_) => return Err(ParseError::Error),
    };
    let (list, p2) = match operands_at(inp, p1) {
        Ok(done) => done,
        Err(e) => return Err(e),
    };
    match symbol_at(inp, p2, ')') {
        Ok((_, end)) => {
            let ghost views = list.deep_view();
            let value = InPredicateValue::InValueList(List(list));
            proof {
                let got = value.deep_view()->InValueList_0;
                assert(got.len() == views.len());
                assert forall|i: int| 0 <= i < views.len() implies got[i] == views[i] by {
                    assert(views[i] == value->InValueList_0.0@[i].deep_view());
                    assert(got[i] == value->InValueList_0.0@[i].deep_view());
                }
                assert(got =~= views);
            }
            assert(value.deep_view() =~= InPredicateValueView::InValueList(views));
            Ok((value, end))
        },
        Err(_) => Err(ParseError::Error),
    }
}

/// Parses what is at the right of `IN`, at the start of `input`.
pub fn parse_in_predicate_value(input: &str) -> (r: Result<(&str, InPredicateValue), ParseError>)
    ensures
        parsed(r, input@, spec_in_predicate_value(input@, 0)),
{
    let chars = chars_of(input);
    let step = in_predicate_value_at(chars.as_slice(), 0);
    finish(input, step, Ghost(spec_in_predicate_value(input@, 0)))
}

/// `LIKE` and an operand.
#[verifier::opaque]
pub open spec fn spec_like(s: Seq<char>, pos: int) -> Parsed<RightOperandView>
    decreases left(s, pos), 1220nat,
{
    match spec_keyword(s, pos, Keyword::Like) {
        Parsed::Done(_, k) => match spec_ws_operand(s, pos + k) {
            Parsed::Done(o, n) => Parsed::Done(RightOperandView::Like(o), k + n),
            f => f.cast(),
        },
        _ => Parsed::Miss,
    }
}

/// Reads at `pos` what `spec_like` describes: the value and the position
/// behind it, or the kind of failure.
fn like_at(inp: &[char], pos: usize) -> (r: Step<RightOperand>)
    requires
        pos <= inp@.len(),
    ensures
        agrees(r, inp@, pos as int, spec_like(inp@, pos as int)),
    decreases left(inp@, pos as int), 1220nat,
{
    reveal(spec_like);
    reveal(spec_ws_operand);
    reveal(crate::expression::condition::right_operand_view);
    reveal(crate::expression::condition::operand_view);
    reveal(crate::expression::condition::in_predicate_value_view);
    let p1 = match keyword_at(inp, pos, Keyword::Like) {
        Ok((_, p)) => p,
        Err(_) => return Err(ParseError::Error),
    };
    proof {
        Keyword::Like.text_width();
    }
    match ws_operand_at(inp, p1) {
        Ok((o, end)) => Ok((RightOperand::Like(o), end)),
        Err(e) => Err(e),
    }
}

/// `IS NULL`, or `IS NOT NULL`.
#[verifier::opaque]
pub open spec fn spec_null_test(s: Seq<char>, pos: int) -> Parsed<RightOperandView> {
    match spec_keyword(s, pos, Keyword::Is) {
        Parsed::Done(_, k) => match spec_keyword(s, pos + k, Keyword::Null) {
            Parsed::Done(_, n) => Parsed::Done(RightOperandView::Null(true), k + n),
            _ => match spec_keyword(s, pos + k, Keyword::Not) {
                Parsed::Done(_, n) => match spec_keyword(s, pos + k + n, Keyword::Null) {
                    Parsed::Done(_, m) => Parsed::Done(RightOperandView::Null(false), k + n + m),
                    _ => Parsed::Miss,
                },
                _ => Parsed::Miss,
            },
        },
        _ => Parsed::Miss,
    }
}

/// Reads at `pos` what `spec_null_test` describes: the value and the
/// position behind it, or the kind of failure.
fn null_test_at(inp: &[char], pos: usize) -> (r: Step<RightOperand>)
    requires
        pos <= inp@.len(),
    ensures
        agrees(r, inp@, pos as int, spec_null_test(inp@, pos as int)),
{
    reveal(spec_null_test);
    reveal(crate::expression::condition::right_operand_view);
    reveal(crate::expression::condition::operand_view);
    reveal(crate::expression::condition::in_predicate_value_view);
    let p1 = match keyword_at(inp, pos, Keyword::Is) {
        Ok((_, p)) => p,
        Err(_) => return Err(ParseError::Error),
    };
    if let Ok((_, end)) = keyword_at(inp, p1, Keyword::Null) {
        return Ok((RightOperand::Null(true), end));
    }
    let p2 = match keyword_at(inp, p1, Keyword::Not) {
        Ok((_, p)) => p,
        Err(_) => return Err(ParseError::Error),
    };
    match keyword_at(inp, p2, Keyword::Null) {
        Ok((_, end)) => Ok((RightOperand::Null(false), end)),
        Err(_) => Err(ParseError::Error),
    }
}

/// `BETWEEN`, an operand, `AND` and an operand.
#[verifier::opaque]
pub open spec fn spec_between(s: Seq<char>, pos: int) -> Parsed<RightOperandView>
    decreases left(s, pos), 1220nat,
{
    match spec_keyword(s, pos, Keyword::Between) {
        Parsed::Done(_, k) => match spec_ws_operand(s, pos + k) {
            Parsed::Done(low, n) => match spec_keyword(s, pos + k + n, Keyword::And) {
                Parsed::Done(_, m) => match spec_ws_operand(s, pos + k + n + m) {
                    Parsed::Done(high, j) => Parsed::Done(
                        RightOperandView::Between(low, high),
                        k + n + m + j,
                    ),
                    f => f.cast(),
                },
                _ => Parsed::Miss,
            },
            f => f.cast(),
        },
        _ => Parsed::Miss,
    }
}

/// Reads at `pos` what `spec_between` describes: the value and the position
/// behind it, or the kind of failure.
fn between_at(inp: &[char], pos: usize) -> (r: Step<RightOperand>)
    requires
        pos <= inp@.len(),
    ensures
        agrees(r, inp@, pos as int, spec_between(inp@, pos as int)),
    decreases left(inp@, pos as int), 1220nat,
{
    reveal(spec_between);
    reveal(spec_ws_operand);
    reveal(crate::expression::condition::right_operand_view);
    reveal(crate::expression::condition::operand_view);
    reveal(crate::expression::condition::in_predicate_value_view);
    let p1 = match keyword_at(inp, pos, Keyword::Between) {
        Ok((_, p)) => p,
        Err(_) => return Err(ParseError::Error),
    };
    proof {
        Keyword::Between.text_width();
    }
    let (low, p2) = match ws_operand_at(inp, p1) {
        Ok(done) => done,
        Err(e) => return Err(e),
    };
    let p3 = match keyword_at(inp, p2, Keyword::And) {
        Ok((_, p)) => p,
        Err(_) => return Err(ParseError::Error),
    };
    match ws_operand_at(inp, p3) {
        Ok((high, end)) => Ok((RightOperand::Between(low, high), end)),
        Err(e) => Err(e),
    }
}

/// `IN` and what is at its right.
#[verifier::opaque]
pub open spec fn spec_in(s: Seq<char>, pos: int) -> Parsed<RightOperandView>
    decreases left(s, pos), 1220nat,
{
    match spec_keyword(s, pos, Keyword::In) {
        Parsed::Done(_, k) => match spec_in_predicate_value(s, pos + k) {
            Parsed::Done(v, n) => Parsed::Done(RightOperandView::In(v), k + n),
            f => f.cast(),
        },
        _ => Parsed::Miss,
    }
}

/// Reads at `pos` what `spec_in` describes: the value and the position
/// behind it, or the kind of failure.
fn in_at(inp: &[char], pos: usize) -> (r: Step<RightOperand>)
    requires
        pos <= inp@.len(),
    ensures
        agrees(r, inp@, pos as int, spec_in(inp@, pos as int)),
    decreases left(inp@, pos as int), 1220nat,
{
    reveal(spec_in);
    reveal(spec_in_predicate_value);
    reveal(crate::expression::condition::right_operand_view);
    reveal(crate::expression::condition::operand_view);
    reveal(crate::expression::condition::in_predicate_value_view);
    let p1 = match keyword_at(inp, pos, Keyword::In) {
        Ok((_, p)) => p,
        Err(_) => return Err(ParseError::Error),
    };
    proof {
        Keyword::In.text_width();
    }
    match in_predicate_value_at(inp, p1) {
        Ok((v, end)) => Ok((RightOperand::In(v), end)),
        Err(e) => Err(e),
    }
}

/// A comparison operator and an operand.
#[verifier::opaque]
pub open spec fn spec_comparison(s: Seq<char>, pos: int) -> Parsed<RightOperandView>
    decreases left(s, pos), 1220nat,
{
    match spec_ws_compare(s, pos) {
        Parsed::Done(op, k) => match spec_ws_operand(s, pos + k) {
            Parsed::Done(o, n) => Parsed::Done(RightOperandView::Compare(op, o), k + n),
            f => f.cast(),
        },
        _ => Parsed::Miss,
    }
}

/// Reads at `pos` what `spec_comparison` describes: the value and the
/// position behind it, or the kind of failure.
fn comparison_at(inp: &[char], pos: usize) -> (r: Step<RightOperand>)
    requires
        pos <= inp@.len(),
    ensures
        agrees(r, inp@, pos as int, spec_comparison(inp@, pos as int)),
    decreases left(inp@, pos as int), 1220nat,
{
    reveal(spec_comparison);
    reveal(spec_ws_operand);
    reveal(crate::expression::condition::right_operand_view);
    reveal(crate::expression::condition::operand_view);
    reveal(crate::expression::condition::in_predicate_value_view);
    let (op, p1) = match ws_compare_at(inp, pos) {
        Ok(done) => done,
        Err(_) => return Err(ParseError::Error),
    };
    match ws_operand_at(inp, p1) {
        Ok((o, end)) => Ok((RightOperand::Compare(op, o), end)),
        Err(e) => Err(e),
    }
}

/// The predicate on a left operand: `LIKE`, `IS [NOT] NULL`, `BETWEEN`,
/// `IN` or a comparison, tried in that order.
#[verifier::opaque]
pub open spec fn spec_right_operand(s: Seq<char>, pos: int) -> Parsed<RightOperandView>
    decreases left(s, pos), 1230nat,
{
    spec_like(s, pos).or(spec_null_test(s, pos)).or(spec_between(s, pos)).or(spec_in(s, pos)).or(
        spec_comparison(s, pos),
    )
}

/// Reads at `pos` what `spec_right_operand` describes: the value and the
/// position behind it, or the kind of failure.
pub fn right_operand_at(inp: &[char], pos: usize) -> (r: Step<RightOperand>)
    requires
        pos <= inp@.len(),
    ensures
        agrees(r, inp@, pos as int, spec_right_operand(inp@, pos as int)),
    decreases left(inp@, pos as int), 1230nat,
{
    reveal(spec_right_operand);
    reveal(spec_like);
    reveal(spec_between);
    reveal(spec_in);
    reveal(spec_comparison);
    reveal(crate::expression::condition::right_operand_view);
    reveal(crate::expression::condition::operand_view);
    reveal(crate::expression::condition::in_predicate_value_view);
    match like_at(inp, pos) {
        Err(ParseError::Error) => {},
        other => return other,
    }
    match null_test_at(inp, pos) {
        Err(ParseError::Error) => {},
        other => return other,
    }
    match between_at(inp, pos) {
        Err(ParseError::Error) => {},
        other => return other,
    }
    match in_at(inp, pos) {
        Err(ParseError::Error) => {},
        other => return other,
    }
    comparison_at(inp, pos)
}

/// Parses the predicate on a left operand at the start of `input`.
pub fn right_operand(input: &str) -> (r: Result<(&str, RightOperand), ParseError>)
    ensures
        parsed(r, input@, spec_right_operand(input@, 0)),
{
    let chars = chars_of(input);
    let step = right_operand_at(chars.as_slice(), 0);
    finish(input, step, Ghost(spec_right_operand(input@, 0)))
}

/// A condition: an operand and the predicate on it, or an operand alone.
#[verifier::opaque]
pub open spec fn spec_condition(s: Seq<char>, pos: int) -> Parsed<ConditionView>
    decreases left(s, pos), 1240nat,
{
    match spec_ws_operand(s, pos) {
        Parsed::Done(o, n) => match spec_right_operand(s, pos + n) {
            Parsed::Done(r, m) => Parsed::Done(ConditionView::BinaryExpression(o, r), n + m),
            Parsed::Halt => Parsed::Halt,
            Parsed::Miss => Parsed::Done(ConditionView::Operand(o), n),
        },
        f => f.cast(),
    }
}

/// Reads at `pos` what `spec_condition` describes: the value and the
/// position behind it, or the kind of failure.
pub fn condition_at(inp: &[char], pos: usize) -> (r: Step<Condition>)
    requires
        pos <= inp@.len(),
    ensures
        agrees(r, inp@, pos as int, spec_condition(inp@, pos as int)),
    decreases left(inp@, pos as int), 1240nat,
{
    reveal(spec_condition);
    reveal(spec_ws_operand);
    reveal(spec_right_operand);
    reveal(crate::expression::condition::condition_view);
    reveal(crate::expression::condition::operand_view);
    reveal(crate::expression::condition::right_operand_view);
    let (o, p1) = match ws_operand_at(inp, pos) {
        Ok(done) => done,
        Err(e) => return Err(e),
    };
    match right_operand_at(inp, p1) {
        Ok((right, end)) => Ok((Condition::BinaryExpression(o, right), end)),
        Err(ParseError::Failure) => Err(ParseError::Failure),
        Err(ParseError::Error) => Ok((Condition::Operand(o), p1)),
    }
}

/// Parses a condition at the start of `input`.
pub fn condition(input: &str) -> (r: Result<(&str, Condition), ParseError>)
    ensures
        parsed(r, input@, spec_condition(input@, 0)),
{
    let chars = chars_of(input);
    let step = condition_at(chars.as_slice(), 0);
    finish(input, step, Ghost(spec_condition(input@, 0)))
}

/// A condition, with whitespace allowed on both sides.
#[verifier::opaque]
pub open spec fn spec_ws_condition(s: Seq<char>, pos: int) -> Parsed<ConditionView>
    decreases left(s, pos), 1250nat,
{
    spaced(s, pos, spec_condition(s, pos + ws_count(s, pos)))
}

/// Reads at `pos` what `spec_ws_condition` describes: the value and the
/// position behind it, or the kind of failure.
pub fn ws_condition_at(inp: &[char], pos: usize) -> (r: Step<Condition>)
    requires
        pos <= inp@.len(),
    ensures
        agrees(r, inp@, pos as int, spec_ws_condition(inp@, pos as int)),
    decreases left(inp@, pos as int), 1250nat,
{
    reveal(spec_ws_condition);
    reveal(spec_condition);
    reveal(crate::expression::condition::condition_view);
    reveal(crate::expression::condition::operand_view);
    reveal(crate::expression::condition::right_operand_view);
    let start = skip_ws(inp, pos);
    let step = condition_at(inp, start);
    spaced_step(inp, pos, step, Ghost(spec_condition(inp@, pos + ws_count(inp@, pos as int))))
}

/// A link of a chain of conditions: `AND` and a condition, `OR` and a
/// condition, or a condition.
#[verifier::opaque]
pub open spec fn spec_expression(s: Seq<char>, pos: int) -> Parsed<ExpressionView>
    decreases left(s, pos), 1260nat,
{
    let bare = match spec_ws_condition(s, pos) {
        Parsed::Done(c, n) => Parsed::Done(ExpressionView::Condition(c), n),
        f => f.cast(),
    };
    let or = match spec_keyword(s, pos, Keyword::Or) {
        Parsed::Done(_, k) => match spec_condition(s, pos + k) {
            Parsed::Done(c, n) => Parsed::Done(ExpressionView::OrExpression(c), k + n),
            Parsed::Halt => Parsed::Halt,
            Parsed::Miss => bare,
        },
        _ => bare,
    };
    match spec_keyword(s, pos, Keyword::And) {
        Parsed::Done(_, k) => match spec_condition(s, pos + k) {
            Parsed::Done(c, n) => Parsed::Done(ExpressionView::AndExpression(c), k + n),
            Parsed::Halt => Parsed::Halt,
            Parsed::Miss => or,
        },
        _ => or,
    }
}

/// Reads at `pos` what `spec_expression` describes: the value and the
/// position behind it, or the kind of failure.
pub fn expression_at(inp: &[char], pos: usize) -> (r: Step<Expression>)
    requires
        pos <= inp@.len(),
    ensures
        agrees(r, inp@, pos as int, spec_expression(inp@, pos as int)),
    decreases left(inp@, pos as int), 1260nat,
{
    reveal(spec_expression);
    reveal(spec_ws_condition);
    reveal(spec_condition);
    reveal(crate::expression::condition::expression_view);
    reveal(crate::expression::condition::condition_view);
    proof {
        Keyword::And.text_width();
        Keyword::Or.text_width();
    }
    if let Ok((_, p1)) = keyword_at(inp, pos, Keyword::And) {
        match condition_at(inp, p1) {
            Ok((c, end)) => return Ok((Expression::AndExpression(c), end)),
            Err(ParseError::Failure) => return Err(ParseError::Failure),
            Err(ParseError::Error) => {},
        }
    }
    if let Ok((_, p1)) = keyword_at(inp, pos, Keyword::Or) {
        match condition_at(inp, p1) {
            Ok((c, end)) => return Ok((Expression::OrExpression(c), end)),
            Err(ParseError::Failure) => return Err(ParseError::Failure),
            Err(ParseError::Error) => {},
        }
    }
    match ws_condition_at(inp, pos) {
        Ok((c, end)) => Ok((Expression::Condition(c), end)),
        Err(e) => Err(e),
    }
}

/// Parses one link of a chain of conditions at the start of `input`.
pub fn parse_expression(input: &str) -> (r: Result<(&str, Expression), ParseError>)
    ensures
        parsed(r, input@, spec_expression(input@, 0)),
{
    let chars = chars_of(input);
    let step = expression_at(chars.as_slice(), 0);
    finish(input, step, Ghost(spec_expression(input@, 0)))
}

/// A link of a chain of conditions, with whitespace allowed on both sides.
#[verifier::opaque]
pub open spec fn spec_ws_expression(s: Seq<char>, pos: int) -> Parsed<ExpressionView>
    decreases left(s, pos), 1270nat,
{
    spaced(s, pos, spec_expression(s, pos + ws_count(s, pos)))
}

/// Reads at `pos` what `spec_ws_expression` describes: the value and the
/// position behind it, or the kind of failure.
pub fn ws_expression_at(inp: &[char], pos: usize) -> (r: Step<Expression>)
    requires
        pos <= inp@.len(),
    ensures
        agrees(r, inp@, pos as int, spec_ws_expression(inp@, pos as int)),
    decreases left(inp@, pos as int), 1270nat,
{
    reveal(spec_ws_expression);
    reveal(spec_expression);
    reveal(crate::expression::condition::expression_view);
    reveal(crate::expression::condition::condition_view);
    let start = skip_ws(inp, pos);
    let step = expression_at(inp, start);
    spaced_step(inp, pos, step, Ghost(spec_expression(inp@, pos + ws_count(inp@, pos as int))))
}

/// The elements that follow in a sequence of which `acc` has been read,
/// as many as are there. An element that consumes nothing ends the
/// sequence with a mismatch.
#[verifier::opaque]
pub open spec fn spec_expressions_more(s: Seq<char>, pos: int, acc: Seq<ExpressionView>) -> Parsed<
    Seq<ExpressionView>,
>
    decreases left(s, pos), 1289nat,
{
    match spec_expression(s, pos) {
        Parsed::Done(x, n) => if n == 0 || pos + n > s.len() {
            Parsed::Miss
        } else {
            spec_expressions_more(s, pos + n, acc.push(x)).after(n)
        },
        Parsed::Halt => Parsed::Halt,
        Parsed::Miss => Parsed::Done(acc, 0),
    }
}

/// A chain of conditions: one or more links.
#[verifier::opaque]
pub open spec fn spec_expressions(s: Seq<char>, pos: int) -> Parsed<Seq<ExpressionView>>
    decreases left(s, pos), 1290nat,
{
    match spec_expression(s, pos) {
        Parsed::Done(x, n) => spec_expressions_more(s, pos + n, seq![x]).after(n),
        f => f.cast(),
    }
}

/// Reads at `pos` what `spec_expressions` describes: the value and the
/// position behind it, or the kind of failure.
pub fn expressions_at(inp: &[char], pos: usize) -> (r: Step<Vec<Expression>>)
    requires
        pos <= inp@.len(),
    ensures
        agrees(r, inp@, pos as int, spec_expressions(inp@, pos as int)),
    decreases left(inp@, pos as int), 1290nat,
{
    reveal(spec_expressions);
    reveal(spec_expression);
    reveal(spec_expressions_more);
    let (first, start) = match expression_at(inp, pos) {
        Ok(done) => done,
        Err(e) => return Err(e),
    };
    let ghost whole = spec_expressions_more(inp@, start as int, seq![first.deep_view()]);
    let ghost mut xv = first.deep_view();
    let mut acc: Vec<Expression> = Vec::new();
    acc.push(first);
    assert(acc.deep_view() =~= seq![xv]);
    let mut cur = start;
    reveal(spec_expressions_more);
    reveal(spec_expression);
    loop
        invariant
            pos <= start <= cur <= inp@.len(),
            spec_expressions(inp@, pos as int) == whole.after((start - pos) as nat),
            whole == spec_expressions_more(inp@, cur as int, acc.deep_view()).after(
                (cur - start) as nat,
            ),
        decreases inp@.len() - cur,
    {
        reveal(spec_expressions_more);
        reveal(spec_expression);
        match expression_at(inp, cur) {
            Ok((x, p2)) => {
                if p2 == cur {
                    return Err(ParseError::Error);
                }
                let ghost before = acc.deep_view();
                proof {
                    xv = x.deep_view();
                }
                acc.push(x);
                assert(acc.deep_view() =~= before.push(xv));
                cur = p2;
            },
            Err(ParseError::Failure) => return Err(ParseError::Failure),
            Err(ParseError::Error) => return Ok((acc, cur)),
        }
    }
}

/// A chain of conditions, with whitespace allowed on both sides.
#[verifier::opaque]
pub open spec fn spec_ws_expressions(s: Seq<char>, pos: int) -> Parsed<Seq<ExpressionView>>
    decreases left(s, pos), 1300nat,
{
    spaced(s, pos, spec_expressions(s, pos + ws_count(s, pos)))
}

/// Reads at `pos` what `spec_ws_expressions` describes: the value and the
/// position behind it, or the kind of failure.
pub fn ws_expressions_at(inp: &[char], pos: usize) -> (r: Step<Vec<Expression>>)
    requires
        pos <= inp@.len(),
    ensures
        agrees(r, inp@, pos as int, spec_ws_expressions(inp@, pos as int)),
    decreases left(inp@, pos as int), 1300nat,
{
    reveal(spec_ws_expressions);
    reveal(spec_expressions);
    let start = skip_ws(inp, pos);
    let step = expressions_at(inp, start);
    spaced_step(inp, pos, step, Ghost(spec_expressions(inp@, pos + ws_count(inp@, pos as int))))
}

/// The elements that follow in a list of which `acc` has been read: a
/// comma and an element, as often as both are there.
#[verifier::opaque]
pub open spec fn spec_expression_list_more(s: Seq<char>, pos: int, acc: Seq<ExpressionView>) -> Parsed<
    Seq<ExpressionView>,
>
    decreases left(s, pos), 1309nat,
{
    match spec_symbol(s, pos, ',') {
        Parsed::Done(_, k) => match spec_ws_expression(s, pos + k) {
            Parsed::Done(x, n) => spec_expression_list_more(s, pos + k + n, acc.push(x)).after(
                k + n,
            ),
            Parsed::Halt => Parsed::Halt,
            Parsed::Miss => Parsed::Done(acc, 0),
        },
        _ => Parsed::Done(acc, 0),
    }
}

/// One or more links of a chain of conditions, separated by commas.
#[verifier::opaque]
pub open spec fn spec_expression_list(s: Seq<char>, pos: int) -> Parsed<Seq<ExpressionView>>
    decreases left(s, pos), 1310nat,
{
    match spec_ws_expression(s, pos) {
        Parsed::Done(x, n) => spec_expression_list_more(s, pos + n, seq![x]).after(n),
        f => f.cast(),
    }
}

/// Reads at `pos` what `spec_expression_list` describes: the value and the
/// position behind it, or the kind of failure.
pub fn expression_list_at(inp: &[char], pos: usize) -> (r: Step<Vec<Expression>>)
    requires
        pos <= inp@.len(),
    ensures
        agrees(r, inp@, pos as int, spec_expression_list(inp@, pos as int)),
    decreases left(inp@, pos as int), 1310nat,
{
    reveal(spec_expression_list);
    reveal(spec_ws_expression);
    reveal(spec_expression_list_more);
    reveal(spec_symbol);
    let (first, start) = match ws_expression_at(inp, pos) {
        Ok(done) => done,
        Err(e) => return Err(e),
    };
    let ghost whole = spec_expression_list_more(inp@, start as int, seq![first.deep_view()]);
    let ghost mut xv = first.deep_view();
    let mut acc: Vec<Expression> = Vec::new();
    acc.push(first);
    assert(acc.deep_view() =~= seq![xv]);
    let mut cur = start;
    reveal(spec_expression_list_more);
    reveal(spec_ws_expression);
    loop
        invariant
            pos <= start <= cur <= inp@.len(),
            spec_expression_list(inp@, pos as int) == whole.after((start - pos) as nat),
            whole == spec_expression_list_more(inp@, cur as int, acc.deep_view()).after(
                (cur - start) as nat,
            ),
        decreases inp@.len() - cur,
    {
        reveal(spec_expression_list_more);
        reveal(spec_ws_expression);
        let p1 = match symbol_at(inp, cur, ',') {
            Ok((_, p)) => p,
            Err(_) => return Ok((acc, cur)),
        };
        match ws_expression_at(inp, p1) {
            Ok((x, p2)) => {
                let ghost before = acc.deep_view();
                proof {
                    xv = x.deep_view();
                }
                acc.push(x);
                assert(acc.deep_view() =~= before.push(xv));
                cur = p2;
            },
            Err(ParseError::Failure) => return Err(ParseError::Failure),
            Err(ParseError::Error) => return Ok((acc, cur)),
        }
    }
}

/// Parses a chain of conditions at the start of `input`.
pub fn parse_expressions(input: &str) -> (r: Result<(&str, List<Expression>), ParseError>)
    ensures
        parsed(r, input@, spec_expressions(input@, 0)),
{
    let chars = chars_of(input);
    let step = match expressions_at(chars.as_slice(), 0) {
        Ok((list, end)) => Ok((List(list), end)),
        Err(e) => Err(e),
    };
    finish(input, step, Ghost(spec_expressions(input@, 0)))
}

/// `WHERE` and a chain of conditions.
#[verifier::opaque]
pub open spec fn spec_where_clause(s: Seq<char>, pos: int) -> Parsed<WhereClauseView>
    decreases left(s, pos), 1480nat,
{
    match spec_keyword(s, pos, Keyword::Where) {
        Parsed::Done(_, k) => match spec_expressions(s, pos + k) {
            Parsed::Done(list, n) => Parsed::Done(WhereClauseView(list), k + n),
            f => f.cast(),
        },
        _ => Parsed::Miss,
    }
}

/// Reads at `pos` what `spec_where_clause` describes: the value and the
/// position behind it, or the kind of failure.
pub fn where_clause_at(inp: &[char], pos: usize) -> (r: Step<WhereClause>)
    requires
        pos <= inp@.len(),
    ensures
        agrees(r, inp@, pos as int, spec_where_clause(inp@, pos as int)),
    decreases left(inp@, pos as int), 1480nat,
{
    reveal(spec_where_clause);
    reveal(spec_expressions);
    reveal(crate::expression::condition::where_clause_view);
    reveal(crate::expression::condition::expression_view);
    let p1 = match keyword_at(inp, pos, Keyword::Where) {
        Ok((_, p)) => p,
        Err(_) => return Err(ParseError::Error),
    };
    proof {
        Keyword::Where.text_width();
    }
    match expressions_at(inp, p1) {
        Ok((list, end)) => {
            let ghost views = list.deep_view();
            let value = WhereClause(List(list));
            proof {
                let got = value.deep_view().0;
                assert(got.len() == views.len());
                assert forall|i: int| 0 <= i < views.len() implies got[i] == views[i] by {
                    assert(views[i] == value.0.0@[i].deep_view());
                    assert(got[i] == value.0.0@[i].deep_view());
                }
                assert(got =~= views);
            }
            assert(value.deep_view() =~= WhereClauseView(views));
            Ok((value, end))
        },
        Err(e) => Err(e),
    }
}

/// Parses a `WHERE` clause at the start of `input`.
pub fn parse_where_clause(input: &str) -> (r: Result<(&str, WhereClause), ParseError>)
    ensures
        parsed(r, input@, spec_where_clause(input@, 0)),
{
    let chars = chars_of(input);
    let step = where_clause_at(chars.as_slice(), 0);
    finish(input, step, Ghost(spec_where_clause(input@, 0)))
}

impl Clause for WhereClause {
    open spec fn clause_keyword() -> Keyword {
        Keyword::Where
    }

    fn leading() -> (k: Keyword) {
        Keyword::Where
    }
}

impl Compare {
    /// The operator as it is written.
    pub open spec fn spec_text(self) -> Seq<char> {
        match self {
            Compare::GreaterOrEqual => ">="@,
            Compare::GreaterThan => ">"@,
            Compare::LowerThan => "<"@,
            Compare::LowerOrEqual => "<="@,
            Compare::Equal => "="@,
            Compare::NotEqual => "!="@,
        }
    }

    /// The operator as it is written.
    pub fn text(&self) -> (r: &'static str)
        ensures
            r@ == self.spec_text(),
    {
        match self {
            Compare::GreaterOrEqual => ">=",
            Compare::GreaterThan => ">",
            Compare::LowerThan => "<",
            Compare::LowerOrEqual => "<=",
            Compare::Equal => "=",
            Compare::NotEqual => "!=",
        }
    }
}

impl Format for Compare {
    open spec fn rendered(&self, st: Layout) -> Layout {
        st.append(self.spec_text())
    }

    fn format<'a>(&self, f: &'a mut Formatter) -> (r: &'a mut Formatter) {
        f.append(self.text())
    }
}

impl Format for Operand {
    open spec fn rendered(&self, st: Layout) -> Layout
        decreases self,
    {
        match self {
            Operand::Term(term) => term.rendered(st),
        }
    }

    fn format<'a>(&self, f: &'a mut Formatter) -> (r: &'a mut Formatter)
        decreases self,
    {
        match self {
            Operand::Term(term) => term.format(f),
        }
    }
}

/// The state behind the first `n` of `items`, rendered in order, each
/// behind `", "` but the first.
pub open spec fn render_operands(items: Vec<Operand>, n: nat, st: Layout) -> Layout
    decreases items, n,
{
    if n == 0 || n > items@.len() {
        st
    } else if n == 1 {
        items@[0].rendered(st)
    } else {
        items@[n - 1].rendered(render_operands(items, (n - 1) as nat, st).append(", "@))
    }
}

/// Operands are written in one line, separated by `", "`.
impl Format for List<Operand> {
    open spec fn rendered(&self, st: Layout) -> Layout
        decreases self,
    {
        render_operands(self.0, self.0@.len(), st)
    }

    fn format<'a>(&self, f: &'a mut Formatter) -> (r: &'a mut Formatter)
        decreases self,
    {
        let mut i: usize = 0;
        while i < self.0.len()
            invariant
                i <= self.0.len(),
                f@ == render_operands(self.0, i as nat, old(f)@),
            decreases self.0.len() - i,
        {
            if i > 0 {
                f.append(", ");
            }
            self.0[i].format(f);
            i += 1;
        }
        f
    }
}

/// An operand is written as it is, a list of operands between
/// parentheses.
impl Format for InPredicateValue {
    open spec fn rendered(&self, st: Layout) -> Layout
        decreases self,
    {
        match self {
            InPredicateValue::Subquery(v) => v.rendered(st),
            InPredicateValue::InValueList(v) => v.rendered(st.append("("@)).append(")"@),
        }
    }

    fn format<'a>(&self, f: &'a mut Formatter) -> (r: &'a mut Formatter)
        decreases self,
    {
        match self {
            InPredicateValue::Subquery(v) => v.format(f),
            InPredicateValue::InValueList(v) => {
                f.append_str("(");
                v.format(f).append_str(")")
            },
        }
    }
}

/// The reserved words of a predicate and its operands, separated by single
/// spaces.
impl Format for RightOperand {
    open spec fn rendered(&self, st: Layout) -> Layout
        decreases self,
    {
        match self {
            RightOperand::In(v) => v.rendered(st.append(Keyword::In.spec_text()).space()),
            RightOperand::Between(low, high) => high.rendered(
                low.rendered(st.append(Keyword::Between.spec_text()).space()).space().append(
                    Keyword::And.spec_text(),
                ).space(),
            ),
            RightOperand::Like(v) => v.rendered(st.append(Keyword::Like.spec_text()).space()),
            RightOperand::Compare(op, v) => v.rendered(op.rendered(st).space()),
            RightOperand::Null(is_null) => if *is_null {
                st.append(Keyword::Is.spec_text()).space().append(Keyword::Null.spec_text())
            } else {
                st.append(Keyword::Is.spec_text()).space().append(
                    Keyword::Not.spec_text(),
                ).space().append(Keyword::Null.spec_text())
            },
        }
    }

    fn format<'a>(&self, f: &'a mut Formatter) -> (r: &'a mut Formatter)
        decreases self,
    {
        match self {
            RightOperand::In(v) => {
                f.append(Keyword::In.text()).ws();
                v.format(f)
            },
            RightOperand::Between(low, high) => {
                f.append(Keyword::Between.text()).ws();
                low.format(f).ws().append(Keyword::And.text()).ws();
                high.format(f)
            },
            RightOperand::Like(v) => {
                f.append(Keyword::Like.text()).ws();
                v.format(f)
            },
            RightOperand::Compare(op, v) => {
                op.format(f).ws();
                v.format(f)
            },
            RightOperand::Null(is_null) => if *is_null {
                f.append(Keyword::Is.text()).ws().append(Keyword::Null.text())
            } else {
                f.append(Keyword::Is.text()).ws().append(Keyword::Not.text()).ws().append(
                    Keyword::Null.text(),
                )
            },
        }
    }
}

impl Format for Condition {
    open spec fn rendered(&self, st: Layout) -> Layout
        decreases self,
    {
        match self {
            Condition::Operand(o) => o.rendered(st),
            Condition::BinaryExpression(o, right) => right.rendered(o.rendered(st).space()),
        }
    }

    fn format<'a>(&self, f: &'a mut Formatter) -> (r: &'a mut Formatter)
        decreases self,
    {
        match self {
            Condition::Operand(o) => o.format(f),
            Condition::BinaryExpression(o, right) => {
                o.format(f).ws();
                right.format(f)
            },
        }
    }
}

/// A bare condition is written where the formatter stands; a condition
/// behind `AND` or `OR` starts a new line, with the reserved word
/// right-aligned in the keyword field.
impl Format for Expression {
    open spec fn rendered(&self, st: Layout) -> Layout
        decreases self,
    {
        match self {
            Expression::Condition(c) => c.rendered(st),
            Expression::AndExpression(c) => c.rendered(
                st.new_line().left_side(Keyword::And.spec_text()).space(),
            ),
            Expression::OrExpression(c) => c.rendered(
                st.new_line().left_side(Keyword::Or.spec_text()).space(),
            ),
        }
    }

    fn format<'a>(&self, f: &'a mut Formatter) -> (r: &'a mut Formatter)
        decreases self,
    {
        match self {
            Expression::Condition(c) => c.format(f),
            Expression::AndExpression(c) => {
                f.new_line().left_side(Keyword::And.text()).space();
                c.format(f)
            },
            Expression::OrExpression(c) => {
                f.new_line().left_side(Keyword::Or.text()).space();
                c.format(f)
            },
        }
    }
}

/// The state behind the first `n` of `items`, rendered in order, one
/// behind the other.
pub open spec fn render_expressions(items: Vec<Expression>, n: nat, st: Layout) -> Layout
    decreases items, n,
{
    if n == 0 || n > items@.len() {
        st
    } else if n == 1 {
        items@[0].rendered(st)
    } else {
        items@[n - 1].rendered(render_expressions(items, (n - 1) as nat, st))
    }
}

/// The links of a chain of conditions are written one behind the other.
impl Format for List<Expression> {
    open spec fn rendered(&self, st: Layout) -> Layout
        decreases self,
    {
        render_expressions(self.0, self.0@.len(), st)
    }

    fn format<'a>(&self, f: &'a mut Formatter) -> (r: &'a mut Formatter)
        decreases self,
    {
        let mut i: usize = 0;
        while i < self.0.len()
            invariant
                i <= self.0.len(),
                f@ == render_expressions(self.0, i as nat, old(f)@),
            decreases self.0.len() - i,
        {
            self.0[i].format(f);
            i += 1;
        }
        f
    }
}

/// `WHERE`, right-aligned in the keyword field, a space and the chain of
/// conditions.
impl Format for WhereClause {
    open spec fn rendered(&self, st: Layout) -> Layout
        decreases self,
    {
        self.0.rendered(st.left_side(Keyword::Where.spec_text()).space())
    }

    fn format<'a>(&self, f: &'a mut Formatter) -> (r: &'a mut Formatter)
        decreases self,
    {
        f.left_side(Keyword::Where.text()).space();
        self.0.format(f)
    }
}

} // verus!
