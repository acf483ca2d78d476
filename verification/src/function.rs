//! Function calls.
use crate::formatter::{Format, Formatter, Layout};
use crate::keyword::{keyword_at, spec_keyword, Keyword};
use crate::list::List;
use crate::term::{spec_terms, terms_at, Term, TermView};
use crate::text::{
    agrees, char_at, chars_of, finish, left, parsed, run1_at, spec_char, spec_run1, spec_symbol,
    symbol_at, Class, ParseError, Parsed, Step,
};
use vstd::prelude::*;

verus! {

/// A function call: the name and the arguments.
#[derive(Debug, PartialEq)]
pub struct Function(pub String, pub List<Term>);

/// The view of `Function`: the same tree with sequences of characters for
/// its strings and sequences of views for its lists.
#[verifier::ext_equal]
pub struct FunctionView(pub Seq<char>, pub Seq<TermView>);

/// The view of `x`.
#[verifier::opaque]
pub open spec fn function_view(x: Function) -> FunctionView
    decreases x,
{
    FunctionView(
        x.0@,
        Seq::new(
            x.1.0@.len(),
            |i: int| if 0 <= i < x.1.0@.len() {
                crate::term::term_view(x.1.0@[i])
            } else {
                arbitrary()
            },
        ),
    )
}

impl DeepView for Function {
    type V = FunctionView;

    open spec fn deep_view(&self) -> FunctionView {
        function_view(*self)
    }
}

/// `COUNT(*)`, or a function call.
#[derive(Debug, PartialEq)]
pub enum AggregateFunction {
    CountAll,
    Function(Function),
}

/// The view of `AggregateFunction`: the same tree with sequences of
/// characters for its strings and sequences of views for its lists.
#[verifier::ext_equal]
pub enum AggregateFunctionView {
    CountAll,
    Function(FunctionView),
}

/// The view of `x`.
#[verifier::opaque]
pub open spec fn aggregate_function_view(x: AggregateFunction) -> AggregateFunctionView
    decreases x,
{
    match x {
        AggregateFunction::CountAll => AggregateFunctionView::CountAll,
        AggregateFunction::Function(x0) => AggregateFunctionView::Function(
            crate::function::function_view(x0),
        ),
    }
}

impl DeepView for AggregateFunction {
    type V = AggregateFunctionView;

    open spec fn deep_view(&self) -> AggregateFunctionView {
        aggregate_function_view(*self)
    }
}

/// A function call: a name of letters, digits and underscores, and a list
/// of terms between parentheses.
#[verifier::opaque]
pub open spec fn spec_function(s: Seq<char>, pos: int) -> Parsed<FunctionView>
    decreases left(s, pos), 990nat,
{
    match spec_run1(s, pos, Class::Word) {
        Parsed::Done(name, k) => match spec_symbol(s, pos + k, '(') {
            Parsed::Done(_, n) => match spec_terms(s, pos + k + n) {
                Parsed::Done(terms, m) => match spec_symbol(s, pos + k + n + m, ')') {
                    Parsed::Done(_, j) => Parsed::Done(FunctionView(name, terms), k + n + m + j),
                    _ => Parsed::Miss,
                },
                f => f.cast(),
            },
            _ => Parsed::Miss,
        },
        _ => Parsed::Miss,
    }
}

/// Reads at `pos` what `spec_function` describes: the value and the position
/// behind it, or the kind of failure.
pub fn function_at(inp: &[char], pos: usize) -> (r: Step<Function>)
    requires
        pos <= inp@.len(),
    ensures
        agrees(r, inp@, pos as int, spec_function(inp@, pos as int)),
    decreases left(inp@, pos as int), 990nat,
{
    reveal(spec_function);
    reveal(spec_terms);
    reveal(crate::function::function_view);
    reveal(crate::term::term_view);
    let (name, p1) = match run1_at(inp, pos, Class::Word) {
        Ok(done) => done,
        Err(_) => return Err(ParseError::Error),
    };
    let p2 = match symbol_at(inp, p1, '(') {
        Ok((_, p)) => p,
        Err(_) => return Err(ParseError::Error),
    };
    let (terms, p3) = match terms_at(inp, p2) {
        Ok(done) => done,
        Err(e) => return Err(e),
    };
    match symbol_at(inp, p3, ')') {
        Ok((_, end)) => {
            let ghost views = terms.deep_view();
            let value = Function(name, List(terms));
            proof {
                let got = value.deep_view().1;
                assert(got.len() == views.len());
                assert forall|i: int| 0 <= i < views.len() implies got[i] == views[i] by {
                    assert(views[i] == value.1.0@[i].deep_view());
                    assert(got[i] == value.1.0@[i].deep_view());
                }
                assert(got =~= views);
            }
            assert(value.deep_view() =~= FunctionView(name@, views));
            Ok((value, end))
        },
        Err(_) => Err(ParseError::Error),
    }
}

/// Parses a function call at the start of `input`.
pub fn parse_function(input: &str) -> (r: Result<(&str, Function), ParseError>)
    ensures
        parsed(r, input@, spec_function(input@, 0)),
{
    let chars = chars_of(input);
    let step = function_at(chars.as_slice(), 0);
    finish(input, step, Ghost(spec_function(input@, 0)))
}

/// `COUNT`, `(`, `*` and `)`.
#[verifier::opaque]
pub open spec fn spec_count_all(s: Seq<char>, pos: int) -> Parsed<()> {
    match spec_keyword(s, pos, Keyword::Count) {
        Parsed::Done(_, k) => match spec_symbol(s, pos + k, '(') {
            Parsed::Done(_, n) => match spec_char(s, pos + k + n, '*') {
                Parsed::Done(_, m) => match spec_symbol(s, pos + k + n + m, ')') {
                    Parsed::Done(_, j) => Parsed::Done((), k + n + m + j),
                    _ => Parsed::Miss,
                },
                _ => Parsed::Miss,
            },
            _ => Parsed::Miss,
        },
        _ => Parsed::Miss,
    }
}

/// Reads at `pos` what `spec_count_all` describes: the value and the
/// position behind it, or the kind of failure.
fn count_all_at(inp: &[char], pos: usize) -> (r: Step<()>)
    requires
        pos <= inp@.len(),
    ensures
        agrees(r, inp@, pos as int, spec_count_all(inp@, pos as int)),
{
    reveal(spec_count_all);
    let p1 = match keyword_at(inp, pos, Keyword::Count) {
        Ok((_, p)) => p,
        Err(_) => return Err(ParseError::Error),
    };
    let p2 = match symbol_at(inp, p1, '(') {
        Ok((_, p)) => p,
        Err(_) => return Err(ParseError::Error),
    };
    let p3 = match char_at(inp, p2, '*') {
        Ok((_, p)) => p,
        Err(_) => return Err(ParseError::Error),
    };
    symbol_at(inp, p3, ')')
}

/// `COUNT(*)`, or a function call.
#[verifier::opaque]
pub open spec fn spec_aggregate_function(s: Seq<char>, pos: int) -> Parsed<AggregateFunctionView>
    decreases left(s, pos), 1000nat,
{
    match spec_count_all(s, pos) {
        Parsed::Done(_, n) => Parsed::Done(AggregateFunctionView::CountAll, n),
        _ => match spec_function(s, pos) {
            Parsed::Done(f, n) => Parsed::Done(AggregateFunctionView::Function(f), n),
            f => f.cast(),
        },
    }
}

/// Reads at `pos` what `spec_aggregate_function` describes: the value and
/// the position behind it, or the kind of failure.
pub fn aggregate_function_at(inp: &[char], pos: usize) -> (r: Step<AggregateFunction>)
    requires
        pos <= inp@.len(),
    ensures
        agrees(r, inp@, pos as int, spec_aggregate_function(inp@, pos as int)),
    decreases left(inp@, pos as int), 1000nat,
{
    reveal(spec_aggregate_function);
    reveal(spec_function);
    reveal(crate::function::aggregate_function_view);
    reveal(crate::function::function_view);
    if let Ok((_, end)) = count_all_at(inp, pos) {
        return Ok((AggregateFunction::CountAll, end));
    }
    match function_at(inp, pos) {
        Ok((f, end)) => Ok((AggregateFunction::Function(f), end)),
        Err(e) => Err(e),
    }
}

/// Parses `COUNT(*)` or a function call at the start of `input`.
pub fn parse_aggregate_function(input: &str) -> (r: Result<(&str, AggregateFunction), ParseError>)
    ensures
        parsed(r, input@, spec_aggregate_function(input@, 0)),
{
    let chars = chars_of(input);
    let step = aggregate_function_at(chars.as_slice(), 0);
    finish(input, step, Ghost(spec_aggregate_function(input@, 0)))
}

/// The name and the arguments between parentheses.
impl Format for Function {
    open spec fn rendered(&self, st: Layout) -> Layout
        decreases self,
    {
        self.1.rendered(st.append(self.0@).append("("@)).append(")"@)
    }

    fn format<'a>(&self, f: &'a mut Formatter) -> (r: &'a mut Formatter)
        decreases self,
    {
        f.append(self.0.as_str()).append_str("(");
        self.1.format(f).append_str(")")
    }
}

impl Format for AggregateFunction {
    open spec fn rendered(&self, st: Layout) -> Layout
        decreases self,
    {
        match self {
            AggregateFunction::CountAll => st.append(Keyword::Count.spec_text()).append("(*)"@),
            AggregateFunction::Function(function) => function.rendered(st),
        }
    }

    fn format<'a>(&self, f: &'a mut Formatter) -> (r: &'a mut Formatter)
        decreases self,
    {
        match self {
            AggregateFunction::CountAll => f.append(Keyword::Count.text()).append_str("(*)"),
            AggregateFunction::Function(function) => function.format(f),
        }
    }
}

} // verus!
