//! Literal values: `NULL`, numbers, strings and booleans.
use crate::formatter::{Format, Formatter, Layout};
use crate::keyword::{has_word_at, word_at};
use crate::list::List;
use crate::numeric::{numeric_at, spec_numeric, Numeric, NumericView};
use crate::text::{
    agrees, chars_of, finish, parsed, spec_until, until_at, Class, ParseError, Parsed, Step,
};
use vstd::prelude::*;

verus! {

/// A literal value.
#[derive(Debug, PartialEq, Clone)]
pub enum Value {
    Null,
    Num(Numeric),
    Bool(bool),
    String(String),
}

/// The view of `Value`: the same tree with sequences of characters for its
/// strings and sequences of views for its lists.
#[verifier::ext_equal]
pub enum ValueView {
    Null,
    Num(NumericView),
    Bool(bool),
    String(Seq<char>),
}

impl DeepView for Value {
    type V = ValueView;

    open spec fn deep_view(&self) -> ValueView {
        match *self {
            Value::Null => ValueView::Null,
            Value::Num(x0) => ValueView::Num(x0.deep_view()),
            Value::Bool(x0) => ValueView::Bool(x0),
            Value::String(x0) => ValueView::String(x0@),
        }
    }
}

/// `false` or `true`, in any case.
pub open spec fn spec_boolean(s: Seq<char>, pos: int) -> Parsed<bool> {
    if has_word_at(s, pos, "false"@) {
        Parsed::Done(false, 5)
    } else if has_word_at(s, pos, "true"@) {
        Parsed::Done(true, 4)
    } else {
        Parsed::Miss
    }
}

/// Reads at `pos` what `spec_boolean` describes: the value and the position
/// behind it, or the kind of failure.
pub fn boolean_at(inp: &[char], pos: usize) -> (r: Step<bool>)
    requires
        pos <= inp@.len(),
    ensures
        agrees(r, inp@, pos as int, spec_boolean(inp@, pos as int)),
{
    proof {
        reveal_strlit("false");
        reveal_strlit("true");
    }
    if word_at(inp, pos, "false") {
        Ok((false, pos + 5))
    } else if word_at(inp, pos, "true") {
        Ok((true, pos + 4))
    } else {
        Err(ParseError::Error)
    }
}

/// Whether `c` opens or closes a string literal.
pub open spec fn is_quote(c: char) -> bool {
    c == '"' || c == '\''
}

/// A string literal: a quote of either kind, the text up to the next
/// double quote, and that double quote; where no double quote follows, the
/// text up to the next single quote, and that single quote. The kind of
/// the opening quote plays no part in where the literal ends.
pub open spec fn spec_string(s: Seq<char>, pos: int) -> Parsed<Seq<char>> {
    if 0 <= pos < s.len() && is_quote(s[pos]) {
        match spec_until(s, pos + 1, '"') {
            Parsed::Done(t, n) => Parsed::Done(t, n + 2),
            _ => match spec_until(s, pos + 1, '\'') {
                Parsed::Done(t, n) => Parsed::Done(t, n + 2),
                _ => Parsed::Miss,
            },
        }
    } else {
        Parsed::Miss
    }
}

/// Reads at `pos` what `spec_string` describes: the value and the position
/// behind it, or the kind of failure.
pub fn string_at(inp: &[char], pos: usize) -> (r: Step<String>)
    requires
        pos <= inp@.len(),
    ensures
        agrees(r, inp@, pos as int, spec_string(inp@, pos as int)),
{
    if pos < inp.len() && (inp[pos] == '"' || inp[pos] == '\'') {
        match until_at(inp, pos + 1, '"') {
            Ok((t, end)) => Ok((t, end + 1)),
            Err(_) => match until_at(inp, pos + 1, '\'') {
                Ok((t, end)) => Ok((t, end + 1)),
                Err(_) => Err(ParseError::Error),
            },
        }
    } else {
        Err(ParseError::Error)
    }
}

/// A literal value: `null` in any case, a numeric literal, a string
/// literal or a boolean, tried in that order.
pub open spec fn spec_value(s: Seq<char>, pos: int) -> Parsed<ValueView> {
    if has_word_at(s, pos, "null"@) {
        Parsed::Done(ValueView::Null, 4)
    } else {
        match spec_numeric(s, pos) {
            Parsed::Done(n, len) => Parsed::Done(ValueView::Num(n), len),
            Parsed::Halt => Parsed::Halt,
            Parsed::Miss => match spec_string(s, pos) {
                Parsed::Done(t, len) => Parsed::Done(ValueView::String(t), len),
                _ => match spec_boolean(s, pos) {
                    Parsed::Done(b, len) => Parsed::Done(ValueView::Bool(b), len),
                    _ => Parsed::Miss,
                },
            },
        }
    }
}

/// Reads at `pos` what `spec_value` describes: the value and the position
/// behind it, or the kind of failure.
pub fn value_at(inp: &[char], pos: usize) -> (r: Step<Value>)
    requires
        pos <= inp@.len(),
    ensures
        agrees(r, inp@, pos as int, spec_value(inp@, pos as int)),
{
    proof {
        reveal_strlit("null");
    }
    if word_at(inp, pos, "null") {
        return Ok((Value::Null, pos + 4));
    }
    match numeric_at(inp, pos) {
        Ok((n, end)) => Ok((Value::Num(n), end)),
        Err(ParseError::Failure) => Err(ParseError::Failure),
        Err(ParseError::Error) => match string_at(inp, pos) {
            Ok((t, end)) => Ok((Value::String(t), end)),
            Err(_) => match boolean_at(inp, pos) {
                Ok((b, end)) => Ok((Value::Bool(b), end)),
                Err(_) => Err(ParseError::Error),
            },
        },
    }
}

/// Parses a literal value at the start of `input`.
pub fn parse_value(input: &str) -> (r: Result<(&str, Value), ParseError>)
    ensures
        parsed(r, input@, spec_value(input@, 0)),
{
    let chars = chars_of(input);
    let step = value_at(chars.as_slice(), 0);
    finish(input, step, Ghost(spec_value(input@, 0)))
}

/// `NULL` is written in upper case, a boolean in lower case, a string
/// between single quotes and a number as its literal.
impl Format for Value {
    open spec fn rendered(&self, st: Layout) -> Layout {
        match self {
            Value::Null => st.append("NULL"@),
            Value::Bool(b) => if *b {
                st.append("true"@)
            } else {
                st.append("false"@)
            },
            Value::String(t) => st.append("'"@).append(t@).append("'"@),
            Value::Num(n) => n.rendered(st),
        }
    }

    fn format<'a>(&self, f: &'a mut Formatter) -> (r: &'a mut Formatter) {
        match self {
            Value::Null => f.append("NULL"),
            Value::Bool(b) => if *b {
                f.append("true")
            } else {
                f.append("false")
            },
            Value::String(t) => f.append("'").append(t.as_str()).append("'"),
            Value::Num(n) => n.format(f),
        }
    }
}

/// The state behind the first `n` of `items`, rendered in order, each
/// behind `", "` but the first.
pub open spec fn render_values(items: Vec<Value>, n: nat, st: Layout) -> Layout
    decreases n,
{
    if n == 0 || n > items@.len() {
        st
    } else if n == 1 {
        items@[0].rendered(st)
    } else {
        items@[n - 1].rendered(render_values(items, (n - 1) as nat, st).append(", "@))
    }
}

/// Values are written in one line, separated by `", "`.
impl Format for List<Value> {
    open spec fn rendered(&self, st: Layout) -> Layout
    {
        render_values(self.0, self.0@.len(), st)
    }

    fn format<'a>(&self, f: &'a mut Formatter) -> (r: &'a mut Formatter)
    {
        let mut i: usize = 0;
        while i < self.0.len()
            invariant
                i <= self.0.len(),
                f@ == render_values(self.0, i as nat, old(f)@),
            decreases self.0.len() - i,
        {
            if i > 0 {
                f.append(", ");
            }
            self.0[i].format(f);
            i += 1;
        }
        f
    }
}

/// The text of a string literal is kept as it is. Where a quote of either
/// kind stands at `pos`, `content` behind it and a quote behind that, the
/// literal is read as the string `content`, provided that `content` holds
/// no double quote and that, where the closing quote is a single quote,
/// `content` holds no single quote either and no double quote follows the
/// literal. The string is written as `content` between single quotes.
pub proof fn string_literal_is_kept(s: Seq<char>, pos: int, content: Seq<char>, value: Value, st: Layout)
    requires
        0 <= pos,
        pos + content.len() + 2 <= s.len(),
        is_quote(s[pos]),
        is_quote(s[pos + 1 + content.len()]),
        s.subrange(pos + 1, pos + 1 + content.len()) == content,
        forall|i: int| 0 <= i < content.len() ==> content[i] != '"',
        s[pos + 1 + content.len()] == '\'' ==> {
            &&& forall|i: int| 0 <= i < content.len() ==> content[i] != '\''
            &&& forall|i: int| pos + 1 + content.len() < i < s.len() ==> s[i] != '"'
        },
        value.deep_view() == ValueView::String(content),
    ensures
        spec_value(s, pos) == Parsed::Done(ValueView::String(content), content.len() + 2),
        value.rendered(st).buffer == st.buffer + "'"@ + content + "'"@,
{
    let n = content.len();
    let close = pos + 1 + n;
    assert forall|i: int| pos + 1 <= i < close implies s[i] == content[i - pos - 1] by {
        assert(s.subrange(pos + 1, pos + 1 + n)[i - pos - 1] == s[i]);
    }
    // no earlier alternative reads anything at a quote
    reveal_strlit("null");
    if crate::keyword::has_word_at(s, pos, "null"@) {
        let word = s.subrange(pos, pos + 4);
        assert(crate::keyword::fold(word[0]) == crate::keyword::fold("null"@[0]));
        assert(word[0] == s[pos]);
    }
    assert(crate::numeric::digits_len(s, pos) == 0);
    assert(crate::numeric::digits_len(s, pos + 1) >= 0);
    assert(crate::numeric::float_run(s, pos) == 0);
    assert(crate::numeric::spec_i32(s, pos) is Miss);
    assert(crate::numeric::spec_float(s, pos) is Miss);
    assert(crate::numeric::spec_decimal(s, pos) is Miss);
    assert(spec_numeric(s, pos) is Miss);
    if s[close] == '"' {
        assert forall|i: int| pos + 1 <= i < pos + 1 + n implies Class::Not('"').holds(
            #[trigger] s[i],
        ) by {
            assert(s[i] == content[i - pos - 1]);
        }
        crate::text::run_up_to(s, pos + 1, n, Class::Not('"'));
    } else {
        assert forall|i: int| pos + 1 <= i < s.len() implies Class::Not('"').holds(
            #[trigger] s[i],
        ) by {
            if i < close {
                assert(s[i] == content[i - pos - 1]);
            }
        }
        crate::text::run_to_the_end(s, pos + 1, Class::Not('"'));
        assert forall|i: int| pos + 1 <= i < pos + 1 + n implies Class::Not('\'').holds(
            #[trigger] s[i],
        ) by {
            assert(s[i] == content[i - pos - 1]);
        }
        crate::text::run_up_to(s, pos + 1, n, Class::Not('\''));
    }
    assert(spec_string(s, pos) == Parsed::Done(content, n + 2));
    match value {
        Value::String(t) => {
            assert(st.append("'"@).append(t@).append("'"@).buffer =~= st.buffer + "'"@ + content
                + "'"@);
        },
        _ => {},
    }
}

} // verus!
