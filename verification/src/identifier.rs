//! Identifiers: bare, quoted and qualified names.
use crate::formatter::{Format, Formatter, Layout};
use crate::list::List;
use crate::text::{
    agrees, char_at, chars_of, finish, left, parsed, run1_at, skip_ws, spaced, spaced_step,
    spec_char, spec_run1, ws_count, Class, ParseError, Parsed, Step,
};
use vstd::prelude::*;

verus! {

/// An identifier, bare or quoted.
#[derive(Debug, PartialEq, Clone)]
pub enum Name {
    Name(String),
    QuotedName(String),
}

/// The view of `Name`: the same tree with sequences of characters for its
/// strings and sequences of views for its lists.
#[verifier::ext_equal]
pub enum NameView {
    Name(Seq<char>),
    QuotedName(Seq<char>),
}

impl DeepView for Name {
    type V = NameView;

    open spec fn deep_view(&self) -> NameView {
        match *self {
            Name::Name(x0) => NameView::Name(x0@),
            Name::QuotedName(x0) => NameView::QuotedName(x0@),
        }
    }
}

/// A name with an optional qualifier in front of it.
#[derive(Debug, PartialEq, Clone)]
pub struct SchemaQualifiedName(pub Option<Name>, pub Name);

/// The view of `SchemaQualifiedName`: the same tree with sequences of
/// characters for its strings and sequences of views for its lists.
#[verifier::ext_equal]
pub struct SchemaQualifiedNameView(pub Option<NameView>, pub NameView);

impl DeepView for SchemaQualifiedName {
    type V = SchemaQualifiedNameView;

    open spec fn deep_view(&self) -> SchemaQualifiedNameView {
        SchemaQualifiedNameView(self.0.deep_view(), self.1.deep_view())
    }
}

/// An identifier that may stand between double quotes.
#[derive(Debug, PartialEq, Clone)]
pub enum Delimitedidentifier {
    Name(Name),
    Quoted(Name),
}

/// The view of `Delimitedidentifier`: the same tree with sequences of
/// characters for its strings and sequences of views for its lists.
#[verifier::ext_equal]
pub enum DelimitedidentifierView {
    Name(NameView),
    Quoted(NameView),
}

impl DeepView for Delimitedidentifier {
    type V = DelimitedidentifierView;

    open spec fn deep_view(&self) -> DelimitedidentifierView {
        match *self {
            Delimitedidentifier::Name(x0) => DelimitedidentifierView::Name(x0.deep_view()),
            Delimitedidentifier::Quoted(x0) => DelimitedidentifierView::Quoted(
                x0.deep_view(),
            ),
        }
    }
}

/// A run of ASCII letters and digits between two `quote` characters: the
/// text between them.
pub open spec fn spec_quoted(s: Seq<char>, pos: int, quote: char) -> Parsed<Seq<char>> {
    match spec_char(s, pos, quote) {
        Parsed::Done(_, _) => match spec_run1(s, pos + 1, Class::Alnum) {
            Parsed::Done(t, n) => match spec_char(s, pos + 1 + n, quote) {
                Parsed::Done(_, _) => Parsed::Done(t, n + 2),
                _ => Parsed::Miss,
            },
            _ => Parsed::Miss,
        },
        _ => Parsed::Miss,
    }
}

/// Reads at `pos` what `spec_quoted` describes: the value and the position
/// behind it, or the kind of failure.
pub fn quoted_at(inp: &[char], pos: usize, quote: char) -> (r: Step<String>)
    requires
        pos <= inp@.len(),
    ensures
        agrees(r, inp@, pos as int, spec_quoted(inp@, pos as int, quote)),
{
    match char_at(inp, pos, quote) {
        Ok((_, p1)) => match run1_at(inp, p1, Class::Alnum) {
            Ok((t, p2)) => match char_at(inp, p2, quote) {
                Ok((_, p3)) => Ok((t, p3)),
                Err(_) => Err(ParseError::Error),
            },
            Err(_) => Err(ParseError::Error),
        },
        Err(_) => Err(ParseError::Error),
    }
}

/// A name: letters and digits between double quotes or between single
/// quotes, which give a quoted name, or a run of letters, digits and
/// underscores, which gives a bare one.
pub open spec fn spec_name(s: Seq<char>, pos: int) -> Parsed<NameView> {
    match spec_quoted(s, pos, '"') {
        Parsed::Done(t, n) => Parsed::Done(NameView::QuotedName(t), n),
        _ => match spec_quoted(s, pos, '\'') {
            Parsed::Done(t, n) => Parsed::Done(NameView::QuotedName(t), n),
            _ => match spec_run1(s, pos, Class::Word) {
                Parsed::Done(t, n) => Parsed::Done(NameView::Name(t), n),
                _ => Parsed::Miss,
            },
        },
    }
}

/// Reads at `pos` what `spec_name` describes: the value and the position
/// behind it, or the kind of failure.
pub fn name_at(inp: &[char], pos: usize) -> (r: Step<Name>)
    requires
        pos <= inp@.len(),
    ensures
        agrees(r, inp@, pos as int, spec_name(inp@, pos as int)),
{
    match quoted_at(inp, pos, '"') {
        Ok((t, end)) => Ok((Name::QuotedName(t), end)),
        Err(_) => match quoted_at(inp, pos, '\'') {
            Ok((t, end)) => Ok((Name::QuotedName(t), end)),
            Err(_) => match run1_at(inp, pos, Class::Word) {
                Ok((t, end)) => Ok((Name::Name(t), end)),
                Err(_) => Err(ParseError::Error),
            },
        },
    }
}

/// Parses a name at the start of `input`.
pub fn parse_name(input: &str) -> (r: Result<(&str, Name), ParseError>)
    ensures
        parsed(r, input@, spec_name(input@, 0)),
{
    let chars = chars_of(input);
    let step = name_at(chars.as_slice(), 0);
    finish(input, step, Ghost(spec_name(input@, 0)))
}

/// A name, with whitespace allowed on both sides.
#[verifier::opaque]
pub open spec fn spec_ws_name(s: Seq<char>, pos: int) -> Parsed<NameView>
    decreases left(s, pos), 20nat,
{
    spaced(s, pos, spec_name(s, pos + ws_count(s, pos)))
}

/// Reads at `pos` what `spec_ws_name` describes: the value and the position
/// behind it, or the kind of failure.
pub fn ws_name_at(inp: &[char], pos: usize) -> (r: Step<Name>)
    requires
        pos <= inp@.len(),
    ensures
        agrees(r, inp@, pos as int, spec_ws_name(inp@, pos as int)),
    decreases left(inp@, pos as int), 20nat,
{
    reveal(spec_ws_name);
    reveal(spec_name);
    let start = skip_ws(inp, pos);
    let step = name_at(inp, start);
    spaced_step(inp, pos, step, Ghost(spec_name(inp@, pos + ws_count(inp@, pos as int))))
}

/// A name with an optional qualifier and a dot in front of it. A dot with
/// no qualifier in front of it is accepted.
pub open spec fn spec_schema_qualified_name(s: Seq<char>, pos: int) -> Parsed<
    SchemaQualifiedNameView,
> {
    let bare = match spec_name(s, pos) {
        Parsed::Done(name, n) => Parsed::Done(SchemaQualifiedNameView(None, name), n),
        _ => Parsed::Miss,
    };
    match spec_name(s, pos).optional() {
        Parsed::Done(qualifier, n) => match spec_char(s, pos + n, '.') {
            Parsed::Done(_, _) => match spec_name(s, pos + n + 1) {
                Parsed::Done(name, m) => Parsed::Done(
                    SchemaQualifiedNameView(qualifier, name),
                    n + 1 + m,
                ),
                _ => bare,
            },
            _ => bare,
        },
        _ => bare,
    }
}

/// Reads at `pos` what `spec_schema_qualified_name` describes: the value and
/// the position behind it, or the kind of failure.
pub fn schema_qualified_name_at(inp: &[char], pos: usize) -> (r: Step<SchemaQualifiedName>)
    requires
        pos <= inp@.len(),
    ensures
        agrees(r, inp@, pos as int, spec_schema_qualified_name(inp@, pos as int)),
{
    let first = name_at(inp, pos);
    let (qualifier, p1) = match first {
        Ok((name, end)) => (Some(name), end),
        Err(_) => (None, pos),
    };
    if let Ok((_, p2)) = char_at(inp, p1, '.') {
        if let Ok((name, p3)) = name_at(inp, p2) {
            return Ok((SchemaQualifiedName(qualifier, name), p3));
        }
    }
    match qualifier {
        Some(name) => Ok((SchemaQualifiedName(None, name), p1)),
        None => Err(ParseError::Error),
    }
}

/// Parses a name with an optional qualifier at the start of `input`.
pub fn parse_schema_qualified_name(input: &str) -> (r: Result<
    (&str, SchemaQualifiedName), ParseError,
>)
    ensures
        parsed(r, input@, spec_schema_qualified_name(input@, 0)),
{
    let chars = chars_of(input);
    let step = schema_qualified_name_at(chars.as_slice(), 0);
    finish(input, step, Ghost(spec_schema_qualified_name(input@, 0)))
}

/// A name between double quotes, or a name.
pub open spec fn spec_delimited_identifier(s: Seq<char>, pos: int) -> Parsed<
    DelimitedidentifierView,
> {
    let bare = match spec_name(s, pos) {
        Parsed::Done(name, n) => Parsed::Done(DelimitedidentifierView::Name(name), n),
        _ => Parsed::Miss,
    };
    match spec_char(s, pos, '"') {
        Parsed::Done(_, _) => match spec_name(s, pos + 1) {
            Parsed::Done(name, n) => match spec_char(s, pos + 1 + n, '"') {
                Parsed::Done(_, _) => Parsed::Done(DelimitedidentifierView::Quoted(name), n + 2),
                _ => bare,
            },
            _ => bare,
        },
        _ => bare,
    }
}

/// Reads at `pos` what `spec_delimited_identifier` describes: the value and
/// the position behind it, or the kind of failure.
pub fn delimited_identifier_at(inp: &[char], pos: usize) -> (r: Step<Delimitedidentifier>)
    requires
        pos <= inp@.len(),
    ensures
        agrees(r, inp@, pos as int, spec_delimited_identifier(inp@, pos as int)),
{
    if let Ok((_, p1)) = char_at(inp, pos, '"') {
        if let Ok((name, p2)) = name_at(inp, p1) {
            if let Ok((_, p3)) = char_at(inp, p2, '"') {
                return Ok((Delimitedidentifier::Quoted(name), p3));
            }
        }
    }
    match name_at(inp, pos) {
        Ok((name, end)) => Ok((Delimitedidentifier::Name(name), end)),
        Err(_) => Err(ParseError::Error),
    }
}

/// Parses a name, or a name between double quotes, at the start of `input`.
pub fn parse_delimited_identifier(input: &str) -> (r: Result<
    (&str, Delimitedidentifier), ParseError,
>)
    ensures
        parsed(r, input@, spec_delimited_identifier(input@, 0)),
{
    let chars = chars_of(input);
    let step = delimited_identifier_at(chars.as_slice(), 0);
    finish(input, step, Ghost(spec_delimited_identifier(input@, 0)))
}

/// A bare name is written as it is, a quoted name between single quotes.
impl Format for Name {
    open spec fn rendered(&self, st: Layout) -> Layout {
        match self {
            Name::Name(name) => st.append(name@),
            Name::QuotedName(name) => st.append("'"@).append(name@).append("'"@),
        }
    }

    fn format<'a>(&self, f: &'a mut Formatter) -> (r: &'a mut Formatter) {
        match self {
            Name::Name(name) => f.append(name.as_str()),
            Name::QuotedName(name) => f.append("'").append(name.as_str()).append("'"),
        }
    }
}

/// A qualified name is written as qualifier, dot and name; a name without
/// a qualifier is written between single quotes.
impl Format for SchemaQualifiedName {
    open spec fn rendered(&self, st: Layout) -> Layout {
        match self.0 {
            Some(qualifier) => self.1.rendered(qualifier.rendered(st).append("."@)),
            None => self.1.rendered(st.append("'"@)).append("'"@),
        }
    }

    fn format<'a>(&self, f: &'a mut Formatter) -> (r: &'a mut Formatter) {
        match &self.0 {
            Some(qualifier) => {
                qualifier.format(f).append(".");
                self.1.format(f)
            },
            None => {
                f.append("'");
                self.1.format(f).append("'")
            },
        }
    }
}

impl Format for Delimitedidentifier {
    open spec fn rendered(&self, st: Layout) -> Layout {
        match self {
            Delimitedidentifier::Name(name) => name.rendered(st),
            Delimitedidentifier::Quoted(name) => name.rendered(st.append("\""@)).append("\""@),
        }
    }

    fn format<'a>(&self, f: &'a mut Formatter) -> (r: &'a mut Formatter) {
        match self {
            Delimitedidentifier::Name(name) => name.format(f),
            Delimitedidentifier::Quoted(name) => {
                f.append_str("\"");
                name.format(f).append_str("\"")
            },
        }
    }
}

/// The state behind the first `n` of `items`, rendered in order, each
/// behind `", "` but the first.
pub open spec fn render_names(items: Vec<Name>, n: nat, st: Layout) -> Layout
    decreases n,
{
    if n == 0 || n > items@.len() {
        st
    } else if n == 1 {
        items@[0].rendered(st)
    } else {
        items@[n - 1].rendered(render_names(items, (n - 1) as nat, st).append(", "@))
    }
}

/// Names are written in one line, separated by `", "`.
impl Format for List<Name> {
    open spec fn rendered(&self, st: Layout) -> Layout
    {
        render_names(self.0, self.0@.len(), st)
    }

    fn format<'a>(&self, f: &'a mut Formatter) -> (r: &'a mut Formatter)
    {
        let mut i: usize = 0;
        while i < self.0.len()
            invariant
                i <= self.0.len(),
                f@ == render_names(self.0, i as nat, old(f)@),
            decreases self.0.len() - i,
        {
            if i > 0 {
                f.append(", ");
            }
            self.0[i].format(f);
            i += 1;
        }
        f
    }
}

} // verus!
