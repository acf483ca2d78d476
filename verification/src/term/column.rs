//! Column references.
use crate::formatter::{Format, Formatter, Layout};
use crate::identifier::{quoted_at, spec_quoted, Name, NameView};
use crate::list::List;
use crate::text::{
    agrees, char_at, chars_of, finish, parsed, run1_at, spec_char, spec_run1, Class, ParseError,
    Parsed, Step,
};
use vstd::prelude::*;

verus! {

/// A reference to a column, with or without the name of its table.
#[derive(Debug, PartialEq, Clone)]
pub enum ColumnRef {
    Name(Name),
    WithFamily(Name, Name),
}

/// The view of `ColumnRef`: the same tree with sequences of characters for
/// its strings and sequences of views for its lists.
#[verifier::ext_equal]
pub enum ColumnRefView {
    Name(NameView),
    WithFamily(NameView, NameView),
}

impl DeepView for ColumnRef {
    type V = ColumnRefView;

    open spec fn deep_view(&self) -> ColumnRefView {
        match *self {
            ColumnRef::Name(x0) => ColumnRefView::Name(x0.deep_view()),
            ColumnRef::WithFamily(x0, x1) => ColumnRefView::WithFamily(
                x0.deep_view(),
                x1.deep_view(),
            ),
        }
    }
}

/// The name of a column or of its table: letters and digits between
/// double quotes, or a run of letters, digits and underscores.
pub open spec fn spec_column_name(s: Seq<char>, pos: int) -> Parsed<NameView> {
    match spec_quoted(s, pos, '"') {
        Parsed::Done(t, n) => Parsed::Done(NameView::QuotedName(t), n),
        _ => match spec_run1(s, pos, Class::Word) {
            Parsed::Done(t, n) => Parsed::Done(NameView::Name(t), n),
            _ => Parsed::Miss,
        },
    }
}

/// Reads at `pos` what `spec_column_name` describes: the value and the
/// position behind it, or the kind of failure.
pub fn column_name_at(inp: &[char], pos: usize) -> (r: Step<Name>)
    requires
        pos <= inp@.len(),
    ensures
        agrees(r, inp@, pos as int, spec_column_name(inp@, pos as int)),
{
    match quoted_at(inp, pos, '"') {
        Ok((t, end)) => Ok((Name::QuotedName(t), end)),
        Err(_) => match run1_at(inp, pos, Class::Word) {
            Ok((t, end)) => Ok((Name::Name(t), end)),
            Err(_) => Err(ParseError::Error),
        },
    }
}

/// Parses the name of a column at the start of `input`.
pub fn parse_name(input: &str) -> (r: Result<(&str, Name), ParseError>)
    ensures
        parsed(r, input@, spec_column_name(input@, 0)),
{
    let chars = chars_of(input);
    let step = column_name_at(chars.as_slice(), 0);
    finish(input, step, Ghost(spec_column_name(input@, 0)))
}

/// A column name, or the name of a table, a dot and a column name.
pub open spec fn spec_column_ref(s: Seq<char>, pos: int) -> Parsed<ColumnRefView> {
    match spec_column_name(s, pos) {
        Parsed::Done(first, n) => match spec_char(s, pos + n, '.') {
            Parsed::Done(_, _) => match spec_column_name(s, pos + n + 1) {
                Parsed::Done(second, m) => Parsed::Done(
                    ColumnRefView::WithFamily(first, second),
                    n + 1 + m,
                ),
                _ => Parsed::Done(ColumnRefView::Name(first), n),
            },
            _ => Parsed::Done(ColumnRefView::Name(first), n),
        },
        _ => Parsed::Miss,
    }
}

/// Reads at `pos` what `spec_column_ref` describes: the value and the
/// position behind it, or the kind of failure.
pub fn column_ref_at(inp: &[char], pos: usize) -> (r: Step<ColumnRef>)
    requires
        pos <= inp@.len(),
    ensures
        agrees(r, inp@, pos as int, spec_column_ref(inp@, pos as int)),
{
    match column_name_at(inp, pos) {
        Ok((first, p1)) => {
            if let Ok((_, p2)) = char_at(inp, p1, '.') {
                if let Ok((second, p3)) = column_name_at(inp, p2) {
                    return Ok((ColumnRef::WithFamily(first, second), p3));
                }
            }
            Ok((ColumnRef::Name(first), p1))
        },
        Err(_) => Err(ParseError::Error),
    }
}

/// Parses a column reference at the start of `input`.
pub fn parse_column_ref(input: &str) -> (r: Result<(&str, ColumnRef), ParseError>)
    ensures
        parsed(r, input@, spec_column_ref(input@, 0)),
{
    let chars = chars_of(input);
    let step = column_ref_at(chars.as_slice(), 0);
    finish(input, step, Ghost(spec_column_ref(input@, 0)))
}

impl Format for ColumnRef {
    open spec fn rendered(&self, st: Layout) -> Layout {
        match self {
            ColumnRef::Name(name) => name.rendered(st),
            ColumnRef::WithFamily(family, name) => name.rendered(family.rendered(st).append("."@)),
        }
    }

    fn format<'a>(&self, f: &'a mut Formatter) -> (r: &'a mut Formatter) {
        match self {
            ColumnRef::Name(name) => name.format(f),
            ColumnRef::WithFamily(family, name) => {
                family.format(f).append(".");
                name.format(f)
            },
        }
    }
}

/// The state behind the first `n` of `items`, rendered in order, each
/// behind `", "` but the first.
pub open spec fn render_column_refs(items: Vec<ColumnRef>, n: nat, st: Layout) -> Layout
    decreases n,
{
    if n == 0 || n > items@.len() {
        st
    } else if n == 1 {
        items@[0].rendered(st)
    } else {
        items@[n - 1].rendered(render_column_refs(items, (n - 1) as nat, st).append(", "@))
    }
}

/// Column references are written in one line, separated by `", "`.
impl Format for List<ColumnRef> {
    open spec fn rendered(&self, st: Layout) -> Layout
    {
        render_column_refs(self.0, self.0@.len(), st)
    }

    fn format<'a>(&self, f: &'a mut Formatter) -> (r: &'a mut Formatter)
    {
        let mut i: usize = 0;
        while i < self.0.len()
            invariant
                i <= self.0.len(),
                f@ == render_column_refs(self.0, i as nat, old(f)@),
            decreases self.0.len() - i,
        {
            if i > 0 {
                f.append(", ");
            }
            self.0[i].format(f);
            i += 1;
        }
        f
    }
}

} // verus!
