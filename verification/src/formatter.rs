//! The rendering context: an append-only buffer together with the field
//! width, nesting depth and horizontal offset by which clause keywords and
//! their bodies are aligned.
use pad::{Alignment, PadStr};
use vstd::prelude::*;
use vstd::string::StringExecFns;

verus! {

/// The number of terminal columns that a text takes.
pub uninterp spec fn columns(text: Seq<char>) -> nat;

/// Every character is a printable ASCII character, `' '` to `'~'`.
pub open spec fn printable(text: Seq<char>) -> bool {
    forall|i: int| 0 <= i < text.len() ==> ' ' <= #[trigger] text[i] <= '~'
}

/// `n` spaces.
pub open spec fn blanks(n: int) -> Seq<char> {
    Seq::new(
        if n > 0 {
            n as nat
        } else {
            0
        },
        |i: int| ' ',
    )
}

/// `text` moved to the right edge of a field of `width` columns; a text
/// that is wider than the field is left as it is.
pub open spec fn aligned(text: Seq<char>, width: usize) -> Seq<char> {
    blanks(width - columns(text)) + text
}

/// Calls `pad_to_width_with_alignment` of the `pad` crate with
/// `Alignment::Right`. That function counts the columns of the text with
/// the `unicode-width` crate and puts one space in front of the text for
/// each column that is missing up to `width`; a text that fills the field
/// comes back unchanged. A printable ASCII character takes one column.
#[verifier::external_body]
fn align_right(text: &str, width: usize) -> (r: String)
    ensures
        r@ == blanks(width - columns(text@)) + text@,
        printable(text@) ==> r@ == blanks(width - text@.len()) + text@,
{
    text.pad_to_width_with_alignment(width, Alignment::Right)
}

/// `n` as a `usize`, or the nearest bound where it does not fit.
pub open spec fn clamp(n: int) -> usize {
    if n < 0 {
        0
    } else if n > usize::MAX {
        usize::MAX
    } else {
        n as usize
    }
}

/// The state of a `Formatter` as plain values.
pub struct Layout {
    pub pad: usize,
    pub depth: usize,
    pub offset: usize,
    pub buffer: Seq<char>,
}

impl Layout {
    /// The state of a new formatter.
    pub open spec fn start() -> Layout {
        Layout { pad: 0, depth: 0, offset: 0, buffer: Seq::empty() }
    }

    /// The state with the field width `x`.
    pub open spec fn set_pad(self, x: usize) -> Layout {
        Layout { pad: x, ..self }
    }

    /// The state with the horizontal offset `x`.
    pub open spec fn set_offset(self, x: usize) -> Layout {
        Layout { offset: x, ..self }
    }

    /// The state one level deeper; the depth stays at `usize::MAX` once it
    /// is there.
    pub open spec fn new_context(self) -> Layout {
        Layout { depth: clamp(self.depth + 1), ..self }
    }

    /// The state one level less deep; the depth stays at zero once it is
    /// there.
    pub open spec fn pop_context(self) -> Layout {
        Layout { depth: clamp(self.depth - 1), ..self }
    }

    /// The state with `text` behind the buffer.
    pub open spec fn append(self, text: Seq<char>) -> Layout {
        Layout { buffer: self.buffer + text, ..self }
    }

    /// The state with a space behind the buffer.
    pub open spec fn space(self) -> Layout {
        Layout { buffer: self.buffer.push(' '), ..self }
    }

    /// The state with a line feed behind the buffer.
    pub open spec fn new_line(self) -> Layout {
        Layout { buffer: self.buffer.push('\n'), ..self }
    }

    /// The indentation of the current nesting depth.
    pub open spec fn nested_width(self) -> usize {
        clamp(self.depth * self.pad)
    }

    /// The width of the field in which a clause keyword is right-aligned.
    pub open spec fn left_width(self) -> usize {
        clamp(self.depth * self.pad + self.pad + self.offset)
    }

    /// The column at which the body of a clause starts.
    pub open spec fn right_width(self) -> usize {
        clamp(self.depth * self.pad + self.pad + 1 + self.offset)
    }

    /// `text` right-aligned in a field of `pad` columns, behind the
    /// indentation of the nesting depth.
    pub open spec fn padded(self, text: Seq<char>) -> Layout {
        self.append(aligned(Seq::empty(), self.nested_width())).append(aligned(text, self.pad))
    }

    /// `text` right-aligned in the keyword field.
    pub open spec fn left_side(self, text: Seq<char>) -> Layout {
        self.append(aligned(text, self.left_width()))
    }

    /// Blank space up to the column at which a clause body starts.
    pub open spec fn right_margin(self) -> Layout {
        self.append(aligned(Seq::empty(), self.right_width()))
    }

    /// Four spaces.
    pub open spec fn indent(self) -> Layout {
        self.append(blanks(4))
    }
}

/// The rendering context.
#[derive(Debug, Clone)]
pub struct Formatter {
    pub pad: usize,
    pub depth: usize,
    pub offset: usize,
    buffer: String,
}

impl View for Formatter {
    type V = Layout;

    closed spec fn view(&self) -> Layout {
        Layout { pad: self.pad, depth: self.depth, offset: self.offset, buffer: self.buffer@ }
    }
}

/// `depth * pad + pad + extra + offset`, or `usize::MAX` where that does no
/// longer fit.
fn field_width(depth: usize, pad: usize, extra: usize, offset: usize) -> (r: usize)
    ensures
        r == clamp(depth * pad + pad + extra + offset),
{
    assert(depth * pad >= 0) by (nonlinear_arith);
    match depth.checked_mul(pad) {
        Some(a) => match a.checked_add(pad) {
            Some(b) => match b.checked_add(extra) {
                Some(c) => match c.checked_add(offset) {
                    Some(d) => d,
                    None => usize::MAX,
                },
                None => usize::MAX,
            },
            None => usize::MAX,
        },
        None => usize::MAX,
    }
}

impl Formatter {
    /// A formatter with an empty buffer, no padding, depth or offset.
    pub fn new() -> (f: Formatter)
        ensures
            f@ == Layout::start(),
    {
        Formatter { pad: 0, offset: 0, depth: 0, buffer: String::new() }
    }

    /// The current field width.
    pub fn pad(&self) -> (r: usize)
        ensures
            r == self@.pad,
    {
        self.pad
    }

    /// The current nesting depth.
    pub fn depth(&self) -> (r: usize)
        ensures
            r == self@.depth,
    {
        self.depth
    }

    /// The current horizontal offset.
    pub fn offset(&self) -> (r: usize)
        ensures
            r == self@.offset,
    {
        self.offset
    }

    /// Sets the horizontal offset.
    pub fn set_offset(&mut self, x: usize) -> (r: &mut Self)
        ensures
            r@ == old(self)@.set_offset(x),
            *final(r) == *final(self),
    {
        self.offset = x;
        self
    }

    /// Leaves a nested context. The depth stays at zero once it is there.
    pub fn pop_context(&mut self) -> (r: &mut Self)
        ensures
            r@ == old(self)@.pop_context(),
            *final(r) == *final(self),
    {
        if self.depth > 0 {
            self.depth -= 1;
        }
        self
    }

    /// Enters a nested context. The depth stays at `usize::MAX` once it is
    /// there.
    pub fn new_context(&mut self) -> (r: &mut Self)
        ensures
            r@ == old(self)@.new_context(),
            *final(r) == *final(self),
    {
        if self.depth < usize::MAX {
            self.depth += 1;
        }
        self
    }

    /// Sets the field width.
    pub fn set_pad(&mut self, x: usize) -> (r: &mut Self)
        ensures
            r@ == old(self)@.set_pad(x),
            *final(r) == *final(self),
    {
        self.pad = x;
        self
    }

    /// The text rendered so far.
    pub fn output(&self) -> (s: String)
        ensures
            s@ == self@.buffer,
    {
        self.buffer.clone()
    }

    /// Appends a space.
    pub fn space(&mut self) -> (r: &mut Self)
        ensures
            r@ == old(self)@.space(),
            *final(r) == *final(self),
    {
        self.buffer.append(" ");
        proof {
            reveal_strlit(" ");
            assert(self.buffer@ =~= old(self).buffer@.push(' '));
        }
        self
    }

    /// Appends a line feed.
    pub fn new_line(&mut self) -> (r: &mut Self)
        ensures
            r@ == old(self)@.new_line(),
            *final(r) == *final(self),
    {
        self.buffer.append("\n");
        proof {
            reveal_strlit("\n");
            assert(self.buffer@ =~= old(self).buffer@.push('\n'));
        }
        self
    }

    /// Appends `s`.
    pub fn append(&mut self, s: &str) -> (r: &mut Self)
        ensures
            r@ == old(self)@.append(s@),
            *final(r) == *final(self),
    {
        self.buffer.append(s);
        self
    }

    /// Appends a space.
    pub fn ws(&mut self) -> (r: &mut Self)
        ensures
            r@ == old(self)@.space(),
            *final(r) == *final(self),
    {
        self.space()
    }

    /// Appends `s`.
    pub fn append_str(&mut self, s: &str) -> (r: &mut Self)
        ensures
            r@ == old(self)@.append(s@),
            *final(r) == *final(self),
    {
        self.append(s)
    }

    /// Appends the indentation of the nesting depth and then `s`,
    /// right-aligned in a field of `pad` columns.
    pub fn test(&mut self, s: &str) -> (r: &mut Self)
        ensures
            r@ == old(self)@.padded(s@),
            *final(r) == *final(self),
    {
        let margin = blank_field(nested_width(self.depth, self.pad));
        let field = align_right(s, self.pad);
        self.buffer.append(margin.as_str());
        self.buffer.append(field.as_str());
        self
    }

    /// Appends the indentation of the nesting depth and then `s`,
    /// right-aligned in a field of `pad` columns.
    pub fn append_with_padding(&mut self, s: &str) -> (r: &mut Self)
        ensures
            r@ == old(self)@.padded(s@),
            *final(r) == *final(self),
    {
        self.test(s)
    }

    /// `left`, right-aligned in a field of `pad` columns, a space and
    /// `right`.
    pub fn format(&self, left: String, right: String) -> (r: String)
        ensures
            r@ == (aligned(left@, self@.pad) + seq![' ']) + right@,
    {
        let mut r = align_right(left.as_str(), self.pad);
        r.append(" ");
        proof {
            reveal_strlit(" ");
            assert(" "@ =~= seq![' ']);
        }
        r.append(right.as_str());
        r
    }

    /// `left`, right-aligned in a field of `pad` columns.
    pub fn pad_string(&self, left: String) -> (r: String)
        ensures
            r@ == aligned(left@, self@.pad),
    {
        align_right(left.as_str(), self.pad)
    }

    /// Appends `s` as it renders itself.
    pub fn append_format<T: Format>(&mut self, s: &T) -> (r: &mut Self)
        ensures
            r@ == s.rendered(old(self)@),
            *final(r) == *final(self),
    {
        s.format(self)
    }

    /// Appends four spaces and then `s`.
    pub fn indent<T: Format>(&mut self, s: &T) -> (r: &mut Self)
        ensures
            r@ == s.rendered(old(self)@.indent()),
            *final(r) == *final(self),
    {
        self.indent_only();
        s.format(self)
    }

    /// Appends four spaces.
    pub fn indent_only(&mut self) -> (r: &mut Self)
        ensures
            r@ == old(self)@.indent(),
            *final(r) == *final(self),
    {
        self.buffer.append("    ");
        proof {
            reveal_strlit("    ");
            assert("    "@ =~= blanks(4));
        }
        self
    }

    /// Appends `left` in the keyword field, a space and `right`.
    pub fn append_left_right<T: Format>(&mut self, left: &str, right: &T) -> (r: &mut Self)
        ensures
            r@ == right.rendered(old(self)@.left_side(left@).space()),
            *final(r) == *final(self),
    {
        self.left_side(left).space();
        right.format(self)
    }

    /// Starts a new line and appends `s`.
    pub fn append_clause<T: Format>(&mut self, s: &T) -> (r: &mut Self)
        ensures
            r@ == s.rendered(old(self)@.new_line()),
            *final(r) == *final(self),
    {
        self.new_line();
        s.format(self)
    }

    /// Appends `s`, right-aligned in the keyword field: a field of
    /// `depth * pad + pad + offset` columns.
    pub fn left_side(&mut self, s: &str) -> (r: &mut Self)
        ensures
            r@ == old(self)@.left_side(s@),
            *final(r) == *final(self),
    {
        let field = align_right(s, field_width(self.depth, self.pad, 0, self.offset));
        self.buffer.append(field.as_str());
        self
    }

    /// Appends blank space up to the column at which a clause body starts:
    /// `depth * pad + pad + 1 + offset` spaces.
    pub fn right_margin(&mut self) -> (r: &mut Self)
        ensures
            r@ == old(self)@.right_margin(),
            *final(r) == *final(self),
    {
        let field = blank_field(field_width(self.depth, self.pad, 1, self.offset));
        self.buffer.append(field.as_str());
        self
    }

    /// Appends `s` at the column at which a clause body starts.
    pub fn right_side<T: Format>(&mut self, s: &T) -> (r: &mut Self)
        ensures
            r@ == s.rendered(old(self)@.right_margin()),
            *final(r) == *final(self),
    {
        self.right_margin();
        s.format(self)
    }
}

/// `depth * pad`, or `usize::MAX` where that does no longer fit.
fn nested_width(depth: usize, pad: usize) -> (r: usize)
    ensures
        r == clamp(depth * pad),
{
    assert(depth * pad >= 0) by (nonlinear_arith);
    match depth.checked_mul(pad) {
        Some(a) => a,
        None => usize::MAX,
    }
}

/// The empty text in a field of `width` columns.
fn blank_field(width: usize) -> (r: String)
    ensures
        r@ == aligned(Seq::empty(), width),
{
    proof {
        reveal_strlit("");
        assert(""@ =~= Seq::<char>::empty());
    }
    align_right("", width)
}

/// What can render itself into a formatter.
pub trait Format {
    /// The state that follows `st` once `self` has been rendered.
    spec fn rendered(&self, st: Layout) -> Layout;

    /// Appends the canonical text of `self` and returns the formatter.
    fn format<'a>(&self, f: &'a mut Formatter) -> (r: &'a mut Formatter)
        ensures
            r@ == self.rendered(old(f)@),
            *final(r) == *final(f),
    ;

    /// The canonical text of `self`, rendered by a new formatter.
    fn output(&self) -> (s: String)
        ensures
            s@ == self.rendered(Layout::start()).buffer,
    {
        let mut f = Formatter::new();
        self.format(&mut f);
        f.output()
    }
}

impl Format for String {
    open spec fn rendered(&self, st: Layout) -> Layout {
        st.append(self@)
    }

    fn format<'a>(&self, f: &'a mut Formatter) -> (r: &'a mut Formatter) {
        f.append(self.as_str())
    }
}

impl Format for &str {
    open spec fn rendered(&self, st: Layout) -> Layout {
        st.append(self@)
    }

    fn format<'a>(&self, f: &'a mut Formatter) -> (r: &'a mut Formatter) {
        f.append(*self)
    }
}

} // verus!
