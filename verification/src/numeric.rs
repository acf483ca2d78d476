//! Numeric literals: integers are read and written by the library itself,
//! floating point literals are recognised and normalised by `nom`.
use crate::formatter::{Format, Formatter, Layout};
use crate::text::{agrees, chars_of, finish, parsed, ParseError, Parsed, Step};
use vstd::prelude::*;
use vstd::slice::slice_subrange;

verus! {

/// A numeric literal. An integer holds its value; a floating point literal
/// holds the text by which its value is written.
#[derive(Debug, PartialEq, Clone)]
pub enum Numeric {
    Int(i32),
    Float(String),
    Decimal(String),
}

/// The view of `Numeric`: the same tree with sequences of characters for its
/// strings and sequences of views for its lists.
pub enum NumericView {
    Int(i32),
    Float(Seq<char>),
    Decimal(Seq<char>),
}

impl DeepView for Numeric {
    type V = NumericView;

    open spec fn deep_view(&self) -> NumericView {
        match self {
            Numeric::Int(i) => NumericView::Int(*i),
            Numeric::Float(t) => NumericView::Float(t@),
            Numeric::Decimal(t) => NumericView::Decimal(t@),
        }
    }
}

/// Whether `c` is a decimal digit.
pub open spec fn is_digit(c: char) -> bool {
    '0' <= c <= '9'
}

/// The length of the run of decimal digits that starts at `pos`.
pub open spec fn digits_len(s: Seq<char>, pos: int) -> nat
    decreases s.len() - pos,
{
    if 0 <= pos < s.len() && is_digit(s[pos]) {
        1 + digits_len(s, pos + 1)
    } else {
        0
    }
}

/// The number that the `n` digits from `pos` on write.
pub open spec fn digits_value(s: Seq<char>, pos: int, n: nat) -> nat
    decreases n,
{
    if n == 0 {
        0
    } else {
        (digits_value(s, pos, (n - 1) as nat) * 10 + (s[pos + n - 1] as int - '0' as int)) as nat
    }
}

/// A longer run of digits writes no smaller number.
pub proof fn digits_value_grows(s: Seq<char>, pos: int, m: nat, n: nat)
    requires
        m <= n,
        0 <= pos,
        pos + n <= s.len(),
        forall|i: int| pos <= i < pos + n ==> is_digit(#[trigger] s[i]),
    ensures
        digits_value(s, pos, m) <= digits_value(s, pos, n),
    decreases n,
{
    if m < n {
        digits_value_grows(s, pos, m, (n - 1) as nat);
        assert(is_digit(s[pos + n - 1]));
    }
}

/// Every character of the run of digits at `pos` is a digit.
pub proof fn digits_len_holds_digits(s: Seq<char>, pos: int)
    requires
        0 <= pos <= s.len(),
    ensures
        pos + digits_len(s, pos) <= s.len(),
        forall|i: int| pos <= i < pos + digits_len(s, pos) ==> is_digit(#[trigger] s[i]),
        pos + digits_len(s, pos) < s.len() ==> !is_digit(s[pos + digits_len(s, pos)]),
    decreases s.len() - pos,
{
    if pos < s.len() && is_digit(s[pos]) {
        digits_len_holds_digits(s, pos + 1);
    }
}

/// A run of digits that writes a number up to `max`.
pub open spec fn spec_unsigned(s: Seq<char>, pos: int, max: nat) -> Parsed<nat> {
    let n = digits_len(s, pos);
    if n == 0 || digits_value(s, pos, n) > max {
        Parsed::Miss
    } else {
        Parsed::Done(digits_value(s, pos, n), n)
    }
}

/// Reads a run of digits at `pos`. Returns the number and the position
/// behind the run, or nothing where there is no digit or the number is
/// above `max`.
pub fn unsigned_at(inp: &[char], pos: usize, max: u64) -> (r: Option<(u64, usize)>)
    requires
        pos <= inp@.len(),
        max <= u32::MAX,
    ensures
        match spec_unsigned(inp@, pos as int, max as nat) {
            Parsed::Done(v, n) => r matches Some((value, end)) && value == v && end == pos + n && end
                <= inp@.len(),
            _ => r is None,
        },
{
    proof {
        digits_len_holds_digits(inp@, pos as int);
    }
    let ghost total = digits_len(inp@, pos as int);
    let mut i: usize = pos;
    let mut acc: u64 = 0;
    while i < inp.len() && '0' <= inp[i] && inp[i] <= '9'
        invariant
            pos <= i <= pos + total <= inp.len(),
            total == digits_len(inp@, pos as int),
            forall|j: int| pos <= j < pos + total ==> is_digit(#[trigger] inp@[j]),
            pos + total < inp@.len() ==> !is_digit(inp@[pos + total]),
            acc == digits_value(inp@, pos as int, (i - pos) as nat),
            acc <= max <= u32::MAX,
        decreases inp@.len() - i,
    {
        assert(i < pos + total);
        let d = (inp[i] as u64) - ('0' as u64);
        let next = acc * 10 + d;
        assert(next == digits_value(inp@, pos as int, (i + 1 - pos) as nat));
        if next > max {
            proof {
                digits_value_grows(inp@, pos as int, (i + 1 - pos) as nat, total);
            }
            return None;
        }
        acc = next;
        i += 1;
    }
    assert(i == pos + total);
    if i == pos {
        None
    } else {
        Some((acc, i))
    }
}

/// An integer: an optional sign and a run of digits that writes a number
/// within the range of `i32`.
pub open spec fn spec_i32(s: Seq<char>, pos: int) -> Parsed<i32> {
    if 0 <= pos < s.len() && s[pos] == '-' {
        match spec_unsigned(s, pos + 1, 2147483648) {
            Parsed::Done(v, n) => Parsed::Done((0 - v) as i32, n + 1),
            _ => Parsed::Miss,
        }
    } else if 0 <= pos < s.len() && s[pos] == '+' {
        match spec_unsigned(s, pos + 1, 2147483647) {
            Parsed::Done(v, n) => Parsed::Done(v as i32, n + 1),
            _ => Parsed::Miss,
        }
    } else {
        match spec_unsigned(s, pos, 2147483647) {
            Parsed::Done(v, n) => Parsed::Done(v as i32, n),
            _ => Parsed::Miss,
        }
    }
}

/// Reads at `pos` what `spec_i32` describes: the value and the position
/// behind it, or the kind of failure.
pub fn i32_at(inp: &[char], pos: usize) -> (r: Step<i32>)
    requires
        pos <= inp@.len(),
    ensures
        agrees(r, inp@, pos as int, spec_i32(inp@, pos as int)),
{
    if pos < inp.len() && inp[pos] == '-' {
        match unsigned_at(inp, pos + 1, 2147483648) {
            Some((v, end)) => Ok(((0 - (v as i64)) as i32, end)),
            None => Err(ParseError::Error),
        }
    } else if pos < inp.len() && inp[pos] == '+' {
        match unsigned_at(inp, pos + 1, 2147483647) {
            Some((v, end)) => Ok((v as i32, end)),
            None => Err(ParseError::Error),
        }
    } else {
        match unsigned_at(inp, pos, 2147483647) {
            Some((v, end)) => Ok((v as i32, end)),
            None => Err(ParseError::Error),
        }
    }
}

/// A number from 0 to 255.
pub open spec fn spec_u8(s: Seq<char>, pos: int) -> Parsed<u8> {
    match spec_unsigned(s, pos, 255) {
        Parsed::Done(v, n) => Parsed::Done(v as u8, n),
        _ => Parsed::Miss,
    }
}

/// Reads at `pos` what `spec_u8` describes: the value and the position
/// behind it, or the kind of failure.
pub fn u8_at(inp: &[char], pos: usize) -> (r: Step<u8>)
    requires
        pos <= inp@.len(),
    ensures
        agrees(r, inp@, pos as int, spec_u8(inp@, pos as int)),
{
    match unsigned_at(inp, pos, 255) {
        Some((v, end)) => Ok((v as u8, end)),
        None => Err(ParseError::Error),
    }
}

/// A number from 0 to 65535.
pub open spec fn spec_u16(s: Seq<char>, pos: int) -> Parsed<u16> {
    match spec_unsigned(s, pos, 65535) {
        Parsed::Done(v, n) => Parsed::Done(v as u16, n),
        _ => Parsed::Miss,
    }
}

/// Reads at `pos` what `spec_u16` describes: the value and the position
/// behind it, or the kind of failure.
pub fn u16_at(inp: &[char], pos: usize) -> (r: Step<u16>)
    requires
        pos <= inp@.len(),
    ensures
        agrees(r, inp@, pos as int, spec_u16(inp@, pos as int)),
{
    match unsigned_at(inp, pos, 65535) {
        Some((v, end)) => Ok((v as u16, end)),
        None => Err(ParseError::Error),
    }
}

/// The character that writes the digit `d`.
pub open spec fn digit_char(d: int) -> char {
    if d == 0 {
        '0'
    } else if d == 1 {
        '1'
    } else if d == 2 {
        '2'
    } else if d == 3 {
        '3'
    } else if d == 4 {
        '4'
    } else if d == 5 {
        '5'
    } else if d == 6 {
        '6'
    } else if d == 7 {
        '7'
    } else if d == 8 {
        '8'
    } else {
        '9'
    }
}

/// The decimal digits of `n`, most significant first, without leading
/// zeros.
pub open spec fn decimal(n: nat) -> Seq<char>
    decreases n,
{
    if n < 10 {
        seq![digit_char(n as int)]
    } else {
        decimal(n / 10).push(digit_char((n % 10) as int))
    }
}

/// The decimal digits of `i`, behind a minus sign where it is negative.
pub open spec fn signed_decimal(i: int) -> Seq<char> {
    if i < 0 {
        seq!['-'] + decimal((0 - i) as nat)
    } else {
        decimal(i as nat)
    }
}

fn digit_of(d: u64) -> (c: char)
    requires
        d < 10,
    ensures
        c == digit_char(d as int),
{
    if d == 0 {
        '0'
    } else if d == 1 {
        '1'
    } else if d == 2 {
        '2'
    } else if d == 3 {
        '3'
    } else if d == 4 {
        '4'
    } else if d == 5 {
        '5'
    } else if d == 6 {
        '6'
    } else if d == 7 {
        '7'
    } else if d == 8 {
        '8'
    } else {
        '9'
    }
}

fn push_decimal(buf: &mut String, n: u64)
    ensures
        final(buf)@ == old(buf)@ + decimal(n as nat),
    decreases n,
{
    if n < 10 {
        buf.push(digit_of(n));
        assert(buf@ =~= old(buf)@ + decimal(n as nat));
    } else {
        push_decimal(buf, n / 10);
        buf.push(digit_of(n % 10));
        assert(buf@ =~= old(buf)@ + decimal(n as nat));
    }
}

/// The decimal text of `n`.
pub fn decimal_text(n: u64) -> (r: String)
    ensures
        r@ == decimal(n as nat),
{
    let mut r = String::new();
    push_decimal(&mut r, n);
    assert(r@ =~= decimal(n as nat));
    r
}

/// The decimal text of `i`.
pub fn signed_decimal_text(i: i64) -> (r: String)
    requires
        i > i64::MIN,
    ensures
        r@ == signed_decimal(i as int),
{
    let mut r = String::new();
    if i < 0 {
        r.push('-');
        push_decimal(&mut r, (0 - i) as u64);
        assert(r@ =~= seq!['-'] + decimal((0 - i) as nat));
    } else {
        push_decimal(&mut r, i as u64);
        assert(r@ =~= decimal(i as nat));
    }
    r
}

/// Whether `c` may stand in a floating point literal: a digit, a letter, a
/// sign or the decimal point.
pub open spec fn is_float_char(c: char) -> bool {
    is_digit(c) || 'a' <= c <= 'z' || 'A' <= c <= 'Z' || c == '+' || c == '-' || c == '.'
}

/// The length of the run of such characters that starts at `pos`.
pub open spec fn float_run(s: Seq<char>, pos: int) -> nat
    decreases s.len() - pos,
{
    if 0 <= pos < s.len() && is_float_char(s[pos]) {
        1 + float_run(s, pos + 1)
    } else {
        0
    }
}

fn float_run_end(inp: &[char], pos: usize) -> (end: usize)
    requires
        pos <= inp@.len(),
    ensures
        end == pos + float_run(inp@, pos as int),
        end <= inp@.len(),
{
    let mut i: usize = pos;
    while i < inp.len() && (('0' <= inp[i] && inp[i] <= '9') || ('a' <= inp[i] && inp[i] <= 'z') || ('A'
        <= inp[i] && inp[i] <= 'Z') || inp[i] == '+' || inp[i] == '-' || inp[i] == '.')
        invariant
            pos <= i <= inp@.len(),
            i + float_run(inp@, i as int) == pos + float_run(inp@, pos as int),
        decreases inp@.len() - i,
    {
        i += 1;
    }
    i
}

/// What `nom::number::complete::float` makes of `text`: the value, written
/// as `Display` writes an `f32`, and the number of characters read.
pub uninterp spec fn float_literal(text: Seq<char>) -> Parsed<Seq<char>>;

/// What `nom::number::complete::double` makes of `text`: the value, written
/// as `Display` writes an `f64`, and the number of characters read.
pub uninterp spec fn double_literal(text: Seq<char>) -> Parsed<Seq<char>>;

/// Calls `nom::number::complete::float` on `text`. The parser reads a
/// prefix of its input and returns the value with the unread rest; here
/// the value comes back as the text that `Display` writes for it. An
/// exponent marker without digits makes it fail for good, which is
/// reported as `ParseError::Failure`; any other mismatch as
/// `ParseError::Error`.
#[verifier::external_body]
fn scan_float(text: &[char]) -> (r: Result<(String, Vec<char>), ParseError>)
    ensures
        match float_literal(text@) {
            Parsed::Done(v, n) => r matches Ok((t, rest)) && t@ == v && n <= text@.len() && rest@
                == text@.skip(n as int),
            Parsed::Miss => r == Err::<(String, Vec<char>), ParseError>(ParseError::Error),
            Parsed::Halt => r == Err::<(String, Vec<char>), ParseError>(ParseError::Failure),
        },
{
    let owned: String = text.iter().collect();
    match nom::number::complete::float::<&str, nom::error::Error<&str>>(owned.as_str()) {
        Ok((rest, value)) => Ok((format!("{}", value), rest.chars().collect())),
        Err(nom::Err::Failure(_)) => Err(ParseError::Failure),
        Err(_) => Err(ParseError::Error),
    }
}

/// Calls `nom::number::complete::double` on `text`, in the same way as
/// `scan_float` calls `float`.
#[verifier::external_body]
fn scan_double(text: &[char]) -> (r: Result<(String, Vec<char>), ParseError>)
    ensures
        match double_literal(text@) {
            Parsed::Done(v, n) => r matches Ok((t, rest)) && t@ == v && n <= text@.len() && rest@
                == text@.skip(n as int),
            Parsed::Miss => r == Err::<(String, Vec<char>), ParseError>(ParseError::Error),
            Parsed::Halt => r == Err::<(String, Vec<char>), ParseError>(ParseError::Failure),
        },
{
    let owned: String = text.iter().collect();
    match nom::number::complete::double::<&str, nom::error::Error<&str>>(owned.as_str()) {
        Ok((rest, value)) => Ok((format!("{}", value), rest.chars().collect())),
        Err(nom::Err::Failure(_)) => Err(ParseError::Failure),
        Err(_) => Err(ParseError::Error),
    }
}

/// The run of characters at `pos` that may stand in a floating point
/// literal.
pub open spec fn float_text(s: Seq<char>, pos: int) -> Seq<char> {
    s.subrange(pos, pos + float_run(s, pos))
}

/// A single precision literal: where characters that may stand in a
/// floating point literal follow, what `nom` reads as a single precision
/// number from the run of them.
pub open spec fn spec_float(s: Seq<char>, pos: int) -> Parsed<NumericView> {
    if float_run(s, pos) == 0 {
        Parsed::Miss
    } else {
        match float_literal(float_text(s, pos)) {
            Parsed::Done(t, n) => Parsed::Done(NumericView::Float(t), n),
            Parsed::Halt => Parsed::Halt,
            Parsed::Miss => Parsed::Miss,
        }
    }
}

/// A double precision literal: where characters that may stand in a
/// floating point literal follow, what `nom` reads as a double precision
/// number from the run of them.
pub open spec fn spec_decimal(s: Seq<char>, pos: int) -> Parsed<NumericView> {
    if float_run(s, pos) == 0 {
        Parsed::Miss
    } else {
        match double_literal(float_text(s, pos)) {
            Parsed::Done(t, n) => Parsed::Done(NumericView::Decimal(t), n),
            Parsed::Halt => Parsed::Halt,
            Parsed::Miss => Parsed::Miss,
        }
    }
}

/// A numeric literal: an integer, a single precision literal or a double
/// precision literal, tried in that order. The first that matches wins,
/// so a literal that starts with an integer is that integer.
pub open spec fn spec_numeric(s: Seq<char>, pos: int) -> Parsed<NumericView> {
    match spec_i32(s, pos) {
        Parsed::Done(i, n) => Parsed::Done(NumericView::Int(i), n),
        _ => match spec_float(s, pos) {
            Parsed::Miss => spec_decimal(s, pos),
            other => other,
        },
    }
}

/// What follows from the result of `scan_float` or `scan_double` on the
/// run `inp[pos..run_end]`: the literal and the position behind it.
fn literal_step(
    pos: usize,
    run_end: usize,
    scanned: Result<(String, Vec<char>), ParseError>,
    single: bool,
) -> (r: Step<Numeric>)
    requires
        pos <= run_end,
        scanned matches Ok((_, rest)) ==> rest@.len() <= run_end - pos,
    ensures
        match scanned {
            Ok((t, rest)) => r matches Ok((v, end)) && end == run_end - rest@.len() && v.deep_view() == (
            if single {
                NumericView::Float(t@)
            } else {
                NumericView::Decimal(t@)
            }),
            Err(e) => r == Err::<(Numeric, usize), ParseError>(e),
        },
{
    match scanned {
        Ok((t, rest)) => {
            let end = run_end - rest.len();
            if single {
                Ok((Numeric::Float(t), end))
            } else {
                Ok((Numeric::Decimal(t), end))
            }
        },
        Err(e) => Err(e),
    }
}

/// Reads at `pos` what `spec_float` describes: the value and the position
/// behind it, or the kind of failure.
pub fn float_at(inp: &[char], pos: usize) -> (r: Step<Numeric>)
    requires
        pos <= inp@.len(),
    ensures
        agrees(r, inp@, pos as int, spec_float(inp@, pos as int)),
{
    let run_end = float_run_end(inp, pos);
    if run_end == pos {
        return Err(ParseError::Error);
    }
    let run = slice_subrange(inp, pos, run_end);
    assert(run@ == float_text(inp@, pos as int));
    literal_step(pos, run_end, scan_float(run), true)
}

/// Reads at `pos` what `spec_decimal` describes: the value and the
/// position behind it, or the kind of failure.
pub fn decimal_at(inp: &[char], pos: usize) -> (r: Step<Numeric>)
    requires
        pos <= inp@.len(),
    ensures
        agrees(r, inp@, pos as int, spec_decimal(inp@, pos as int)),
{
    let run_end = float_run_end(inp, pos);
    if run_end == pos {
        return Err(ParseError::Error);
    }
    let run = slice_subrange(inp, pos, run_end);
    assert(run@ == float_text(inp@, pos as int));
    literal_step(pos, run_end, scan_double(run), false)
}

/// Reads at `pos` what `spec_numeric` describes: the value and the
/// position behind it, or the kind of failure.
pub fn numeric_at(inp: &[char], pos: usize) -> (r: Step<Numeric>)
    requires
        pos <= inp@.len(),
    ensures
        agrees(r, inp@, pos as int, spec_numeric(inp@, pos as int)),
{
    match i32_at(inp, pos) {
        Ok((i, end)) => Ok((Numeric::Int(i), end)),
        Err(_) => match float_at(inp, pos) {
            Err(ParseError::Error) => decimal_at(inp, pos),
            other => other,
        },
    }
}

/// Parses a numeric literal at the start of `input`.
pub fn parse_numeric(input: &str) -> (r: Result<(&str, Numeric), ParseError>)
    ensures
        parsed(r, input@, spec_numeric(input@, 0)),
{
    let chars = chars_of(input);
    let step = numeric_at(chars.as_slice(), 0);
    finish(input, step, Ghost(spec_numeric(input@, 0)))
}

impl Format for Numeric {
    open spec fn rendered(&self, st: Layout) -> Layout {
        match self {
            Numeric::Int(i) => st.append(signed_decimal(*i as int)),
            Numeric::Float(t) => st.append(t@),
            Numeric::Decimal(t) => st.append(t@),
        }
    }

    fn format<'a>(&self, f: &'a mut Formatter) -> (r: &'a mut Formatter) {
        match self {
            Numeric::Int(i) => {
                let t = signed_decimal_text(*i as i64);
                f.append(t.as_str())
            },
            Numeric::Float(t) => f.append(t.as_str()),
            Numeric::Decimal(t) => f.append(t.as_str()),
        }
    }
}

} // verus!
