//! Input handling shared by every production: outcomes, character classes,
//! whitespace, literal tokens and the conversions between `&str` and the
//! character slices that the productions read.
use vstd::prelude::*;
use vstd::string::StrSliceExecFns;

verus! {

/// Why a production did not yield a value.
///
/// `Error` is an ordinary mismatch: a choice goes on with its next
/// alternative. `Failure` ends the whole parse: it is raised where a numeric
/// literal has an exponent marker without digits.
#[derive(Debug, Clone, Copy, PartialEq, Eq, Structural)]
pub enum ParseError {
    Error,
    Failure,
}

/// The specified outcome of a production at some position: a value and the
/// number of characters consumed, a mismatch, or the end of the whole parse.
pub enum Parsed<T> {
    Done(T, nat),
    Miss,
    Halt,
}

impl<T> Parsed<T> {
    /// The same failure, as the outcome of another production.
    pub open spec fn cast<U>(self) -> Parsed<U> {
        match self {
            Parsed::Halt => Parsed::Halt,
            _ => Parsed::Miss,
        }
    }

    /// A mismatch becomes an absent value that consumed nothing.
    pub open spec fn optional(self) -> Parsed<Option<T>> {
        match self {
            Parsed::Done(v, n) => Parsed::Done(Some(v), n),
            Parsed::Miss => Parsed::Done(None, 0),
            Parsed::Halt => Parsed::Halt,
        }
    }

    /// The first outcome unless it is a mismatch.
    pub open spec fn or(self, other: Parsed<T>) -> Parsed<T> {
        match self {
            Parsed::Miss => other,
            _ => self,
        }
    }

    /// The outcome with `n` more characters consumed in front of it.
    pub open spec fn after(self, n: nat) -> Parsed<T> {
        match self {
            Parsed::Done(v, m) => Parsed::Done(v, n + m),
            _ => self,
        }
    }
}

/// What a production returns: the value and the position behind it.
pub type Step<T> = Result<(T, usize), ParseError>;

/// `r`, obtained at `pos` in `s`, is the outcome `expect`.
pub open spec fn agrees<T: DeepView>(r: Step<T>, s: Seq<char>, pos: int, expect: Parsed<T::V>) -> bool {
    match expect {
        Parsed::Done(v, n) => r matches Ok((t, end)) && t.deep_view() == v && end == pos + n && end
            <= s.len(),
        Parsed::Miss => r == Err::<(T, usize), ParseError>(ParseError::Error),
        Parsed::Halt => r == Err::<(T, usize), ParseError>(ParseError::Failure),
    }
}

/// `r`, obtained on the whole of `input`, is the outcome `expect`: the value
/// together with the unread rest of the input.
pub open spec fn parsed<T: DeepView>(
    r: Result<(&str, T), ParseError>,
    input: Seq<char>,
    expect: Parsed<T::V>,
) -> bool {
    match expect {
        Parsed::Done(v, n) => r matches Ok((rest, t)) && t.deep_view() == v && n <= input.len()
            && rest@ == input.skip(n as int),
        Parsed::Miss => r == Err::<(&str, T), ParseError>(ParseError::Error),
        Parsed::Halt => r == Err::<(&str, T), ParseError>(ParseError::Failure),
    }
}

/// The characters of `s`, in order.
pub fn chars_of(s: &str) -> (v: Vec<char>)
    ensures
        v@ == s@,
{
    let mut v: Vec<char> = Vec::new();
    for c in it: s.chars()
        invariant
            it.seq() == s@,
            v@ == s@.take(it.index() as int),
    {
        v.push(c);
    }
    v
}

/// `std::string::String::push` appends one character.
pub assume_specification[ std::string::String::push ](s: &mut std::string::String, c: char)
    ensures
        final(s)@ == old(s)@.push(c),
;

/// The characters `inp[from..to]` as a string.
pub fn text_of(inp: &[char], from: usize, to: usize) -> (r: String)
    requires
        from <= to <= inp@.len(),
    ensures
        r@ == inp@.subrange(from as int, to as int),
{
    let mut r = String::new();
    let mut i: usize = from;
    while i < to
        invariant
            from <= i <= to <= inp@.len(),
            r@ == inp@.subrange(from as int, i as int),
        decreases to - i,
    {
        r.push(inp[i]);
        i += 1;
    }
    r
}

/// Turns the outcome of a production run at the start of `input` into the
/// value and the unread rest.
pub(crate) fn finish<'a, T: DeepView>(input: &'a str, step: Step<T>, Ghost(expect): Ghost<Parsed<T::V>>) -> (r:
    Result<(&'a str, T), ParseError>)
    requires
        agrees(step, input@, 0, expect),
    ensures
        parsed(r, input@, expect),
{
    match step {
        Ok((t, end)) => {
            let n = input.unicode_len();
            Ok((input.substring_char(end, n), t))
        },
        Err(e) => Err(e),
    }
}

/// How much of `s` is left at `pos`: the measure by which the productions
/// terminate. A production may call any production further on in the
/// input; at its own position it calls productions of a lower rank only,
/// and the rank is the number that stands behind this measure in a
/// `decreases` clause.
pub open spec fn left(s: Seq<char>, pos: int) -> nat {
    if pos <= s.len() {
        (s.len() - pos) as nat
    } else {
        0
    }
}

/// Space, tab, carriage return and line feed separate tokens.
pub open spec fn is_space(c: char) -> bool {
    c == ' ' || c == '\t' || c == '\r' || c == '\n'
}

/// The length of the run of whitespace that starts at `pos`.
pub open spec fn ws_count(s: Seq<char>, pos: int) -> nat
    decreases s.len() - pos,
{
    if 0 <= pos < s.len() && is_space(s[pos]) {
        1 + ws_count(s, pos + 1)
    } else {
        0
    }
}

/// The position of the first character at or after `pos` that is no
/// whitespace.
pub fn skip_ws(inp: &[char], pos: usize) -> (end: usize)
    requires
        pos <= inp@.len(),
    ensures
        end == pos + ws_count(inp@, pos as int),
        end <= inp@.len(),
{
    let mut i: usize = pos;
    while i < inp.len() && (inp[i] == ' ' || inp[i] == '\t' || inp[i] == '\r' || inp[i] == '\n')
        invariant
            pos <= i <= inp@.len(),
            i + ws_count(inp@, i as int) == pos + ws_count(inp@, pos as int),
        decreases inp@.len() - i,
    {
        i += 1;
    }
    i
}

/// The outcome of a production that allows whitespace on both sides, given
/// the outcome `inner` of the bare production behind the leading whitespace.
pub open spec fn spaced<T>(s: Seq<char>, pos: int, inner: Parsed<T>) -> Parsed<T> {
    let w = ws_count(s, pos);
    match inner {
        Parsed::Done(v, n) => Parsed::Done(v, w + n + ws_count(s, pos + w + n)),
        _ => inner,
    }
}

/// Skips the whitespace behind a value that was parsed behind leading
/// whitespace.
pub(crate) fn spaced_step<T: DeepView>(
    inp: &[char],
    pos: usize,
    step: Step<T>,
    Ghost(inner): Ghost<Parsed<T::V>>,
) -> (r: Step<T>)
    requires
        pos <= inp@.len(),
        agrees(step, inp@, pos + ws_count(inp@, pos as int), inner),
    ensures
        agrees(r, inp@, pos as int, spaced(inp@, pos as int, inner)),
{
    match step {
        Ok((t, end)) => Ok((t, skip_ws(inp, end))),
        Err(e) => Err(e),
    }
}

/// An outcome that may be absent: a mismatch gives no value and consumes
/// nothing.
pub(crate) fn optional_step<T: DeepView>(
    inp: &[char],
    pos: usize,
    step: Step<T>,
    Ghost(expect): Ghost<Parsed<T::V>>,
) -> (r: Step<Option<T>>)
    requires
        pos <= inp@.len(),
        agrees(step, inp@, pos as int, expect),
    ensures
        agrees(r, inp@, pos as int, expect.optional()),
{
    match step {
        Ok((t, end)) => Ok((Some(t), end)),
        Err(ParseError::Error) => Ok((None, pos)),
        Err(ParseError::Failure) => Err(ParseError::Failure),
    }
}

/// The single character `c` at `pos`.
pub open spec fn spec_char(s: Seq<char>, pos: int, c: char) -> Parsed<()> {
    if 0 <= pos < s.len() && s[pos] == c {
        Parsed::Done((), 1)
    } else {
        Parsed::Miss
    }
}

/// Reads at `pos` what `spec_char` describes: the value and the position
/// behind it, or the kind of failure.
pub fn char_at(inp: &[char], pos: usize, c: char) -> (r: Step<()>)
    requires
        pos <= inp@.len(),
    ensures
        agrees(r, inp@, pos as int, spec_char(inp@, pos as int, c)),
{
    if pos < inp.len() && inp[pos] == c {
        Ok(((), pos + 1))
    } else {
        Err(ParseError::Error)
    }
}

/// The single character `c` with whitespace allowed on both sides.
pub open spec fn spec_symbol(s: Seq<char>, pos: int, c: char) -> Parsed<()> {
    spaced(s, pos, spec_char(s, pos + ws_count(s, pos), c))
}

/// Reads at `pos` what `spec_symbol` describes: the value and the position
/// behind it, or the kind of failure.
pub fn symbol_at(inp: &[char], pos: usize, c: char) -> (r: Step<()>)
    requires
        pos <= inp@.len(),
    ensures
        agrees(r, inp@, pos as int, spec_symbol(inp@, pos as int, c)),
{
    let start = skip_ws(inp, pos);
    let step = char_at(inp, start, c);
    spaced_step(inp, pos, step, Ghost(spec_char(inp@, pos + ws_count(inp@, pos as int), c)))
}

/// A set of characters by which a run is delimited.
#[derive(Debug, Clone, Copy, PartialEq, Eq, Structural)]
pub enum Class {
    /// The ASCII letters and digits.
    Alnum,
    /// The ASCII letters and digits and the underscore.
    Word,
    /// Every character but the given one.
    Not(char),
}

/// Whether `c` is an ASCII letter or digit.
pub open spec fn is_alnum(c: char) -> bool {
    'a' <= c <= 'z' || 'A' <= c <= 'Z' || '0' <= c <= '9'
}

impl Class {
    /// Whether `c` belongs to the set.
    pub open spec fn holds(self, c: char) -> bool {
        match self {
            Class::Alnum => is_alnum(c),
            Class::Word => is_alnum(c) || c == '_',
            Class::Not(x) => c != x,
        }
    }

    /// Whether `c` belongs to the set.
    pub fn test(&self, c: char) -> (r: bool)
        ensures
            r == self.holds(c),
    {
        match self {
            Class::Alnum => ('a' <= c && c <= 'z') || ('A' <= c && c <= 'Z') || ('0' <= c && c <= '9'),
            Class::Word => ('a' <= c && c <= 'z') || ('A' <= c && c <= 'Z') || ('0' <= c && c <= '9')
                || c == '_',
            Class::Not(x) => c != *x,
        }
    }
}

/// The length of the run of characters of `class` that starts at `pos`.
pub open spec fn run_len(s: Seq<char>, pos: int, class: Class) -> nat
    decreases s.len() - pos,
{
    if 0 <= pos < s.len() && class.holds(s[pos]) {
        1 + run_len(s, pos + 1, class)
    } else {
        0
    }
}

/// The position behind the run of characters of `class` that starts at
/// `pos`.
pub fn run_end(inp: &[char], pos: usize, class: Class) -> (end: usize)
    requires
        pos <= inp@.len(),
    ensures
        end == pos + run_len(inp@, pos as int, class),
        end <= inp@.len(),
{
    let mut i: usize = pos;
    while i < inp.len() && class.test(inp[i])
        invariant
            pos <= i <= inp@.len(),
            i + run_len(inp@, i as int, class) == pos + run_len(inp@, pos as int, class),
        decreases inp@.len() - i,
    {
        i += 1;
    }
    i
}

/// A run of at least one character of `class`: the text of the run.
pub open spec fn spec_run1(s: Seq<char>, pos: int, class: Class) -> Parsed<Seq<char>> {
    let n = run_len(s, pos, class);
    if n == 0 {
        Parsed::Miss
    } else {
        Parsed::Done(s.subrange(pos, pos + n), n)
    }
}

/// Reads at `pos` what `spec_run1` describes: the value and the position
/// behind it, or the kind of failure.
pub fn run1_at(inp: &[char], pos: usize, class: Class) -> (r: Step<String>)
    requires
        pos <= inp@.len(),
    ensures
        agrees(r, inp@, pos as int, spec_run1(inp@, pos as int, class)),
{
    let end = run_end(inp, pos, class);
    if end == pos {
        Err(ParseError::Error)
    } else {
        Ok((text_of(inp, pos, end), end))
    }
}

/// The text in front of the next `stop` at or behind `pos`, where there is
/// one; the `stop` itself is not consumed.
pub open spec fn spec_until(s: Seq<char>, pos: int, stop: char) -> Parsed<Seq<char>> {
    let n = run_len(s, pos, Class::Not(stop));
    if pos + n < s.len() {
        Parsed::Done(s.subrange(pos, pos + n), n)
    } else {
        Parsed::Miss
    }
}

/// Reads at `pos` what `spec_until` describes: the value and the position
/// behind it, or the kind of failure.
pub fn until_at(inp: &[char], pos: usize, stop: char) -> (r: Step<String>)
    requires
        pos <= inp@.len(),
    ensures
        agrees(r, inp@, pos as int, spec_until(inp@, pos as int, stop)),
{
    let end = run_end(inp, pos, Class::Not(stop));
    if end < inp.len() {
        Ok((text_of(inp, pos, end), end))
    } else {
        Err(ParseError::Error)
    }
}

/// Only whitespace stands in `s` from `from` up to `to`.
pub open spec fn blank_between(s: Seq<char>, from: int, to: int) -> bool {
    0 <= from <= to <= s.len() && forall|i: int| from <= i < to ==> is_space(#[trigger] s[i])
}

/// The run of whitespace at `pos` reaches at least as far as any position
/// up to which only whitespace stands, and ends where the run at that
/// position ends.
pub proof fn ws_count_through_blanks(s: Seq<char>, pos: int, p: int)
    requires
        blank_between(s, pos, p),
    ensures
        pos + ws_count(s, pos) == p + ws_count(s, p),
    decreases p - pos,
{
    if pos < p {
        assert(is_space(s[pos]));
        ws_count_through_blanks(s, pos + 1, p);
    }
}

/// Whitespace in front of a token is skipped whatever its length: where
/// only whitespace stands between `pos` and `p`, a production that allows
/// whitespace around it reads from `pos` what it reads from `p`, and
/// consumes the whitespace between the two as well.
pub proof fn spaced_skips_whitespace<T>(s: Seq<char>, pos: int, p: int, inner: spec_fn(int) -> Parsed<T>)
    requires
        blank_between(s, pos, p),
    ensures
        spaced(s, pos, inner(pos + ws_count(s, pos))) == spaced(
            s,
            p,
            inner(p + ws_count(s, p)),
        ).after((p - pos) as nat),
{
    ws_count_through_blanks(s, pos, p);
}

/// A run of whitespace is as long in a text as it is in the same text
/// behind a prefix.
pub proof fn ws_count_behind_prefix(prefix: Seq<char>, body: Seq<char>, pos: int)
    requires
        0 <= pos <= body.len(),
    ensures
        ws_count(prefix + body, prefix.len() + pos) == ws_count(body, pos),
    decreases body.len() - pos,
{
    let s = prefix + body;
    if pos < body.len() {
        assert(s[prefix.len() + pos] == body[pos]);
        ws_count_behind_prefix(prefix, body, pos + 1);
    }
}

/// Where every character from `pos` to the end of `s` is of `class`, the
/// run at `pos` reaches the end.
pub proof fn run_to_the_end(s: Seq<char>, pos: int, class: Class)
    requires
        0 <= pos <= s.len(),
        forall|i: int| pos <= i < s.len() ==> class.holds(#[trigger] s[i]),
    ensures
        run_len(s, pos, class) == s.len() - pos,
    decreases s.len() - pos,
{
    if pos < s.len() {
        assert(class.holds(s[pos]));
        run_to_the_end(s, pos + 1, class);
    }
}

/// Where `n` characters of `class` stand at `pos` and a character that is
/// not of `class` follows them, the run at `pos` has the length `n`.
pub proof fn run_up_to(s: Seq<char>, pos: int, n: nat, class: Class)
    requires
        0 <= pos,
        pos + n < s.len(),
        forall|i: int| pos <= i < pos + n ==> class.holds(#[trigger] s[i]),
        !class.holds(s[pos + n]),
    ensures
        run_len(s, pos, class) == n,
    decreases n,
{
    if n > 0 {
        assert(class.holds(s[pos]));
        run_up_to(s, pos + 1, (n - 1) as nat, class);
    }
}

/// Whitespace of any length in front of a punctuation character changes
/// nothing but the number of characters consumed: behind a prefix of
/// whitespace, `c` is read from a text exactly where it is read from the
/// text without the prefix, and the prefix is consumed with it.
pub proof fn symbol_behind_whitespace(blank: Seq<char>, body: Seq<char>, c: char)
    requires
        forall|i: int| 0 <= i < blank.len() ==> is_space(#[trigger] blank[i]),
    ensures
        spec_symbol(blank + body, 0, c) == spec_symbol(body, 0, c).after(blank.len()),
{
    let s = blank + body;
    assert forall|i: int| 0 <= i < blank.len() implies is_space(#[trigger] s[i]) by {
        assert(s[i] == blank[i]);
    }
    assert(blank_between(s, 0, blank.len() as int));
    ws_count_through_blanks(s, 0, blank.len() as int);
    ws_count_behind_prefix(blank, body, 0);
    let w = ws_count(body, 0);
    assert(ws_count(s, 0) == blank.len() + w);
    if w < body.len() {
        assert(s[(blank.len() + w) as int] == body[w as int]);
        ws_count_behind_prefix(blank, body, (w + 1) as int);
    }
}

} // verus!
