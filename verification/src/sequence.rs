//! Sequences: `CREATE`, `ALTER` and `DROP SEQUENCE`.
use crate::formatter::{Format, Formatter, Layout};
use crate::identifier::{
    name_at, schema_qualified_name_at, spec_name, spec_schema_qualified_name, Name, NameView,
    SchemaQualifiedName, SchemaQualifiedNameView,
};
use crate::keyword::{keyword_at, spec_keyword, Keyword};
use crate::numeric::{decimal, decimal_text, spec_u8, u8_at};
use crate::text::{
    agrees, chars_of, finish, left, parsed, skip_ws, spaced, spaced_step, ws_count, ParseError,
    Parsed, Step,
};
use vstd::prelude::*;

verus! {

/// `CREATE SEQUENCE`, the name and the options.
#[derive(Debug, PartialEq, Clone)]
pub struct Sequence(pub SchemaQualifiedName, pub Vec<SequenceGeneratorOption>);

/// The view of `Sequence`: the same tree with sequences of characters for
/// its strings and sequences of views for its lists.
#[verifier::ext_equal]
pub struct SequenceView(pub SchemaQualifiedNameView, pub Seq<SequenceGeneratorOption>);

impl DeepView for Sequence {
    type V = SequenceView;

    open spec fn deep_view(&self) -> SequenceView {
        SequenceView(self.0.deep_view(), self.1.deep_view())
    }
}

/// `ALTER SEQUENCE`, the name and the options.
#[derive(Debug, PartialEq, Clone)]
pub struct AlterSequence(pub Sequence);

/// The view of `AlterSequence`: the same tree with sequences of characters
/// for its strings and sequences of views for its lists.
#[verifier::ext_equal]
pub struct AlterSequenceView(pub SequenceView);

impl DeepView for AlterSequence {
    type V = AlterSequenceView;

    open spec fn deep_view(&self) -> AlterSequenceView {
        AlterSequenceView(self.0.deep_view())
    }
}

/// `DROP SEQUENCE` and the name.
#[derive(Debug, PartialEq, Clone)]
pub struct DropSequence(pub Name);

/// The view of `DropSequence`: the same tree with sequences of characters
/// for its strings and sequences of views for its lists.
#[verifier::ext_equal]
pub struct DropSequenceView(pub NameView);

impl DeepView for DropSequence {
    type V = DropSequenceView;

    open spec fn deep_view(&self) -> DropSequenceView {
        DropSequenceView(self.0.deep_view())
    }
}

/// An option of a sequence generator.
#[derive(Debug, Clone, Copy, PartialEq, Eq, Structural)]
pub enum SequenceGeneratorOption {
    Startwith(u8),
    IncrementBy(u8),
    NoMinValue,
    NoMaxValue,
    MinValue(u8),
    MaxValue(u8),
    Cache(u8),
}

impl DeepView for SequenceGeneratorOption {
    type V = SequenceGeneratorOption;

    open spec fn deep_view(&self) -> SequenceGeneratorOption {
        *self
    }
}

/// A number from 0 to 255, with whitespace allowed on both sides.
#[verifier::opaque]
pub open spec fn spec_ws_u8(s: Seq<char>, pos: int) -> Parsed<u8>
    decreases left(s, pos), 10nat,
{
    spaced(s, pos, spec_u8(s, pos + ws_count(s, pos)))
}

/// Reads at `pos` what `spec_ws_u8` describes: the value and the position
/// behind it, or the kind of failure.
pub fn ws_u8_at(inp: &[char], pos: usize) -> (r: Step<u8>)
    requires
        pos <= inp@.len(),
    ensures
        agrees(r, inp@, pos as int, spec_ws_u8(inp@, pos as int)),
    decreases left(inp@, pos as int), 10nat,
{
    reveal(spec_ws_u8);
    let start = skip_ws(inp, pos);
    let step = u8_at(inp, start);
    spaced_step(inp, pos, step, Ghost(spec_u8(inp@, pos + ws_count(inp@, pos as int))))
}

/// Two reserved words, one behind the other.
#[verifier::opaque]
pub open spec fn spec_two_keywords(s: Seq<char>, pos: int, first: Keyword, second: Keyword) -> Parsed<()> {
    match spec_keyword(s, pos, first) {
        Parsed::Done(_, k) => match spec_keyword(s, pos + k, second) {
            Parsed::Done(_, n) => Parsed::Done((), k + n),
            _ => Parsed::Miss,
        },
        _ => Parsed::Miss,
    }
}

/// Reads at `pos` what `spec_two_keywords` describes: the value and the
/// position behind it, or the kind of failure.
pub fn two_keywords_at(inp: &[char], pos: usize, first: Keyword, second: Keyword) -> (r: Step<()>)
    requires
        pos <= inp@.len(),
    ensures
        agrees(r, inp@, pos as int, spec_two_keywords(inp@, pos as int, first, second)),
{
    reveal(spec_two_keywords);
    match keyword_at(inp, pos, first) {
        Ok((_, p1)) => keyword_at(inp, p1, second),
        Err(_) => Err(ParseError::Error),
    }
}

/// An option of a sequence generator: `START WITH n`, `INCREMENT BY n`,
/// `CACHE n`, `NO MINVALUE`, `MINVALUE n`, `NO MAXVALUE` or `MAXVALUE n`,
/// tried in that order, with `n` from 0 to 255.
#[verifier::opaque]
pub open spec fn spec_sequence_generator_option(s: Seq<char>, pos: int) -> Parsed<
    SequenceGeneratorOption,
> {
    let max_value = match spec_keyword(s, pos, Keyword::Maxvalue) {
        Parsed::Done(_, k) => match spec_ws_u8(s, pos + k) {
            Parsed::Done(v, n) => Parsed::Done(SequenceGeneratorOption::MaxValue(v), k + n),
            _ => Parsed::Miss,
        },
        _ => Parsed::Miss,
    };
    let no_max_value = match spec_two_keywords(s, pos, Keyword::No, Keyword::Maxvalue) {
        Parsed::Done(_, n) => Parsed::Done(SequenceGeneratorOption::NoMaxValue, n),
        _ => max_value,
    };
    let min_value = match spec_keyword(s, pos, Keyword::Minvalue) {
        Parsed::Done(_, k) => match spec_ws_u8(s, pos + k) {
            Parsed::Done(v, n) => Parsed::Done(SequenceGeneratorOption::MinValue(v), k + n),
            _ => no_max_value,
        },
        _ => no_max_value,
    };
    let no_min_value = match spec_two_keywords(s, pos, Keyword::No, Keyword::Minvalue) {
        Parsed::Done(_, n) => Parsed::Done(SequenceGeneratorOption::NoMinValue, n),
        _ => min_value,
    };
    let cache = match spec_keyword(s, pos, Keyword::Cache) {
        Parsed::Done(_, k) => match spec_u8(s, pos + k) {
            Parsed::Done(v, n) => Parsed::Done(SequenceGeneratorOption::Cache(v), k + n),
            _ => no_min_value,
        },
        _ => no_min_value,
    };
    let increment = match spec_two_keywords(s, pos, Keyword::Increment, Keyword::By) {
        Parsed::Done(_, k) => match spec_u8(s, pos + k) {
            Parsed::Done(v, n) => Parsed::Done(SequenceGeneratorOption::IncrementBy(v), k + n),
            _ => cache,
        },
        _ => cache,
    };
    match spec_two_keywords(s, pos, Keyword::Start, Keyword::With) {
        Parsed::Done(_, k) => match spec_u8(s, pos + k) {
            Parsed::Done(v, n) => Parsed::Done(SequenceGeneratorOption::Startwith(v), k + n),
            _ => increment,
        },
        _ => increment,
    }
}

/// Reads at `pos` what `spec_sequence_generator_option` describes: the value
/// and the position behind it, or the kind of failure.
pub fn sequence_generator_option_at(inp: &[char], pos: usize) -> (r: Step<SequenceGeneratorOption>)
    requires
        pos <= inp@.len(),
    ensures
        agrees(r, inp@, pos as int, spec_sequence_generator_option(inp@, pos as int)),
{
    reveal(spec_sequence_generator_option);
    if let Ok((_, p1)) = two_keywords_at(inp, pos, Keyword::Start, Keyword::With) {
        if let Ok((v, end)) = u8_at(inp, p1) {
            return Ok((SequenceGeneratorOption::Startwith(v), end));
        }
    }
    if let Ok((_, p1)) = two_keywords_at(inp, pos, Keyword::Increment, Keyword::By) {
        if let Ok((v, end)) = u8_at(inp, p1) {
            return Ok((SequenceGeneratorOption::IncrementBy(v), end));
        }
    }
    if let Ok((_, p1)) = keyword_at(inp, pos, Keyword::Cache) {
        if let Ok((v, end)) = u8_at(inp, p1) {
            return Ok((SequenceGeneratorOption::Cache(v), end));
        }
    }
    if let Ok((_, end)) = two_keywords_at(inp, pos, Keyword::No, Keyword::Minvalue) {
        return Ok((SequenceGeneratorOption::NoMinValue, end));
    }
    if let Ok((_, p1)) = keyword_at(inp, pos, Keyword::Minvalue) {
        if let Ok((v, end)) = ws_u8_at(inp, p1) {
            return Ok((SequenceGeneratorOption::MinValue(v), end));
        }
    }
    if let Ok((_, end)) = two_keywords_at(inp, pos, Keyword::No, Keyword::Maxvalue) {
        return Ok((SequenceGeneratorOption::NoMaxValue, end));
    }
    if let Ok((_, p1)) = keyword_at(inp, pos, Keyword::Maxvalue) {
        if let Ok((v, end)) = ws_u8_at(inp, p1) {
            return Ok((SequenceGeneratorOption::MaxValue(v), end));
        }
    }
    Err(ParseError::Error)
}

/// Parses an option of a sequence generator at the start of `input`.
pub fn sequence_generator_option(input: &str) -> (r: Result<
    (&str, SequenceGeneratorOption), ParseError,
>)
    ensures
        parsed(r, input@, spec_sequence_generator_option(input@, 0)),
{
    let chars = chars_of(input);
    let step = sequence_generator_option_at(chars.as_slice(), 0);
    finish(input, step, Ghost(spec_sequence_generator_option(input@, 0)))
}

/// An option of a sequence generator, with whitespace allowed on both sides.
#[verifier::opaque]
pub open spec fn spec_ws_sequence_generator_option(s: Seq<char>, pos: int) -> Parsed<
    SequenceGeneratorOption,
>
    decreases left(s, pos), 10nat,
{
    spaced(s, pos, spec_sequence_generator_option(s, pos + ws_count(s, pos)))
}

/// Reads at `pos` what `spec_ws_sequence_generator_option` describes: the
/// value and the position behind it, or the kind of failure.
pub fn ws_sequence_generator_option_at(inp: &[char], pos: usize) -> (r: Step<
    SequenceGeneratorOption,
>)
    requires
        pos <= inp@.len(),
    ensures
        agrees(r, inp@, pos as int, spec_ws_sequence_generator_option(inp@, pos as int)),
    decreases left(inp@, pos as int), 10nat,
{
    reveal(spec_ws_sequence_generator_option);
    let start = skip_ws(inp, pos);
    let step = sequence_generator_option_at(inp, start);
    spaced_step(
        inp,
        pos,
        step,
        Ghost(spec_sequence_generator_option(inp@, pos + ws_count(inp@, pos as int))),
    )
}

/// The elements that follow in a sequence of which `acc` has been read,
/// as many as are there. An element that consumes nothing ends the
/// sequence with a mismatch.
#[verifier::opaque]
pub open spec fn spec_sequence_generator_options_more(s: Seq<char>, pos: int, acc: Seq<SequenceGeneratorOption>) -> Parsed<
    Seq<SequenceGeneratorOption>,
>
    decreases left(s, pos), 19nat,
{
    match spec_ws_sequence_generator_option(s, pos) {
        Parsed::Done(x, n) => if n == 0 || pos + n > s.len() {
            Parsed::Miss
        } else {
            spec_sequence_generator_options_more(s, pos + n, acc.push(x)).after(n)
        },
        Parsed::Halt => Parsed::Halt,
        Parsed::Miss => Parsed::Done(acc, 0),
    }
}

/// The options of a sequence generator.
#[verifier::opaque]
pub open spec fn spec_sequence_generator_options(s: Seq<char>, pos: int) -> Parsed<
    Seq<SequenceGeneratorOption>,
>
    decreases left(s, pos), 20nat,
{
    spec_sequence_generator_options_more(s, pos, Seq::empty())
}

/// Reads at `pos` what `spec_sequence_generator_options` describes: the
/// value and the position behind it, or the kind of failure.
pub fn sequence_generator_options_at(inp: &[char], pos: usize) -> (r: Step<
    Vec<SequenceGeneratorOption>,
>)
    requires
        pos <= inp@.len(),
    ensures
        agrees(r, inp@, pos as int, spec_sequence_generator_options(inp@, pos as int)),
    decreases left(inp@, pos as int), 20nat,
{
    reveal(spec_sequence_generator_options);
    reveal(spec_sequence_generator_options_more);
    reveal(spec_ws_sequence_generator_option);
    let ghost whole = spec_sequence_generator_options_more(inp@, pos as int, Seq::empty());
    let ghost mut xv: SequenceGeneratorOption;
    let start = pos;
    let mut acc: Vec<SequenceGeneratorOption> = Vec::new();
    assert(acc.deep_view() =~= Seq::empty());
    let mut cur = pos;
    reveal(spec_sequence_generator_options_more);
    reveal(spec_ws_sequence_generator_option);
    loop
        invariant
            pos <= start <= cur <= inp@.len(),
            spec_sequence_generator_options(inp@, pos as int) == whole.after((start - pos) as nat),
            whole == spec_sequence_generator_options_more(inp@, cur as int, acc.deep_view()).after(
                (cur - start) as nat,
            ),
        decreases inp@.len() - cur,
    {
        reveal(spec_sequence_generator_options_more);
        reveal(spec_ws_sequence_generator_option);
        match ws_sequence_generator_option_at(inp, cur) {
            Ok((x, p2)) => {
                if p2 == cur {
                    return Err(ParseError::Error);
                }
                let ghost before = acc.deep_view();
                proof {
                    xv = x.deep_view();
                }
                acc.push(x);
                assert(acc.deep_view() =~= before.push(xv));
                cur = p2;
            },
            Err(ParseError::Failure) => return Err(ParseError::Failure),
            Err(ParseError::Error) => return Ok((acc, cur)),
        }
    }
}

/// The name of a sequence and its options, behind `first` and `SEQUENCE`.
#[verifier::opaque]
pub open spec fn spec_sequence_behind(s: Seq<char>, pos: int, first: Keyword) -> Parsed<SequenceView> {
    match spec_two_keywords(s, pos, first, Keyword::Sequence) {
        Parsed::Done(_, k) => match spec_schema_qualified_name(s, pos + k) {
            Parsed::Done(name, n) => match spec_sequence_generator_options(s, pos + k + n) {
                Parsed::Done(options, m) => Parsed::Done(SequenceView(name, options), k + n + m),
                _ => Parsed::Miss,
            },
            _ => Parsed::Miss,
        },
        _ => Parsed::Miss,
    }
}

/// Reads at `pos` what `spec_sequence_behind` describes: the value and the
/// position behind it, or the kind of failure.
fn sequence_behind_at(inp: &[char], pos: usize, first: Keyword) -> (r: Step<Sequence>)
    requires
        pos <= inp@.len(),
    ensures
        agrees(r, inp@, pos as int, spec_sequence_behind(inp@, pos as int, first)),
{
    reveal(spec_sequence_behind);
    let p1 = match two_keywords_at(inp, pos, first, Keyword::Sequence) {
        Ok((_, p)) => p,
        Err(_) => return Err(ParseError::Error),
    };
    let (name, p2) = match schema_qualified_name_at(inp, p1) {
        Ok(done) => done,
        Err(_) => return Err(ParseError::Error),
    };
    match sequence_generator_options_at(inp, p2) {
        Ok((options, end)) => Ok((Sequence(name, options), end)),
        Err(_) => Err(ParseError::Error),
    }
}

/// `CREATE`, `SEQUENCE`, a name and the options.
#[verifier::opaque]
pub open spec fn spec_sequence(s: Seq<char>, pos: int) -> Parsed<SequenceView> {
    spec_sequence_behind(s, pos, Keyword::Create)
}

/// Reads at `pos` what `spec_sequence` describes: the value and the position
/// behind it, or the kind of failure.
pub fn sequence_at(inp: &[char], pos: usize) -> (r: Step<Sequence>)
    requires
        pos <= inp@.len(),
    ensures
        agrees(r, inp@, pos as int, spec_sequence(inp@, pos as int)),
{
    reveal(spec_sequence);
    sequence_behind_at(inp, pos, Keyword::Create)
}

/// Parses `CREATE SEQUENCE` with a name and options at the start of `input`.
pub fn parse_sequence(input: &str) -> (r: Result<(&str, Sequence), ParseError>)
    ensures
        parsed(r, input@, spec_sequence(input@, 0)),
{
    let chars = chars_of(input);
    let step = sequence_at(chars.as_slice(), 0);
    finish(input, step, Ghost(spec_sequence(input@, 0)))
}

/// `ALTER`, `SEQUENCE`, a name and the options.
#[verifier::opaque]
pub open spec fn spec_alter_sequence(s: Seq<char>, pos: int) -> Parsed<AlterSequenceView> {
    match spec_sequence_behind(s, pos, Keyword::Alter) {
        Parsed::Done(sequence, n) => Parsed::Done(AlterSequenceView(sequence), n),
        _ => Parsed::Miss,
    }
}

/// Reads at `pos` what `spec_alter_sequence` describes: the value and the
/// position behind it, or the kind of failure.
pub fn alter_sequence_at(inp: &[char], pos: usize) -> (r: Step<AlterSequence>)
    requires
        pos <= inp@.len(),
    ensures
        agrees(r, inp@, pos as int, spec_alter_sequence(inp@, pos as int)),
{
    reveal(spec_alter_sequence);
    match sequence_behind_at(inp, pos, Keyword::Alter) {
        Ok((sequence, end)) => Ok((AlterSequence(sequence), end)),
        Err(_) => Err(ParseError::Error),
    }
}

/// Parses `ALTER SEQUENCE` with a name and options at the start of `input`.
pub fn parse_alter_sequence(input: &str) -> (r: Result<(&str, AlterSequence), ParseError>)
    ensures
        parsed(r, input@, spec_alter_sequence(input@, 0)),
{
    let chars = chars_of(input);
    let step = alter_sequence_at(chars.as_slice(), 0);
    finish(input, step, Ghost(spec_alter_sequence(input@, 0)))
}

/// `DROP`, `SEQUENCE` and a name.
#[verifier::opaque]
pub open spec fn spec_drop_sequence(s: Seq<char>, pos: int) -> Parsed<DropSequenceView> {
    match spec_two_keywords(s, pos, Keyword::Drop, Keyword::Sequence) {
        Parsed::Done(_, k) => match spec_name(s, pos + k) {
            Parsed::Done(name, n) => Parsed::Done(DropSequenceView(name), k + n),
            _ => Parsed::Miss,
        },
        _ => Parsed::Miss,
    }
}

/// Reads at `pos` what `spec_drop_sequence` describes: the value and the
/// position behind it, or the kind of failure.
pub fn drop_sequence_at(inp: &[char], pos: usize) -> (r: Step<DropSequence>)
    requires
        pos <= inp@.len(),
    ensures
        agrees(r, inp@, pos as int, spec_drop_sequence(inp@, pos as int)),
{
    reveal(spec_drop_sequence);
    let p1 = match two_keywords_at(inp, pos, Keyword::Drop, Keyword::Sequence) {
        Ok((_, p)) => p,
        Err(_) => return Err(ParseError::Error),
    };
    match name_at(inp, p1) {
        Ok((name, end)) => Ok((DropSequence(name), end)),
        Err(_) => Err(ParseError::Error),
    }
}

/// Parses `DROP SEQUENCE` and a name at the start of `input`.
pub fn parse_drop_sequence(input: &str) -> (r: Result<(&str, DropSequence), ParseError>)
    ensures
        parsed(r, input@, spec_drop_sequence(input@, 0)),
{
    let chars = chars_of(input);
    let step = drop_sequence_at(chars.as_slice(), 0);
    finish(input, step, Ghost(spec_drop_sequence(input@, 0)))
}

impl SequenceGeneratorOption {
    /// The reserved words of the option.
    pub open spec fn spec_words(self) -> Seq<char> {
        match self {
            SequenceGeneratorOption::Startwith(_) => "START WITH "@,
            SequenceGeneratorOption::IncrementBy(_) => "INCREMENT BY "@,
            SequenceGeneratorOption::NoMinValue => "NO MINVALUE"@,
            SequenceGeneratorOption::NoMaxValue => "NO MAXVALUE"@,
            SequenceGeneratorOption::MinValue(_) => "MINVALUE "@,
            SequenceGeneratorOption::MaxValue(_) => "MAXVALUE "@,
            SequenceGeneratorOption::Cache(_) => "CACHE "@,
        }
    }

    /// The number of the option, where it has one.
    pub open spec fn spec_number(self) -> Option<u8> {
        match self {
            SequenceGeneratorOption::Startwith(n) => Some(n),
            SequenceGeneratorOption::IncrementBy(n) => Some(n),
            SequenceGeneratorOption::MinValue(n) => Some(n),
            SequenceGeneratorOption::MaxValue(n) => Some(n),
            SequenceGeneratorOption::Cache(n) => Some(n),
            _ => None,
        }
    }

    fn words(&self) -> (r: &'static str)
        ensures
            r@ == self.spec_words(),
    {
        match self {
            SequenceGeneratorOption::Startwith(_) => "START WITH ",
            SequenceGeneratorOption::IncrementBy(_) => "INCREMENT BY ",
            SequenceGeneratorOption::NoMinValue => "NO MINVALUE",
            SequenceGeneratorOption::NoMaxValue => "NO MAXVALUE",
            SequenceGeneratorOption::MinValue(_) => "MINVALUE ",
            SequenceGeneratorOption::MaxValue(_) => "MAXVALUE ",
            SequenceGeneratorOption::Cache(_) => "CACHE ",
        }
    }

    fn number(&self) -> (r: Option<u8>)
        ensures
            r == self.spec_number(),
    {
        match self {
            SequenceGeneratorOption::Startwith(n) => Some(*n),
            SequenceGeneratorOption::IncrementBy(n) => Some(*n),
            SequenceGeneratorOption::MinValue(n) => Some(*n),
            SequenceGeneratorOption::MaxValue(n) => Some(*n),
            SequenceGeneratorOption::Cache(n) => Some(*n),
            _ => None,
        }
    }
}

/// The reserved words of the option in upper case and, behind a space,
/// its number.
impl Format for SequenceGeneratorOption {
    open spec fn rendered(&self, st: Layout) -> Layout {
        match self.spec_number() {
            Some(n) => st.append(self.spec_words()).append(decimal(n as nat)),
            None => st.append(self.spec_words()),
        }
    }

    fn format<'a>(&self, f: &'a mut Formatter) -> (r: &'a mut Formatter) {
        f.append(self.words());
        match self.number() {
            Some(n) => {
                let t = decimal_text(n as u64);
                f.append(t.as_str())
            },
            None => f,
        }
    }
}

/// The state behind the first `n` options, each on a line of its own
/// behind four spaces.
pub open spec fn render_options(items: Vec<SequenceGeneratorOption>, n: nat, st: Layout) -> Layout
    decreases n,
{
    if n == 0 || n > items@.len() {
        st
    } else {
        items@[n - 1].rendered(render_options(items, (n - 1) as nat, st).new_line().indent())
    }
}

/// `CREATE SEQUENCE` and the name in one line; the field width is set to
/// four, and each option stands on a line of its own behind four spaces.
impl Format for Sequence {
    open spec fn rendered(&self, st: Layout) -> Layout {
        render_options(
            self.1,
            self.1@.len(),
            self.0.rendered(
                st.append(Keyword::Create.spec_text()).space().append(
                    Keyword::Sequence.spec_text(),
                ).space(),
            ).set_pad(4),
        )
    }

    fn format<'a>(&self, f: &'a mut Formatter) -> (r: &'a mut Formatter) {
        f.append(Keyword::Create.text()).ws().append(Keyword::Sequence.text()).ws();
        self.0.format(f).set_pad(4);
        let ghost start = f@;
        let mut i: usize = 0;
        while i < self.1.len()
            invariant
                i <= self.1.len(),
                f@ == render_options(self.1, i as nat, start),
            decreases self.1.len() - i,
        {
            f.new_line().indent_only();
            self.1[i].format(f);
            i += 1;
        }
        f
    }
}

/// `DROP SEQUENCE` and the name.
impl Format for DropSequence {
    open spec fn rendered(&self, st: Layout) -> Layout {
        self.0.rendered(st.append("DROP SEQUENCE "@))
    }

    fn format<'a>(&self, f: &'a mut Formatter) -> (r: &'a mut Formatter) {
        f.append("DROP SEQUENCE ");
        self.0.format(f)
    }
}

} // verus!
