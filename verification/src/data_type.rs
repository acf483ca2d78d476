//! Data types.
use crate::formatter::{Format, Formatter, Layout};
use crate::keyword::{has_word_at, keyword_at, same_word, spec_keyword, word_at, Keyword};
use crate::list::List;
use crate::numeric::{decimal, decimal_text, spec_u8, u8_at};
use crate::sequence::{spec_two_keywords, spec_ws_u8, two_keywords_at, ws_u8_at};
use crate::term::value::{spec_value, value_at, Value, ValueView};
use crate::text::{
    agrees, chars_of, finish, left, optional_step, parsed, skip_ws, spaced, spaced_step,
    spec_symbol, symbol_at, ws_count, ParseError, Parsed, Step,
};
use vstd::prelude::*;
use vstd::string::StrSliceExecFns;

verus! {

/// A predefined data type.
#[derive(Debug, Clone, Copy, PartialEq, Eq, Structural)]
pub enum PredefinedType {
    Character,
    Char,
    CharacterVarying,
    CharVarying,
    Varchar,
    Binary,
    Serial,
    BinaryVarying,
    Varbinary,
    BinaryLargeObject,
    Blob,
    DateTime(DateTimeType),
    Numeric,
    Decimal,
    Dec,
    Float,
    Date,
    Time,
    Timestamp,
    Smallint,
    Integer,
    Boolean,
    Int,
    Json,
    Bigint,
    Enum,
}

impl DeepView for PredefinedType {
    type V = PredefinedType;

    open spec fn deep_view(&self) -> PredefinedType {
        *self
    }
}

/// A date or time type with its options.
#[derive(Debug, Clone, Copy, PartialEq, Eq, Structural)]
pub enum DateTimeType {
    Date,
    Time(DateTimeOption),
    Timestamp(DateTimeOption),
}

impl DeepView for DateTimeType {
    type V = DateTimeType;

    open spec fn deep_view(&self) -> DateTimeType {
        *self
    }
}

/// The precision of a time type, and whether it carries a time zone.
#[derive(Debug, Clone, Copy, PartialEq, Eq, Structural)]
pub struct DateTimeOption(pub Option<u8>, pub Option<bool>);

impl DeepView for DateTimeOption {
    type V = DateTimeOption;

    open spec fn deep_view(&self) -> DateTimeOption {
        *self
    }
}

/// A data type with its optional arguments.
#[derive(Debug, PartialEq, Clone)]
pub struct DataType(pub PredefinedType, pub Option<List<Value>>);

/// The view of `DataType`: the same tree with sequences of characters for
/// its strings and sequences of views for its lists.
#[verifier::ext_equal]
pub struct DataTypeView(pub PredefinedType, pub Option<Seq<ValueView>>);

impl DeepView for DataType {
    type V = DataTypeView;

    open spec fn deep_view(&self) -> DataTypeView {
        DataTypeView(self.0, self.1.deep_view())
    }
}

impl Default for DateTimeType {
    fn default() -> (r: DateTimeType)
        ensures
            r == DateTimeType::Date,
    {
        DateTimeType::Date
    }
}

impl Default for DateTimeOption {
    fn default() -> (r: DateTimeOption)
        ensures
            r == DateTimeOption(None, None),
    {
        DateTimeOption(None, None)
    }
}

/// How many names of predefined types there are.
pub open spec fn type_count() -> nat {
    26
}

impl PredefinedType {
    /// The name of the type in upper case. A date or time type has the
    /// name `DATE TIME` here and is written by its own rule.
    pub open spec fn spec_text(self) -> Seq<char> {
        match self {
            PredefinedType::Character => "CHARACTER"@,
            PredefinedType::Char => "CHAR"@,
            PredefinedType::CharacterVarying => "CHARACTER VARYING"@,
            PredefinedType::CharVarying => "CHAR VARYING"@,
            PredefinedType::Varchar => "VARCHAR"@,
            PredefinedType::Binary => "BINARY"@,
            PredefinedType::Serial => "SERIAL"@,
            PredefinedType::BinaryVarying => "BINARY VARYING"@,
            PredefinedType::Varbinary => "VARBINARY"@,
            PredefinedType::BinaryLargeObject => "BINARY LARGE OBJECT"@,
            PredefinedType::Blob => "BLOB"@,
            PredefinedType::DateTime(_) => "DATE TIME"@,
            PredefinedType::Numeric => "NUMERIC"@,
            PredefinedType::Decimal => "DECIMAL"@,
            PredefinedType::Dec => "DEC"@,
            PredefinedType::Float => "FLOAT"@,
            PredefinedType::Date => "DATE"@,
            PredefinedType::Time => "TIME"@,
            PredefinedType::Timestamp => "TIMESTAMP"@,
            PredefinedType::Smallint => "SMALLINT"@,
            PredefinedType::Integer => "INTEGER"@,
            PredefinedType::Boolean => "BOOLEAN"@,
            PredefinedType::Int => "INT"@,
            PredefinedType::Json => "JSON"@,
            PredefinedType::Bigint => "BIGINT"@,
            PredefinedType::Enum => "ENUM"@,
        }
    }

    /// The type at place `i` of the table of names, for `i` below
    /// `type_count()`.
    pub open spec fn spec_nth(i: usize) -> PredefinedType {
        match i {
            0 => PredefinedType::Character,
            1 => PredefinedType::Char,
            2 => PredefinedType::CharacterVarying,
            3 => PredefinedType::CharVarying,
            4 => PredefinedType::Varchar,
            5 => PredefinedType::Binary,
            6 => PredefinedType::Serial,
            7 => PredefinedType::BinaryVarying,
            8 => PredefinedType::Varbinary,
            9 => PredefinedType::BinaryLargeObject,
            10 => PredefinedType::Blob,
            11 => PredefinedType::DateTime(DateTimeType::Date),
            12 => PredefinedType::Numeric,
            13 => PredefinedType::Decimal,
            14 => PredefinedType::Dec,
            15 => PredefinedType::Float,
            16 => PredefinedType::Date,
            17 => PredefinedType::Time,
            18 => PredefinedType::Timestamp,
            19 => PredefinedType::Smallint,
            20 => PredefinedType::Integer,
            21 => PredefinedType::Boolean,
            22 => PredefinedType::Int,
            23 => PredefinedType::Json,
            24 => PredefinedType::Bigint,
            _ => PredefinedType::Enum,
        }
    }

    /// The name of the type in upper case.
    pub fn text(&self) -> (r: &'static str)
        ensures
            r@ == self.spec_text(),
    {
        match self {
            PredefinedType::Character => "CHARACTER",
            PredefinedType::Char => "CHAR",
            PredefinedType::CharacterVarying => "CHARACTER VARYING",
            PredefinedType::CharVarying => "CHAR VARYING",
            PredefinedType::Varchar => "VARCHAR",
            PredefinedType::Binary => "BINARY",
            PredefinedType::Serial => "SERIAL",
            PredefinedType::BinaryVarying => "BINARY VARYING",
            PredefinedType::Varbinary => "VARBINARY",
            PredefinedType::BinaryLargeObject => "BINARY LARGE OBJECT",
            PredefinedType::Blob => "BLOB",
            PredefinedType::DateTime(_) => "DATE TIME",
            PredefinedType::Numeric => "NUMERIC",
            PredefinedType::Decimal => "DECIMAL",
            PredefinedType::Dec => "DEC",
            PredefinedType::Float => "FLOAT",
            PredefinedType::Date => "DATE",
            PredefinedType::Time => "TIME",
            PredefinedType::Timestamp => "TIMESTAMP",
            PredefinedType::Smallint => "SMALLINT",
            PredefinedType::Integer => "INTEGER",
            PredefinedType::Boolean => "BOOLEAN",
            PredefinedType::Int => "INT",
            PredefinedType::Json => "JSON",
            PredefinedType::Bigint => "BIGINT",
            PredefinedType::Enum => "ENUM",
        }
    }

    /// The type at place `i` of the table of names.
    pub fn nth(i: usize) -> (r: PredefinedType)
        ensures
            r == PredefinedType::spec_nth(i),
    {
        match i {
            0 => PredefinedType::Character,
            1 => PredefinedType::Char,
            2 => PredefinedType::CharacterVarying,
            3 => PredefinedType::CharVarying,
            4 => PredefinedType::Varchar,
            5 => PredefinedType::Binary,
            6 => PredefinedType::Serial,
            7 => PredefinedType::BinaryVarying,
            8 => PredefinedType::Varbinary,
            9 => PredefinedType::BinaryLargeObject,
            10 => PredefinedType::Blob,
            11 => PredefinedType::DateTime(DateTimeType::Date),
            12 => PredefinedType::Numeric,
            13 => PredefinedType::Decimal,
            14 => PredefinedType::Dec,
            15 => PredefinedType::Float,
            16 => PredefinedType::Date,
            17 => PredefinedType::Time,
            18 => PredefinedType::Timestamp,
            19 => PredefinedType::Smallint,
            20 => PredefinedType::Integer,
            21 => PredefinedType::Boolean,
            22 => PredefinedType::Int,
            23 => PredefinedType::Json,
            24 => PredefinedType::Bigint,
            _ => PredefinedType::Enum,
        }
    }
}

/// Whether `c` has the Unicode property `Alphabetic`.
pub uninterp spec fn alphabetic(c: char) -> bool;

/// Calls `char::is_alphabetic`, which tells whether a character has the
/// Unicode property `Alphabetic`. Among the ASCII characters those are the
/// letters `a` to `z` and `A` to `Z`.
#[verifier::external_body]
fn is_alphabetic(c: char) -> (r: bool)
    ensures
        r == alphabetic(c),
        c <= '\x7f' ==> r == ('a' <= c <= 'z' || 'A' <= c <= 'Z'),
{
    c.is_alphabetic()
}

/// The length of the run of alphabetic characters that starts at `pos`.
pub open spec fn letters_len(s: Seq<char>, pos: int) -> nat
    decreases s.len() - pos,
{
    if 0 <= pos < s.len() && alphabetic(s[pos]) {
        1 + letters_len(s, pos + 1)
    } else {
        0
    }
}

fn letters_end(inp: &[char], pos: usize) -> (end: usize)
    requires
        pos <= inp@.len(),
    ensures
        end == pos + letters_len(inp@, pos as int),
        end <= inp@.len(),
{
    let mut i: usize = pos;
    while i < inp.len() && is_alphabetic(inp[i])
        invariant
            pos <= i <= inp@.len(),
            i + letters_len(inp@, i as int) == pos + letters_len(inp@, pos as int),
        decreases inp@.len() - i,
    {
        i += 1;
    }
    i
}

/// The first type from place `from` of the table on whose name `word`
/// spells, case apart.
pub open spec fn type_from(word: Seq<char>, from: nat) -> Option<PredefinedType>
    decreases type_count() - from,
{
    if from >= type_count() {
        None
    } else if same_word(word, PredefinedType::spec_nth(from as usize).spec_text()) {
        Some(PredefinedType::spec_nth(from as usize))
    } else {
        type_from(word, from + 1)
    }
}

/// A type by its name: the run of alphabetic characters at `pos`, where it
/// spells the name of a type.
#[verifier::opaque]
pub open spec fn spec_named_type(s: Seq<char>, pos: int) -> Parsed<PredefinedType> {
    let n = letters_len(s, pos);
    if n == 0 {
        Parsed::Miss
    } else {
        match type_from(s.subrange(pos, pos + n), 0) {
            Some(t) => Parsed::Done(t, n),
            None => Parsed::Miss,
        }
    }
}

/// Reads at `pos` what `spec_named_type` describes: the value and the
/// position behind it, or the kind of failure.
fn named_type_at(inp: &[char], pos: usize) -> (r: Step<PredefinedType>)
    requires
        pos <= inp@.len(),
    ensures
        agrees(r, inp@, pos as int, spec_named_type(inp@, pos as int)),
{
    reveal(spec_named_type);
    let end = letters_end(inp, pos);
    if end == pos {
        return Err(ParseError::Error);
    }
    let ghost word = inp@.subrange(pos as int, end as int);
    let mut i: usize = 0;
    while i < 26
        invariant
            i <= 26,
            pos < end <= inp@.len(),
            end == pos + letters_len(inp@, pos as int),
            word == inp@.subrange(pos as int, end as int),
            type_from(word, i as nat) == type_from(word, 0),
        decreases 26 - i,
    {
        reveal(spec_named_type);
        let t = PredefinedType::nth(i);
        let name = t.text();
        if name.unicode_len() == end - pos && word_at(inp, pos, name) {
            return Ok((t, end));
        }
        i += 1;
    }
    Err(ParseError::Error)
}

/// Three reserved words, one behind the other.
#[verifier::opaque]
pub open spec fn spec_three_keywords(
    s: Seq<char>,
    pos: int,
    first: Keyword,
    second: Keyword,
    third: Keyword,
) -> Parsed<()> {
    match spec_two_keywords(s, pos, first, second) {
        Parsed::Done(_, k) => match spec_keyword(s, pos + k, third) {
            Parsed::Done(_, n) => Parsed::Done((), k + n),
            _ => Parsed::Miss,
        },
        _ => Parsed::Miss,
    }
}

/// Reads at `pos` what `spec_three_keywords` describes: the value and the
/// position behind it, or the kind of failure.
fn three_keywords_at(inp: &[char], pos: usize, first: Keyword, second: Keyword, third: Keyword) -> (r:
    Step<()>)
    requires
        pos <= inp@.len(),
    ensures
        agrees(r, inp@, pos as int, spec_three_keywords(inp@, pos as int, first, second, third)),
{
    reveal(spec_three_keywords);
    match two_keywords_at(inp, pos, first, second) {
        Ok((_, p1)) => keyword_at(inp, p1, third),
        Err(_) => Err(ParseError::Error),
    }
}

/// `WITH TIME ZONE`, `WITHOUT TIME ZONE`, or nothing: this production
/// always matches.
#[verifier::opaque]
pub open spec fn spec_with_or_without_timezone(s: Seq<char>, pos: int) -> Parsed<Option<bool>> {
    match spec_three_keywords(s, pos, Keyword::With, Keyword::Time, Keyword::Zone) {
        Parsed::Done(_, n) => Parsed::Done(Some(true), n),
        _ => match spec_three_keywords(s, pos, Keyword::Without, Keyword::Time, Keyword::Zone) {
            Parsed::Done(_, n) => Parsed::Done(Some(false), n),
            _ => Parsed::Done(None, 0),
        },
    }
}

/// Reads at `pos` what `spec_with_or_without_timezone` describes: the value
/// and the position behind it, or the kind of failure.
pub fn with_or_without_timezone_at(inp: &[char], pos: usize) -> (r: Step<Option<bool>>)
    requires
        pos <= inp@.len(),
    ensures
        agrees(r, inp@, pos as int, spec_with_or_without_timezone(inp@, pos as int)),
{
    reveal(spec_with_or_without_timezone);
    if let Ok((_, end)) = three_keywords_at(inp, pos, Keyword::With, Keyword::Time, Keyword::Zone) {
        return Ok((Some(true), end));
    }
    match three_keywords_at(inp, pos, Keyword::Without, Keyword::Time, Keyword::Zone) {
        Ok((_, end)) => Ok((Some(false), end)),
        Err(_) => Ok((None, pos)),
    }
}

/// Parses an optional `WITH TIME ZONE` or `WITHOUT TIME ZONE` at the start of `input`.
pub fn parse_with_or_without_timezone(input: &str) -> (r: Result<(&str, Option<bool>), ParseError>)
    ensures
        parsed(r, input@, spec_with_or_without_timezone(input@, 0)),
{
    let chars = chars_of(input);
    let step = with_or_without_timezone_at(chars.as_slice(), 0);
    finish(input, step, Ghost(spec_with_or_without_timezone(input@, 0)))
}

/// A number from 0 to 255 between parentheses, or nothing: this
/// production always matches.
#[verifier::opaque]
pub open spec fn spec_time_precision(s: Seq<char>, pos: int) -> Parsed<Option<u8>> {
    match spec_symbol(s, pos, '(') {
        Parsed::Done(_, k) => match spec_ws_u8(s, pos + k) {
            Parsed::Done(v, n) => match spec_symbol(s, pos + k + n, ')') {
                Parsed::Done(_, m) => Parsed::Done(Some(v), k + n + m),
                _ => Parsed::Done(None, 0),
            },
            _ => Parsed::Done(None, 0),
        },
        _ => Parsed::Done(None, 0),
    }
}

/// Reads at `pos` what `spec_time_precision` describes: the value and the
/// position behind it, or the kind of failure.
pub fn time_precision_at(inp: &[char], pos: usize) -> (r: Step<Option<u8>>)
    requires
        pos <= inp@.len(),
    ensures
        agrees(r, inp@, pos as int, spec_time_precision(inp@, pos as int)),
{
    reveal(spec_time_precision);
    if let Ok((_, p1)) = symbol_at(inp, pos, '(') {
        if let Ok((v, p2)) = ws_u8_at(inp, p1) {
            if let Ok((_, end)) = symbol_at(inp, p2, ')') {
                return Ok((Some(v), end));
            }
        }
    }
    Ok((None, pos))
}

/// Parses an optional precision between parentheses at the start of `input`.
pub fn parse_time_precision(input: &str) -> (r: Result<(&str, Option<u8>), ParseError>)
    ensures
        parsed(r, input@, spec_time_precision(input@, 0)),
{
    let chars = chars_of(input);
    let step = time_precision_at(chars.as_slice(), 0);
    finish(input, step, Ghost(spec_time_precision(input@, 0)))
}

/// The options of a time type: an optional precision and an optional time
/// zone rule.
#[verifier::opaque]
pub open spec fn spec_datetime_option(s: Seq<char>, pos: int) -> Parsed<DateTimeOption> {
    match spec_time_precision(s, pos) {
        Parsed::Done(p, k) => match spec_with_or_without_timezone(s, pos + k) {
            Parsed::Done(z, n) => Parsed::Done(DateTimeOption(p, z), k + n),
            _ => Parsed::Miss,
        },
        _ => Parsed::Miss,
    }
}

/// Reads at `pos` what `spec_datetime_option` describes: the value and the
/// position behind it, or the kind of failure.
fn datetime_option_at(inp: &[char], pos: usize) -> (r: Step<DateTimeOption>)
    requires
        pos <= inp@.len(),
    ensures
        agrees(r, inp@, pos as int, spec_datetime_option(inp@, pos as int)),
{
    reveal(spec_datetime_option);
    let (p, p1) = match time_precision_at(inp, pos) {
        Ok(done) => done,
        Err(_) => return Err(ParseError::Error),
    };
    match with_or_without_timezone_at(inp, p1) {
        Ok((z, end)) => Ok((DateTimeOption(p, z), end)),
        Err(_) => Err(ParseError::Error),
    }
}

/// A date or time type: `DATE`, `TIMESTAMP` with its options or `TIME`
/// with its options, tried in that order.
#[verifier::opaque]
pub open spec fn spec_datetime_type(s: Seq<char>, pos: int) -> Parsed<DateTimeType> {
    match spec_keyword(s, pos, Keyword::Date) {
        Parsed::Done(_, n) => Parsed::Done(DateTimeType::Date, n),
        _ => {
            let time = match spec_keyword(s, pos, Keyword::Time) {
                Parsed::Done(_, k) => match spec_datetime_option(s, pos + k) {
                    Parsed::Done(o, n) => Parsed::Done(DateTimeType::Time(o), k + n),
                    _ => Parsed::Miss,
                },
                _ => Parsed::Miss,
            };
            match spec_keyword(s, pos, Keyword::Timestamp) {
                Parsed::Done(_, k) => match spec_datetime_option(s, pos + k) {
                    Parsed::Done(o, n) => Parsed::Done(DateTimeType::Timestamp(o), k + n),
                    _ => time,
                },
                _ => time,
            }
        },
    }
}

/// Reads at `pos` what `spec_datetime_type` describes: the value and the
/// position behind it, or the kind of failure.
pub fn datetime_type_at(inp: &[char], pos: usize) -> (r: Step<DateTimeType>)
    requires
        pos <= inp@.len(),
    ensures
        agrees(r, inp@, pos as int, spec_datetime_type(inp@, pos as int)),
{
    reveal(spec_datetime_type);
    if let Ok((_, end)) = keyword_at(inp, pos, Keyword::Date) {
        return Ok((DateTimeType::Date, end));
    }
    if let Ok((_, p1)) = keyword_at(inp, pos, Keyword::Timestamp) {
        if let Ok((o, end)) = datetime_option_at(inp, p1) {
            return Ok((DateTimeType::Timestamp(o), end));
        }
    }
    if let Ok((_, p1)) = keyword_at(inp, pos, Keyword::Time) {
        if let Ok((o, end)) = datetime_option_at(inp, p1) {
            return Ok((DateTimeType::Time(o), end));
        }
    }
    Err(ParseError::Error)
}

/// Parses a date or time type at the start of `input`.
pub fn parse_datetime_type(input: &str) -> (r: Result<(&str, DateTimeType), ParseError>)
    ensures
        parsed(r, input@, spec_datetime_type(input@, 0)),
{
    let chars = chars_of(input);
    let step = datetime_type_at(chars.as_slice(), 0);
    finish(input, step, Ghost(spec_datetime_type(input@, 0)))
}

/// A predefined type: a date or time type, `CHARACTER VARYING`, or a type
/// by its name, tried in that order.
#[verifier::opaque]
pub open spec fn spec_predefined_type(s: Seq<char>, pos: int) -> Parsed<PredefinedType> {
    match spec_datetime_type(s, pos) {
        Parsed::Done(d, n) => Parsed::Done(PredefinedType::DateTime(d), n),
        _ => match spec_two_keywords(s, pos, Keyword::Character, Keyword::Varying) {
            Parsed::Done(_, n) => Parsed::Done(PredefinedType::CharacterVarying, n),
            _ => spec_named_type(s, pos),
        },
    }
}

/// Reads at `pos` what `spec_predefined_type` describes: the value and the
/// position behind it, or the kind of failure.
pub fn predefined_type_at(inp: &[char], pos: usize) -> (r: Step<PredefinedType>)
    requires
        pos <= inp@.len(),
    ensures
        agrees(r, inp@, pos as int, spec_predefined_type(inp@, pos as int)),
{
    reveal(spec_predefined_type);
    if let Ok((d, end)) = datetime_type_at(inp, pos) {
        return Ok((PredefinedType::DateTime(d), end));
    }
    if let Ok((_, end)) = two_keywords_at(inp, pos, Keyword::Character, Keyword::Varying) {
        return Ok((PredefinedType::CharacterVarying, end));
    }
    named_type_at(inp, pos)
}

/// Parses a predefined type at the start of `input`.
pub fn parse_predefined_type(input: &str) -> (r: Result<(&str, PredefinedType), ParseError>)
    ensures
        parsed(r, input@, spec_predefined_type(input@, 0)),
{
    let chars = chars_of(input);
    let step = predefined_type_at(chars.as_slice(), 0);
    finish(input, step, Ghost(spec_predefined_type(input@, 0)))
}

/// A predefined type, with whitespace allowed on both sides.
#[verifier::opaque]
pub open spec fn spec_ws_predefined_type(s: Seq<char>, pos: int) -> Parsed<PredefinedType>
    decreases left(s, pos), 10nat,
{
    spaced(s, pos, spec_predefined_type(s, pos + ws_count(s, pos)))
}

/// Reads at `pos` what `spec_ws_predefined_type` describes: the value and
/// the position behind it, or the kind of failure.
pub fn ws_predefined_type_at(inp: &[char], pos: usize) -> (r: Step<PredefinedType>)
    requires
        pos <= inp@.len(),
    ensures
        agrees(r, inp@, pos as int, spec_ws_predefined_type(inp@, pos as int)),
    decreases left(inp@, pos as int), 10nat,
{
    reveal(spec_ws_predefined_type);
    let start = skip_ws(inp, pos);
    let step = predefined_type_at(inp, start);
    spaced_step(inp, pos, step, Ghost(spec_predefined_type(inp@, pos + ws_count(inp@, pos as int))))
}

/// The elements that follow in a list of which `acc` has been read: a
/// comma and an element, as often as both are there.
#[verifier::opaque]
pub open spec fn spec_type_arguments_more(s: Seq<char>, pos: int, acc: Seq<ValueView>) -> Parsed<
    Seq<ValueView>,
>
    decreases left(s, pos), 19nat,
{
    match spec_symbol(s, pos, ',') {
        Parsed::Done(_, k) => match spec_value(s, pos + k) {
            Parsed::Done(x, n) => spec_type_arguments_more(s, pos + k + n, acc.push(x)).after(
                k + n,
            ),
            Parsed::Halt => Parsed::Halt,
            Parsed::Miss => Parsed::Done(acc, 0),
        },
        _ => Parsed::Done(acc, 0),
    }
}

/// One or more literal values, separated by commas.
#[verifier::opaque]
pub open spec fn spec_type_arguments(s: Seq<char>, pos: int) -> Parsed<Seq<ValueView>>
    decreases left(s, pos), 20nat,
{
    match spec_value(s, pos) {
        Parsed::Done(x, n) => spec_type_arguments_more(s, pos + n, seq![x]).after(n),
        f => f.cast(),
    }
}

/// Reads at `pos` what `spec_type_arguments` describes: the value and the
/// position behind it, or the kind of failure.
pub fn type_arguments_at(inp: &[char], pos: usize) -> (r: Step<Vec<Value>>)
    requires
        pos <= inp@.len(),
    ensures
        agrees(r, inp@, pos as int, spec_type_arguments(inp@, pos as int)),
    decreases left(inp@, pos as int), 20nat,
{
    reveal(spec_type_arguments);
    reveal(spec_value);
    reveal(spec_type_arguments_more);
    reveal(spec_symbol);
    let (first, start) = match value_at(inp, pos) {
        Ok(done) => done,
        Err(e) => return Err(e),
    };
    let ghost whole = spec_type_arguments_more(inp@, start as int, seq![first.deep_view()]);
    let ghost mut xv = first.deep_view();
    let mut acc: Vec<Value> = Vec::new();
    acc.push(first);
    assert(acc.deep_view() =~= seq![xv]);
    let mut cur = start;
    reveal(spec_type_arguments_more);
    reveal(spec_value);
    loop
        invariant
            pos <= start <= cur <= inp@.len(),
            spec_type_arguments(inp@, pos as int) == whole.after((start - pos) as nat),
            whole == spec_type_arguments_more(inp@, cur as int, acc.deep_view()).after(
                (cur - start) as nat,
            ),
        decreases inp@.len() - cur,
    {
        reveal(spec_type_arguments_more);
        reveal(spec_value);
        let p1 = match symbol_at(inp, cur, ',') {
            Ok((_, p)) => p,
            Err(_) => return Ok((acc, cur)),
        };
        match value_at(inp, p1) {
            Ok((x, p2)) => {
                let ghost before = acc.deep_view();
                proof {
                    xv = x.deep_view();
                }
                acc.push(x);
                assert(acc.deep_view() =~= before.push(xv));
                cur = p2;
            },
            Err(ParseError::Failure) => return Err(ParseError::Failure),
            Err(ParseError::Error) => return Ok((acc, cur)),
        }
    }
}

/// One or more literal values between parentheses.
#[verifier::opaque]
pub open spec fn spec_arguments(s: Seq<char>, pos: int) -> Parsed<Seq<ValueView>> {
    match spec_symbol(s, pos, '(') {
        Parsed::Done(_, k) => match spec_type_arguments(s, pos + k) {
            Parsed::Done(list, n) => match spec_symbol(s, pos + k + n, ')') {
                Parsed::Done(_, m) => Parsed::Done(list, k + n + m),
                _ => Parsed::Miss,
            },
            f => f.cast(),
        },
        _ => Parsed::Miss,
    }
}

/// Reads at `pos` what `spec_arguments` describes: the value and the
/// position behind it, or the kind of failure.
fn arguments_at(inp: &[char], pos: usize) -> (r: Step<List<Value>>)
    requires
        pos <= inp@.len(),
    ensures
        agrees(r, inp@, pos as int, spec_arguments(inp@, pos as int)),
{
    reveal(spec_arguments);
    let p1 = match symbol_at(inp, pos, '(') {
        Ok((_, p)) => p,
        Err(_) => return Err(ParseError::Error),
    };
    let (list, p2) = match type_arguments_at(inp, p1) {
        Ok(done) => done,
        Err(e) => return Err(e),
    };
    match symbol_at(inp, p2, ')') {
        Ok((_, end)) => Ok((List(list), end)),
        Err(_) => Err(ParseError::Error),
    }
}

/// A data type: a predefined type and its optional arguments between
/// parentheses.
#[verifier::opaque]
pub open spec fn spec_data_type(s: Seq<char>, pos: int) -> Parsed<DataTypeView> {
    match spec_ws_predefined_type(s, pos) {
        Parsed::Done(t, k) => match spec_arguments(s, pos + k).optional() {
            Parsed::Done(arguments, n) => Parsed::Done(DataTypeView(t, arguments), k + n),
            f => f.cast(),
        },
        _ => Parsed::Miss,
    }
}

/// Reads at `pos` what `spec_data_type` describes: the value and the
/// position behind it, or the kind of failure.
pub fn data_type_at(inp: &[char], pos: usize) -> (r: Step<DataType>)
    requires
        pos <= inp@.len(),
    ensures
        agrees(r, inp@, pos as int, spec_data_type(inp@, pos as int)),
{
    reveal(spec_data_type);
    let (t, p1) = match ws_predefined_type_at(inp, pos) {
        Ok(done) => done,
        Err(_) => return Err(ParseError::Error),
    };
    match optional_step(inp, p1, arguments_at(inp, p1), Ghost(spec_arguments(inp@, p1 as int))) {
        Ok((arguments, end)) => Ok((DataType(t, arguments), end)),
        Err(e) => Err(e),
    }
}

/// Parses a data type at the start of `input`.
pub fn parse_data_type(input: &str) -> (r: Result<(&str, DataType), ParseError>)
    ensures
        parsed(r, input@, spec_data_type(input@, 0)),
{
    let chars = chars_of(input);
    let step = data_type_at(chars.as_slice(), 0);
    finish(input, step, Ghost(spec_data_type(input@, 0)))
}

/// The precision between parentheses, and ` WITH TIME ZONE` or
/// ` WITHOUT TIME ZONE`.
impl Format for DateTimeOption {
    open spec fn rendered(&self, st: Layout) -> Layout {
        let precise = match self.0 {
            Some(p) => st.append("("@).append(decimal(p as nat)).append(")"@),
            None => st,
        };
        match self.1 {
            Some(zone) => if zone {
                precise.space().append(Keyword::With.spec_text()).space().append(
                    Keyword::Time.spec_text(),
                ).space().append(Keyword::Zone.spec_text())
            } else {
                precise.space().append(Keyword::Without.spec_text()).space().append(
                    Keyword::Time.spec_text(),
                ).space().append(Keyword::Zone.spec_text())
            },
            None => precise,
        }
    }

    fn format<'a>(&self, f: &'a mut Formatter) -> (r: &'a mut Formatter) {
        match self.0 {
            Some(p) => {
                let t = decimal_text(p as u64);
                f.append_str("(").append(t.as_str()).append_str(")");
            },
            None => {},
        }
        match self.1 {
            Some(true) => f.ws().append(Keyword::With.text()).ws().append(Keyword::Time.text()).ws().append(
                Keyword::Zone.text(),
            ),
            Some(false) => f.ws().append(Keyword::Without.text()).ws().append(
                Keyword::Time.text(),
            ).ws().append(Keyword::Zone.text()),
            None => f,
        }
    }
}

impl Format for DateTimeType {
    open spec fn rendered(&self, st: Layout) -> Layout {
        match self {
            DateTimeType::Date => st.append(Keyword::Date.spec_text()),
            DateTimeType::Timestamp(o) => o.rendered(st.append(Keyword::Timestamp.spec_text())),
            DateTimeType::Time(o) => o.rendered(st.append(Keyword::Time.spec_text())),
        }
    }

    fn format<'a>(&self, f: &'a mut Formatter) -> (r: &'a mut Formatter) {
        match self {
            DateTimeType::Date => f.append(Keyword::Date.text()),
            DateTimeType::Timestamp(o) => {
                f.append(Keyword::Timestamp.text());
                o.format(f)
            },
            DateTimeType::Time(o) => {
                f.append(Keyword::Time.text());
                o.format(f)
            },
        }
    }
}

/// A date or time type by its own rule; any other type by its name in
/// upper case.
impl Format for PredefinedType {
    open spec fn rendered(&self, st: Layout) -> Layout {
        match self {
            PredefinedType::DateTime(d) => d.rendered(st),
            _ => st.append(self.spec_text()),
        }
    }

    fn format<'a>(&self, f: &'a mut Formatter) -> (r: &'a mut Formatter) {
        match self {
            PredefinedType::DateTime(d) => d.format(f),
            _ => f.append(self.text()),
        }
    }
}

/// The type and, directly behind it, the arguments between parentheses.
impl Format for DataType {
    open spec fn rendered(&self, st: Layout) -> Layout {
        match self.1 {
            Some(arguments) => arguments.rendered(self.0.rendered(st).append("("@)).append(")"@),
            None => self.0.rendered(st),
        }
    }

    fn format<'a>(&self, f: &'a mut Formatter) -> (r: &'a mut Formatter) {
        self.0.format(f);
        match &self.1 {
            Some(arguments) => {
                f.append_str("(");
                arguments.format(f).append_str(")")
            },
            None => f,
        }
    }
}

} // verus!
