//! Table and column constraints.
use crate::formatter::{Format, Formatter, Layout};
use crate::identifier::{spec_ws_name, ws_name_at, Name, NameView};
use crate::keyword::{keyword_at, spec_keyword, Keyword};
use crate::list::List;
use crate::sequence::{spec_two_keywords, two_keywords_at};
use crate::table::alter::{
    referential_triggered_action_at, spec_referential_triggered_action, ReferentialTriggeredAction,
};
use crate::table::create::{spec_ws_table_ref, ws_table_ref_at, TableRef, TableRefView};
use crate::term::column::{column_ref_at, spec_column_ref, ColumnRef, ColumnRefView};
use crate::text::{
    agrees, chars_of, finish, left, optional_step, parsed, run1_at, skip_ws, spaced, spaced_step,
    spec_run1, spec_symbol, symbol_at, ws_count, Class, ParseError, Parsed, Step,
};
use vstd::prelude::*;

verus! {

/// `UNIQUE` or `PRIMARY KEY`.
#[derive(Debug, Clone, Copy, PartialEq, Eq, Structural)]
pub enum UniqueSpecification {
    Unique,
    PrimaryKey,
}

impl DeepView for UniqueSpecification {
    type V = UniqueSpecification;

    open spec fn deep_view(&self) -> UniqueSpecification {
        *self
    }
}

/// A table constraint with an optional name.
#[derive(Debug, PartialEq, Clone)]
pub struct TableConstraintDefinition(pub Option<ConstraintNameDefinition>, pub TableConstraint);

/// The view of `TableConstraintDefinition`: the same tree with sequences of
/// characters for its strings and sequences of views for its lists.
#[verifier::ext_equal]
pub struct TableConstraintDefinitionView(
    pub Option<ConstraintNameDefinitionView>,
    pub TableConstraintView,
);

impl DeepView for TableConstraintDefinition {
    type V = TableConstraintDefinitionView;

    open spec fn deep_view(&self) -> TableConstraintDefinitionView {
        TableConstraintDefinitionView(self.0.deep_view(), self.1.deep_view())
    }
}

/// `UNIQUE` or `PRIMARY KEY` and the columns.
#[derive(Debug, PartialEq, Clone)]
pub struct UniqueConstraintDefinition(pub UniqueSpecification, pub List<ColumnRef>);

/// The view of `UniqueConstraintDefinition`: the same tree with sequences of
/// characters for its strings and sequences of views for its lists.
#[verifier::ext_equal]
pub struct UniqueConstraintDefinitionView(pub UniqueSpecification, pub Seq<ColumnRefView>);

impl DeepView for UniqueConstraintDefinition {
    type V = UniqueConstraintDefinitionView;

    open spec fn deep_view(&self) -> UniqueConstraintDefinitionView {
        UniqueConstraintDefinitionView(self.0, self.1.deep_view())
    }
}

/// `FOREIGN KEY`, the columns and what they reference.
#[derive(Debug, PartialEq, Clone)]
pub struct ReferentialConstraintDefinition(pub List<ColumnRef>, pub ReferencesSpecification);

/// The view of `ReferentialConstraintDefinition`: the same tree with
/// sequences of characters for its strings and sequences of views for its
/// lists.
#[verifier::ext_equal]
pub struct ReferentialConstraintDefinitionView(
    pub Seq<ColumnRefView>,
    pub ReferencesSpecificationView,
);

impl DeepView for ReferentialConstraintDefinition {
    type V = ReferentialConstraintDefinitionView;

    open spec fn deep_view(&self) -> ReferentialConstraintDefinitionView {
        ReferentialConstraintDefinitionView(self.0.deep_view(), self.1.deep_view())
    }
}

/// `REFERENCES`, the table, its columns and an optional triggered action.
#[derive(Debug, PartialEq, Clone)]
pub struct ReferencesSpecification(
    pub TableRef,
    pub List<ColumnRef>,
    pub Option<ReferentialTriggeredAction>,
);

/// The view of `ReferencesSpecification`: the same tree with sequences of
/// characters for its strings and sequences of views for its lists.
#[verifier::ext_equal]
pub struct ReferencesSpecificationView(
    pub TableRefView,
    pub Seq<ColumnRefView>,
    pub Option<ReferentialTriggeredAction>,
);

impl DeepView for ReferencesSpecification {
    type V = ReferencesSpecificationView;

    open spec fn deep_view(&self) -> ReferencesSpecificationView {
        ReferencesSpecificationView(
            self.0.deep_view(),
            self.1.deep_view(),
            self.2.deep_view(),
        )
    }
}

/// A table constraint.
#[derive(Debug, PartialEq, Clone)]
pub enum TableConstraint {
    Unique(UniqueConstraintDefinition),
    Reference(ReferentialConstraintDefinition),
    Check(String),
}

/// The view of `TableConstraint`: the same tree with sequences of characters
/// for its strings and sequences of views for its lists.
#[verifier::ext_equal]
pub enum TableConstraintView {
    Unique(UniqueConstraintDefinitionView),
    Reference(ReferentialConstraintDefinitionView),
    Check(Seq<char>),
}

impl DeepView for TableConstraint {
    type V = TableConstraintView;

    open spec fn deep_view(&self) -> TableConstraintView {
        match *self {
            TableConstraint::Unique(x0) => TableConstraintView::Unique(x0.deep_view()),
            TableConstraint::Reference(x0) => TableConstraintView::Reference(x0.deep_view()),
            TableConstraint::Check(x0) => TableConstraintView::Check(x0@),
        }
    }
}

/// `CONSTRAINT` and a name.
#[derive(Debug, PartialEq, Clone)]
pub struct ConstraintNameDefinition(pub Name);

/// The view of `ConstraintNameDefinition`: the same tree with sequences of
/// characters for its strings and sequences of views for its lists.
#[verifier::ext_equal]
pub struct ConstraintNameDefinitionView(pub NameView);

impl DeepView for ConstraintNameDefinition {
    type V = ConstraintNameDefinitionView;

    open spec fn deep_view(&self) -> ConstraintNameDefinitionView {
        ConstraintNameDefinitionView(self.0.deep_view())
    }
}

/// A column constraint.
#[derive(Debug, Clone, Copy, PartialEq, Eq, Structural)]
pub enum ColumnConstraint {
    NotNull,
    Unique(UniqueSpecification),
}

impl DeepView for ColumnConstraint {
    type V = ColumnConstraint;

    open spec fn deep_view(&self) -> ColumnConstraint {
        *self
    }
}

/// A column constraint with an optional name.
#[derive(Debug, PartialEq, Clone)]
pub struct ColumnConstraintDefinition(pub Option<ConstraintNameDefinition>, pub ColumnConstraint);

/// The view of `ColumnConstraintDefinition`: the same tree with sequences of
/// characters for its strings and sequences of views for its lists.
#[verifier::ext_equal]
pub struct ColumnConstraintDefinitionView(
    pub Option<ConstraintNameDefinitionView>,
    pub ColumnConstraint,
);

impl DeepView for ColumnConstraintDefinition {
    type V = ColumnConstraintDefinitionView;

    open spec fn deep_view(&self) -> ColumnConstraintDefinitionView {
        ColumnConstraintDefinitionView(self.0.deep_view(), self.1)
    }
}

/// A name that is being defined.
#[derive(Debug, PartialEq, Clone)]
pub struct Definition(pub Name);

/// The view of `Definition`: the same tree with sequences of characters for
/// its strings and sequences of views for its lists.
#[verifier::ext_equal]
pub struct DefinitionView(pub NameView);

impl DeepView for Definition {
    type V = DefinitionView;

    open spec fn deep_view(&self) -> DefinitionView {
        DefinitionView(self.0.deep_view())
    }
}

/// `UNIQUE`, or `PRIMARY KEY`.
#[verifier::opaque]
pub open spec fn spec_unique_specification(s: Seq<char>, pos: int) -> Parsed<UniqueSpecification> {
    match spec_keyword(s, pos, Keyword::Unique) {
        Parsed::Done(_, n) => Parsed::Done(UniqueSpecification::Unique, n),
        _ => match spec_two_keywords(s, pos, Keyword::Primary, Keyword::Key) {
            Parsed::Done(_, n) => Parsed::Done(UniqueSpecification::PrimaryKey, n),
            _ => Parsed::Miss,
        },
    }
}

/// Reads at `pos` what `spec_unique_specification` describes: the value and
/// the position behind it, or the kind of failure.
pub fn unique_specification_at(inp: &[char], pos: usize) -> (r: Step<UniqueSpecification>)
    requires
        pos <= inp@.len(),
    ensures
        agrees(r, inp@, pos as int, spec_unique_specification(inp@, pos as int)),
{
    reveal(spec_unique_specification);
    if let Ok((_, end)) = keyword_at(inp, pos, Keyword::Unique) {
        return Ok((UniqueSpecification::Unique, end));
    }
    match two_keywords_at(inp, pos, Keyword::Primary, Keyword::Key) {
        Ok((_, end)) => Ok((UniqueSpecification::PrimaryKey, end)),
        Err(_) => Err(ParseError::Error),
    }
}

/// Parses `UNIQUE` or `PRIMARY KEY` at the start of `input`.
pub fn parse_unique_specification(input: &str) -> (r: Result<
    (&str, UniqueSpecification), ParseError,
>)
    ensures
        parsed(r, input@, spec_unique_specification(input@, 0)),
{
    let chars = chars_of(input);
    let step = unique_specification_at(chars.as_slice(), 0);
    finish(input, step, Ghost(spec_unique_specification(input@, 0)))
}

/// `UNIQUE` or `PRIMARY KEY`, with whitespace allowed on both sides.
#[verifier::opaque]
pub open spec fn spec_ws_unique_specification(s: Seq<char>, pos: int) -> Parsed<UniqueSpecification>
    decreases left(s, pos), 10nat,
{
    spaced(s, pos, spec_unique_specification(s, pos + ws_count(s, pos)))
}

/// Reads at `pos` what `spec_ws_unique_specification` describes: the value
/// and the position behind it, or the kind of failure.
pub fn ws_unique_specification_at(inp: &[char], pos: usize) -> (r: Step<UniqueSpecification>)
    requires
        pos <= inp@.len(),
    ensures
        agrees(r, inp@, pos as int, spec_ws_unique_specification(inp@, pos as int)),
    decreases left(inp@, pos as int), 10nat,
{
    reveal(spec_ws_unique_specification);
    let start = skip_ws(inp, pos);
    let step = unique_specification_at(inp, start);
    spaced_step(
        inp,
        pos,
        step,
        Ghost(spec_unique_specification(inp@, pos + ws_count(inp@, pos as int))),
    )
}

/// The elements that follow in a list of which `acc` has been read: a
/// comma and an element, as often as both are there.
#[verifier::opaque]
pub open spec fn spec_column_refs_more(s: Seq<char>, pos: int, acc: Seq<ColumnRefView>) -> Parsed<
    Seq<ColumnRefView>,
>
    decreases left(s, pos), 19nat,
{
    match spec_symbol(s, pos, ',') {
        Parsed::Done(_, k) => match spec_column_ref(s, pos + k) {
            Parsed::Done(x, n) => spec_column_refs_more(s, pos + k + n, acc.push(x)).after(k + n),
            Parsed::Halt => Parsed::Halt,
            Parsed::Miss => Parsed::Done(acc, 0),
        },
        _ => Parsed::Done(acc, 0),
    }
}

/// One or more column references, separated by commas.
#[verifier::opaque]
pub open spec fn spec_column_refs(s: Seq<char>, pos: int) -> Parsed<Seq<ColumnRefView>>
    decreases left(s, pos), 20nat,
{
    match spec_column_ref(s, pos) {
        Parsed::Done(x, n) => spec_column_refs_more(s, pos + n, seq![x]).after(n),
        f => f.cast(),
    }
}

/// Reads at `pos` what `spec_column_refs` describes: the value and the
/// position behind it, or the kind of failure.
pub fn column_refs_at(inp: &[char], pos: usize) -> (r: Step<Vec<ColumnRef>>)
    requires
        pos <= inp@.len(),
    ensures
        agrees(r, inp@, pos as int, spec_column_refs(inp@, pos as int)),
    decreases left(inp@, pos as int), 20nat,
{
    reveal(spec_column_refs);
    reveal(spec_column_ref);
    reveal(spec_column_refs_more);
    reveal(spec_symbol);
    let (first, start) = match column_ref_at(inp, pos) {
        Ok(done) => done,
        Err(e) => return Err(e),
    };
    let ghost whole = spec_column_refs_more(inp@, start as int, seq![first.deep_view()]);
    let ghost mut xv = first.deep_view();
    let mut acc: Vec<ColumnRef> = Vec::new();
    acc.push(first);
    assert(acc.deep_view() =~= seq![xv]);
    let mut cur = start;
    reveal(spec_column_refs_more);
    reveal(spec_column_ref);
    loop
        invariant
            pos <= start <= cur <= inp@.len(),
            spec_column_refs(inp@, pos as int) == whole.after((start - pos) as nat),
            whole == spec_column_refs_more(inp@, cur as int, acc.deep_view()).after(
                (cur - start) as nat,
            ),
        decreases inp@.len() - cur,
    {
        reveal(spec_column_refs_more);
        reveal(spec_column_ref);
        let p1 = match symbol_at(inp, cur, ',') {
            Ok((_, p)) => p,
            Err(_) => return Ok((acc, cur)),
        };
        match column_ref_at(inp, p1) {
            Ok((x, p2)) => {
                let ghost before = acc.deep_view();
                proof {
                    xv = x.deep_view();
                }
                acc.push(x);
                assert(acc.deep_view() =~= before.push(xv));
                cur = p2;
            },
            Err(ParseError::Failure) => return Err(ParseError::Failure),
            Err(ParseError::Error) => return Ok((acc, cur)),
        }
    }
}

/// One or more column references between parentheses.
#[verifier::opaque]
pub open spec fn spec_column_list(s: Seq<char>, pos: int) -> Parsed<Seq<ColumnRefView>> {
    match spec_symbol(s, pos, '(') {
        Parsed::Done(_, k) => match spec_column_refs(s, pos + k) {
            Parsed::Done(list, n) => match spec_symbol(s, pos + k + n, ')') {
                Parsed::Done(_, m) => Parsed::Done(list, k + n + m),
                _ => Parsed::Miss,
            },
            _ => Parsed::Miss,
        },
        _ => Parsed::Miss,
    }
}

/// Reads at `pos` what `spec_column_list` describes: the value and the
/// position behind it, or the kind of failure.
fn column_list_at(inp: &[char], pos: usize) -> (r: Step<List<ColumnRef>>)
    requires
        pos <= inp@.len(),
    ensures
        agrees(r, inp@, pos as int, spec_column_list(inp@, pos as int)),
{
    reveal(spec_column_list);
    let p1 = match symbol_at(inp, pos, '(') {
        Ok((_, p)) => p,
        Err(_) => return Err(ParseError::Error),
    };
    let (list, p2) = match column_refs_at(inp, p1) {
        Ok(done) => done,
        Err(_) => return Err(ParseError::Error),
    };
    match symbol_at(inp, p2, ')') {
        Ok((_, end)) => Ok((List(list), end)),
        Err(_) => Err(ParseError::Error),
    }
}

/// `UNIQUE` or `PRIMARY KEY` and a list of columns between parentheses.
#[verifier::opaque]
pub open spec fn spec_unique_constraint_definition(s: Seq<char>, pos: int) -> Parsed<
    UniqueConstraintDefinitionView,
> {
    match spec_ws_unique_specification(s, pos) {
        Parsed::Done(kind, k) => match spec_column_list(s, pos + k) {
            Parsed::Done(list, n) => Parsed::Done(UniqueConstraintDefinitionView(kind, list), k + n),
            _ => Parsed::Miss,
        },
        _ => Parsed::Miss,
    }
}

/// Reads at `pos` what `spec_unique_constraint_definition` describes: the
/// value and the position behind it, or the kind of failure.
pub fn unique_constraint_definition_at(inp: &[char], pos: usize) -> (r: Step<
    UniqueConstraintDefinition,
>)
    requires
        pos <= inp@.len(),
    ensures
        agrees(r, inp@, pos as int, spec_unique_constraint_definition(inp@, pos as int)),
{
    reveal(spec_unique_constraint_definition);
    let (kind, p1) = match ws_unique_specification_at(inp, pos) {
        Ok(done) => done,
        Err(_) => return Err(ParseError::Error),
    };
    match column_list_at(inp, p1) {
        Ok((list, end)) => Ok((UniqueConstraintDefinition(kind, list), end)),
        Err(_) => Err(ParseError::Error),
    }
}

/// Parses a `UNIQUE` or `PRIMARY KEY` constraint at the start of `input`.
pub fn parse_unique_constraint_definition(input: &str) -> (r: Result<
    (&str, UniqueConstraintDefinition), ParseError,
>)
    ensures
        parsed(r, input@, spec_unique_constraint_definition(input@, 0)),
{
    let chars = chars_of(input);
    let step = unique_constraint_definition_at(chars.as_slice(), 0);
    finish(input, step, Ghost(spec_unique_constraint_definition(input@, 0)))
}

/// `REFERENCES`, a table, a list of columns between parentheses and an
/// optional triggered action.
#[verifier::opaque]
pub open spec fn spec_references_specification(s: Seq<char>, pos: int) -> Parsed<
    ReferencesSpecificationView,
> {
    match spec_keyword(s, pos, Keyword::References) {
        Parsed::Done(_, k) => match spec_ws_table_ref(s, pos + k) {
            Parsed::Done(table, n) => match spec_column_list(s, pos + k + n) {
                Parsed::Done(list, m) => match spec_referential_triggered_action(
                    s,
                    pos + k + n + m,
                ).optional() {
                    Parsed::Done(action, j) => Parsed::Done(
                        ReferencesSpecificationView(table, list, action),
                        k + n + m + j,
                    ),
                    _ => Parsed::Miss,
                },
                _ => Parsed::Miss,
            },
            _ => Parsed::Miss,
        },
        _ => Parsed::Miss,
    }
}

/// Reads at `pos` what `spec_references_specification` describes: the value
/// and the position behind it, or the kind of failure.
pub fn references_specification_at(inp: &[char], pos: usize) -> (r: Step<ReferencesSpecification>)
    requires
        pos <= inp@.len(),
    ensures
        agrees(r, inp@, pos as int, spec_references_specification(inp@, pos as int)),
{
    reveal(spec_references_specification);
    let p1 = match keyword_at(inp, pos, Keyword::References) {
        Ok((_, p)) => p,
        Err(_) => return Err(ParseError::Error),
    };
    let (table, p2) = match ws_table_ref_at(inp, p1) {
        Ok(done) => done,
        Err(_) => return Err(ParseError::Error),
    };
    let (list, p3) = match column_list_at(inp, p2) {
        Ok(done) => done,
        Err(_) => return Err(ParseError::Error),
    };
    match optional_step(
        inp,
        p3,
        referential_triggered_action_at(inp, p3),
        Ghost(spec_referential_triggered_action(inp@, p3 as int)),
    ) {
        Ok((action, end)) => Ok((ReferencesSpecification(table, list, action), end)),
        Err(_) => Err(ParseError::Error),
    }
}

/// Parses `REFERENCES` with its table and columns at the start of `input`.
pub fn parse_references_specification(input: &str) -> (r: Result<
    (&str, ReferencesSpecification), ParseError,
>)
    ensures
        parsed(r, input@, spec_references_specification(input@, 0)),
{
    let chars = chars_of(input);
    let step = references_specification_at(chars.as_slice(), 0);
    finish(input, step, Ghost(spec_references_specification(input@, 0)))
}

/// `FOREIGN`, `KEY`, a list of columns between parentheses and what they
/// reference.
#[verifier::opaque]
pub open spec fn spec_referential_constraint_definition(s: Seq<char>, pos: int) -> Parsed<
    ReferentialConstraintDefinitionView,
> {
    match spec_two_keywords(s, pos, Keyword::Foreign, Keyword::Key) {
        Parsed::Done(_, k) => match spec_column_list(s, pos + k) {
            Parsed::Done(list, n) => match spec_references_specification(s, pos + k + n) {
                Parsed::Done(references, m) => Parsed::Done(
                    ReferentialConstraintDefinitionView(list, references),
                    k + n + m,
                ),
                _ => Parsed::Miss,
            },
            _ => Parsed::Miss,
        },
        _ => Parsed::Miss,
    }
}

/// Reads at `pos` what `spec_referential_constraint_definition` describes:
/// the value and the position behind it, or the kind of failure.
pub fn referential_constraint_definition_at(inp: &[char], pos: usize) -> (r: Step<
    ReferentialConstraintDefinition,
>)
    requires
        pos <= inp@.len(),
    ensures
        agrees(r, inp@, pos as int, spec_referential_constraint_definition(inp@, pos as int)),
{
    reveal(spec_referential_constraint_definition);
    let p1 = match two_keywords_at(inp, pos, Keyword::Foreign, Keyword::Key) {
        Ok((_, p)) => p,
        Err(_) => return Err(ParseError::Error),
    };
    let (list, p2) = match column_list_at(inp, p1) {
        Ok(done) => done,
        Err(_) => return Err(ParseError::Error),
    };
    match references_specification_at(inp, p2) {
        Ok((references, end)) => Ok((ReferentialConstraintDefinition(list, references), end)),
        Err(_) => Err(ParseError::Error),
    }
}

/// Parses a `FOREIGN KEY` constraint at the start of `input`.
pub fn parse_referential_constraint_definition(input: &str) -> (r: Result<
    (&str, ReferentialConstraintDefinition), ParseError,
>)
    ensures
        parsed(r, input@, spec_referential_constraint_definition(input@, 0)),
{
    let chars = chars_of(input);
    let step = referential_constraint_definition_at(chars.as_slice(), 0);
    finish(input, step, Ghost(spec_referential_constraint_definition(input@, 0)))
}

/// `CHECK` and, between parentheses, a text of at least one character
/// that holds no closing parenthesis. The text is kept as it is.
#[verifier::opaque]
pub open spec fn spec_check(s: Seq<char>, pos: int) -> Parsed<Seq<char>> {
    match spec_keyword(s, pos, Keyword::Check) {
        Parsed::Done(_, k) => match spec_symbol(s, pos + k, '(') {
            Parsed::Done(_, n) => match spec_run1(s, pos + k + n, Class::Not(')')) {
                Parsed::Done(text, m) => match spec_symbol(s, pos + k + n + m, ')') {
                    Parsed::Done(_, j) => Parsed::Done(text, k + n + m + j),
                    _ => Parsed::Miss,
                },
                _ => Parsed::Miss,
            },
            _ => Parsed::Miss,
        },
        _ => Parsed::Miss,
    }
}

/// Reads at `pos` what `spec_check` describes: the value and the position
/// behind it, or the kind of failure.
fn check_at(inp: &[char], pos: usize) -> (r: Step<String>)
    requires
        pos <= inp@.len(),
    ensures
        agrees(r, inp@, pos as int, spec_check(inp@, pos as int)),
{
    reveal(spec_check);
    let p1 = match keyword_at(inp, pos, Keyword::Check) {
        Ok((_, p)) => p,
        Err(_) => return Err(ParseError::Error),
    };
    let p2 = match symbol_at(inp, p1, '(') {
        Ok((_, p)) => p,
        Err(_) => return Err(ParseError::Error),
    };
    let (text, p3) = match run1_at(inp, p2, Class::Not(')')) {
        Ok(done) => done,
        Err(_) => return Err(ParseError::Error),
    };
    match symbol_at(inp, p3, ')') {
        Ok((_, end)) => Ok((text, end)),
        Err(_) => Err(ParseError::Error),
    }
}

/// A table constraint: a `FOREIGN KEY` constraint, a `UNIQUE` or
/// `PRIMARY KEY` constraint, or a `CHECK`, tried in that order.
#[verifier::opaque]
pub open spec fn spec_table_constraint(s: Seq<char>, pos: int) -> Parsed<TableConstraintView> {
    match spec_referential_constraint_definition(s, pos) {
        Parsed::Done(c, n) => Parsed::Done(TableConstraintView::Reference(c), n),
        _ => match spec_unique_constraint_definition(s, pos) {
            Parsed::Done(c, n) => Parsed::Done(TableConstraintView::Unique(c), n),
            _ => match spec_check(s, pos) {
                Parsed::Done(text, n) => Parsed::Done(TableConstraintView::Check(text), n),
                _ => Parsed::Miss,
            },
        },
    }
}

/// Reads at `pos` what `spec_table_constraint` describes: the value and the
/// position behind it, or the kind of failure.
pub fn table_constraint_at(inp: &[char], pos: usize) -> (r: Step<TableConstraint>)
    requires
        pos <= inp@.len(),
    ensures
        agrees(r, inp@, pos as int, spec_table_constraint(inp@, pos as int)),
{
    reveal(spec_table_constraint);
    if let Ok((c, end)) = referential_constraint_definition_at(inp, pos) {
        return Ok((TableConstraint::Reference(c), end));
    }
    if let Ok((c, end)) = unique_constraint_definition_at(inp, pos) {
        return Ok((TableConstraint::Unique(c), end));
    }
    match check_at(inp, pos) {
        Ok((text, end)) => Ok((TableConstraint::Check(text), end)),
        Err(_) => Err(ParseError::Error),
    }
}

/// Parses a table constraint at the start of `input`.
pub fn parse_table_constraint(input: &str) -> (r: Result<(&str, TableConstraint), ParseError>)
    ensures
        parsed(r, input@, spec_table_constraint(input@, 0)),
{
    let chars = chars_of(input);
    let step = table_constraint_at(chars.as_slice(), 0);
    finish(input, step, Ghost(spec_table_constraint(input@, 0)))
}

/// `CONSTRAINT` and a name.
#[verifier::opaque]
pub open spec fn spec_constraint_name_definition(s: Seq<char>, pos: int) -> Parsed<
    ConstraintNameDefinitionView,
> {
    match spec_keyword(s, pos, Keyword::Constraint) {
        Parsed::Done(_, k) => match spec_ws_name(s, pos + k) {
            Parsed::Done(name, n) => Parsed::Done(ConstraintNameDefinitionView(name), k + n),
            _ => Parsed::Miss,
        },
        _ => Parsed::Miss,
    }
}

/// Reads at `pos` what `spec_constraint_name_definition` describes: the
/// value and the position behind it, or the kind of failure.
pub fn constraint_name_definition_at(inp: &[char], pos: usize) -> (r: Step<
    ConstraintNameDefinition,
>)
    requires
        pos <= inp@.len(),
    ensures
        agrees(r, inp@, pos as int, spec_constraint_name_definition(inp@, pos as int)),
{
    reveal(spec_constraint_name_definition);
    let p1 = match keyword_at(inp, pos, Keyword::Constraint) {
        Ok((_, p)) => p,
        Err(_) => return Err(ParseError::Error),
    };
    match ws_name_at(inp, p1) {
        Ok((name, end)) => Ok((ConstraintNameDefinition(name), end)),
        Err(_) => Err(ParseError::Error),
    }
}

/// Parses `CONSTRAINT` and a name at the start of `input`.
pub fn parse_constraint_name_definition(input: &str) -> (r: Result<
    (&str, ConstraintNameDefinition), ParseError,
>)
    ensures
        parsed(r, input@, spec_constraint_name_definition(input@, 0)),
{
    let chars = chars_of(input);
    let step = constraint_name_definition_at(chars.as_slice(), 0);
    finish(input, step, Ghost(spec_constraint_name_definition(input@, 0)))
}

/// A table constraint behind an optional name.
#[verifier::opaque]
pub open spec fn spec_table_constraint_definition(s: Seq<char>, pos: int) -> Parsed<
    TableConstraintDefinitionView,
> {
    match spec_constraint_name_definition(s, pos).optional() {
        Parsed::Done(name, k) => match spec_table_constraint(s, pos + k) {
            Parsed::Done(c, n) => Parsed::Done(TableConstraintDefinitionView(name, c), k + n),
            _ => Parsed::Miss,
        },
        _ => Parsed::Miss,
    }
}

/// Reads at `pos` what `spec_table_constraint_definition` describes: the
/// value and the position behind it, or the kind of failure.
pub fn table_constraint_definition_at(inp: &[char], pos: usize) -> (r: Step<
    TableConstraintDefinition,
>)
    requires
        pos <= inp@.len(),
    ensures
        agrees(r, inp@, pos as int, spec_table_constraint_definition(inp@, pos as int)),
{
    reveal(spec_table_constraint_definition);
    let (name, p1) = match optional_step(
        inp,
        pos,
        constraint_name_definition_at(inp, pos),
        Ghost(spec_constraint_name_definition(inp@, pos as int)),
    ) {
        Ok(done) => done,
        Err(_) => return Err(ParseError::Error),
    };
    match table_constraint_at(inp, p1) {
        Ok((c, end)) => Ok((TableConstraintDefinition(name, c), end)),
        Err(_) => Err(ParseError::Error),
    }
}

/// Parses a table constraint with an optional name at the start of `input`.
pub fn parse_table_constraint_definition(input: &str) -> (r: Result<
    (&str, TableConstraintDefinition), ParseError,
>)
    ensures
        parsed(r, input@, spec_table_constraint_definition(input@, 0)),
{
    let chars = chars_of(input);
    let step = table_constraint_definition_at(chars.as_slice(), 0);
    finish(input, step, Ghost(spec_table_constraint_definition(input@, 0)))
}

/// `NOT NULL`, `UNIQUE` or `PRIMARY KEY`.
#[verifier::opaque]
pub open spec fn spec_column_constraint(s: Seq<char>, pos: int) -> Parsed<ColumnConstraint> {
    match spec_two_keywords(s, pos, Keyword::Not, Keyword::Null) {
        Parsed::Done(_, n) => Parsed::Done(ColumnConstraint::NotNull, n),
        _ => match spec_unique_specification(s, pos) {
            Parsed::Done(u, n) => Parsed::Done(ColumnConstraint::Unique(u), n),
            _ => Parsed::Miss,
        },
    }
}

/// Reads at `pos` what `spec_column_constraint` describes: the value and the
/// position behind it, or the kind of failure.
pub fn column_constraint_at(inp: &[char], pos: usize) -> (r: Step<ColumnConstraint>)
    requires
        pos <= inp@.len(),
    ensures
        agrees(r, inp@, pos as int, spec_column_constraint(inp@, pos as int)),
{
    reveal(spec_column_constraint);
    if let Ok((_, end)) = two_keywords_at(inp, pos, Keyword::Not, Keyword::Null) {
        return Ok((ColumnConstraint::NotNull, end));
    }
    match unique_specification_at(inp, pos) {
        Ok((u, end)) => Ok((ColumnConstraint::Unique(u), end)),
        Err(_) => Err(ParseError::Error),
    }
}

/// Parses a column constraint at the start of `input`.
pub fn parse_column_constraint(input: &str) -> (r: Result<(&str, ColumnConstraint), ParseError>)
    ensures
        parsed(r, input@, spec_column_constraint(input@, 0)),
{
    let chars = chars_of(input);
    let step = column_constraint_at(chars.as_slice(), 0);
    finish(input, step, Ghost(spec_column_constraint(input@, 0)))
}

/// A column constraint behind an optional name.
#[verifier::opaque]
pub open spec fn spec_column_constraint_definition(s: Seq<char>, pos: int) -> Parsed<
    ColumnConstraintDefinitionView,
> {
    match spec_constraint_name_definition(s, pos).optional() {
        Parsed::Done(name, k) => match spec_column_constraint(s, pos + k) {
            Parsed::Done(c, n) => Parsed::Done(ColumnConstraintDefinitionView(name, c), k + n),
            _ => Parsed::Miss,
        },
        _ => Parsed::Miss,
    }
}

/// Reads at `pos` what `spec_column_constraint_definition` describes: the
/// value and the position behind it, or the kind of failure.
pub fn column_constraint_definition_at(inp: &[char], pos: usize) -> (r: Step<
    ColumnConstraintDefinition,
>)
    requires
        pos <= inp@.len(),
    ensures
        agrees(r, inp@, pos as int, spec_column_constraint_definition(inp@, pos as int)),
{
    reveal(spec_column_constraint_definition);
    let (name, p1) = match optional_step(
        inp,
        pos,
        constraint_name_definition_at(inp, pos),
        Ghost(spec_constraint_name_definition(inp@, pos as int)),
    ) {
        Ok(done) => done,
        Err(_) => return Err(ParseError::Error),
    };
    match column_constraint_at(inp, p1) {
        Ok((c, end)) => Ok((ColumnConstraintDefinition(name, c), end)),
        Err(_) => Err(ParseError::Error),
    }
}

/// Parses a column constraint with an optional name at the start of `input`.
pub fn parse_column_constraint_definition(input: &str) -> (r: Result<
    (&str, ColumnConstraintDefinition), ParseError,
>)
    ensures
        parsed(r, input@, spec_column_constraint_definition(input@, 0)),
{
    let chars = chars_of(input);
    let step = column_constraint_definition_at(chars.as_slice(), 0);
    finish(input, step, Ghost(spec_column_constraint_definition(input@, 0)))
}

/// A column constraint with an optional name, with whitespace allowed on both sides.
#[verifier::opaque]
pub open spec fn spec_ws_column_constraint_definition(s: Seq<char>, pos: int) -> Parsed<
    ColumnConstraintDefinitionView,
>
    decreases left(s, pos), 10nat,
{
    spaced(s, pos, spec_column_constraint_definition(s, pos + ws_count(s, pos)))
}

/// Reads at `pos` what `spec_ws_column_constraint_definition` describes: the
/// value and the position behind it, or the kind of failure.
pub fn ws_column_constraint_definition_at(inp: &[char], pos: usize) -> (r: Step<
    ColumnConstraintDefinition,
>)
    requires
        pos <= inp@.len(),
    ensures
        agrees(r, inp@, pos as int, spec_ws_column_constraint_definition(inp@, pos as int)),
    decreases left(inp@, pos as int), 10nat,
{
    reveal(spec_ws_column_constraint_definition);
    let start = skip_ws(inp, pos);
    let step = column_constraint_definition_at(inp, start);
    spaced_step(
        inp,
        pos,
        step,
        Ghost(spec_column_constraint_definition(inp@, pos + ws_count(inp@, pos as int))),
    )
}

impl Format for UniqueSpecification {
    open spec fn rendered(&self, st: Layout) -> Layout {
        match self {
            UniqueSpecification::PrimaryKey => st.append("PRIMARY KEY"@),
            UniqueSpecification::Unique => st.append("UNIQUE"@),
        }
    }

    fn format<'a>(&self, f: &'a mut Formatter) -> (r: &'a mut Formatter) {
        match self {
            UniqueSpecification::PrimaryKey => f.append("PRIMARY KEY"),
            UniqueSpecification::Unique => f.append("UNIQUE"),
        }
    }
}

/// The kind and, directly behind it, the columns between parentheses.
impl Format for UniqueConstraintDefinition {
    open spec fn rendered(&self, st: Layout) -> Layout {
        self.1.rendered(self.0.rendered(st).append("("@)).append(")"@)
    }

    fn format<'a>(&self, f: &'a mut Formatter) -> (r: &'a mut Formatter) {
        self.0.format(f).append_str("(");
        self.1.format(f).append_str(")")
    }
}

impl Format for ConstraintNameDefinition {
    open spec fn rendered(&self, st: Layout) -> Layout {
        self.0.rendered(st.append(Keyword::Constraint.spec_text()).space())
    }

    fn format<'a>(&self, f: &'a mut Formatter) -> (r: &'a mut Formatter) {
        f.append(Keyword::Constraint.text()).space();
        self.0.format(f)
    }
}

impl Format for ReferencesSpecification {
    open spec fn rendered(&self, st: Layout) -> Layout {
        let columns = self.1.rendered(
            self.0.rendered(st.append(Keyword::References.spec_text()).space()).append("("@),
        ).append(")"@);
        match self.2 {
            Some(action) => action.rendered(columns.space()),
            None => columns,
        }
    }

    fn format<'a>(&self, f: &'a mut Formatter) -> (r: &'a mut Formatter) {
        f.append(Keyword::References.text()).ws();
        self.0.format(f).append_str("(");
        self.1.format(f).append_str(")");
        match &self.2 {
            Some(action) => {
                f.ws();
                action.format(f)
            },
            None => f,
        }
    }
}

impl Format for ReferentialConstraintDefinition {
    open spec fn rendered(&self, st: Layout) -> Layout {
        self.1.rendered(
            self.0.rendered(
                st.append(Keyword::Foreign.spec_text()).space().append(
                    Keyword::Key.spec_text(),
                ).space().append("("@),
            ).append(")"@).space(),
        )
    }

    fn format<'a>(&self, f: &'a mut Formatter) -> (r: &'a mut Formatter) {
        f.append(Keyword::Foreign.text()).ws().append(Keyword::Key.text()).ws().append_str("(");
        self.0.format(f).append_str(")").ws();
        self.1.format(f)
    }
}

impl Format for TableConstraint {
    open spec fn rendered(&self, st: Layout) -> Layout {
        match self {
            TableConstraint::Reference(c) => c.rendered(st),
            TableConstraint::Unique(c) => c.rendered(st),
            TableConstraint::Check(text) => st.append(Keyword::Check.spec_text()).append(
                "("@,
            ).append(text@).append(")"@),
        }
    }

    fn format<'a>(&self, f: &'a mut Formatter) -> (r: &'a mut Formatter) {
        match self {
            TableConstraint::Reference(c) => c.format(f),
            TableConstraint::Unique(c) => c.format(f),
            TableConstraint::Check(text) => f.append(Keyword::Check.text()).append_str("(").append(
                text.as_str(),
            ).append_str(")"),
        }
    }
}

impl Format for TableConstraintDefinition {
    open spec fn rendered(&self, st: Layout) -> Layout {
        match self.0 {
            Some(name) => self.1.rendered(name.rendered(st).space()),
            None => self.1.rendered(st),
        }
    }

    fn format<'a>(&self, f: &'a mut Formatter) -> (r: &'a mut Formatter) {
        match &self.0 {
            Some(name) => {
                name.format(f).ws();
                self.1.format(f)
            },
            None => self.1.format(f),
        }
    }
}

impl Format for ColumnConstraint {
    open spec fn rendered(&self, st: Layout) -> Layout {
        match self {
            ColumnConstraint::NotNull => st.append(Keyword::Not.spec_text()).space().append(
                Keyword::Null.spec_text(),
            ),
            ColumnConstraint::Unique(u) => u.rendered(st),
        }
    }

    fn format<'a>(&self, f: &'a mut Formatter) -> (r: &'a mut Formatter) {
        match self {
            ColumnConstraint::NotNull => f.append(Keyword::Not.text()).ws().append(
                Keyword::Null.text(),
            ),
            ColumnConstraint::Unique(u) => u.format(f),
        }
    }
}

impl Format for ColumnConstraintDefinition {
    open spec fn rendered(&self, st: Layout) -> Layout {
        match self.0 {
            Some(name) => self.1.rendered(name.rendered(st).space()),
            None => self.1.rendered(st),
        }
    }

    fn format<'a>(&self, f: &'a mut Formatter) -> (r: &'a mut Formatter) {
        match &self.0 {
            Some(name) => {
                name.format(f).ws();
                self.1.format(f)
            },
            None => self.1.format(f),
        }
    }
}

} // verus!
