//! `ALTER TABLE`.
use crate::formatter::{Format, Formatter, Layout};
use crate::identifier::{name_at, spec_name, Name, NameView};
use crate::keyword::{keyword_at, spec_keyword, Keyword};
use crate::sequence::{spec_two_keywords, two_keywords_at};
use crate::table::constraint::{
    spec_table_constraint_definition, table_constraint_definition_at, TableConstraintDefinition,
    TableConstraintDefinitionView,
};
use crate::table::create::{
    column_def_at, spec_column_def, spec_ws_table_ref, ws_table_ref_at, ColumnDef, ColumnDefView,
    TableRef, TableRefView,
};
use crate::table::drop_table::{drop_behavior_at, spec_drop_behavior, DropBehavior};
use crate::term::column::{column_ref_at, spec_column_ref, ColumnRef, ColumnRefView};
use crate::term::value::{spec_value, value_at, Value, ValueView};
use crate::text::{
    agrees, chars_of, finish, left, optional_step, parsed, spec_symbol, symbol_at, ParseError,
    Parsed, Step,
};
use vstd::prelude::*;

verus! {

/// `ALTER TABLE`, the table and the actions.
#[derive(Debug, PartialEq, Clone)]
pub struct AlterTable(pub TableRef, pub Vec<AlterTableAction>);

/// The view of `AlterTable`: the same tree with sequences of characters for
/// its strings and sequences of views for its lists.
#[verifier::ext_equal]
pub struct AlterTableView(pub TableRefView, pub Seq<AlterTableActionView>);

impl DeepView for AlterTable {
    type V = AlterTableView;

    open spec fn deep_view(&self) -> AlterTableView {
        AlterTableView(self.0.deep_view(), self.1.deep_view())
    }
}

/// An action of `ALTER TABLE`.
#[derive(Debug, PartialEq, Clone)]
pub enum AlterTableAction {
    AddColumnDefinition(ColumnDef),
    DropColumnDefinition(Name, Option<DropBehavior>),
    AddTableConstraintDefinition(TableConstraintDefinition),
    AlterColumnDefinition(ColumnRef, AlterColumnAction),
}

/// The view of `AlterTableAction`: the same tree with sequences of
/// characters for its strings and sequences of views for its lists.
#[verifier::ext_equal]
pub enum AlterTableActionView {
    AddColumnDefinition(ColumnDefView),
    DropColumnDefinition(NameView, Option<DropBehavior>),
    AddTableConstraintDefinition(TableConstraintDefinitionView),
    AlterColumnDefinition(ColumnRefView, AlterColumnActionView),
}

impl DeepView for AlterTableAction {
    type V = AlterTableActionView;

    open spec fn deep_view(&self) -> AlterTableActionView {
        match *self {
            AlterTableAction::AddColumnDefinition(x0) => AlterTableActionView::AddColumnDefinition(
                x0.deep_view(),
            ),
            AlterTableAction::DropColumnDefinition(x0, x1) => AlterTableActionView::DropColumnDefinition(
                x0.deep_view(),
                x1.deep_view(),
            ),
            AlterTableAction::AddTableConstraintDefinition(x0) => AlterTableActionView::AddTableConstraintDefinition(
                x0.deep_view(),
            ),
            AlterTableAction::AlterColumnDefinition(x0, x1) => AlterTableActionView::AlterColumnDefinition(
                x0.deep_view(),
                x1.deep_view(),
            ),
        }
    }
}

/// What `ALTER COLUMN` does.
#[derive(Debug, PartialEq, Clone)]
pub enum AlterColumnAction {
    SetDefaultColumnClause(crate::table::alter::DefaultOption),
}

/// The view of `AlterColumnAction`: the same tree with sequences of
/// characters for its strings and sequences of views for its lists.
#[verifier::ext_equal]
pub enum AlterColumnActionView {
    SetDefaultColumnClause(crate::table::alter::DefaultOptionView),
}

impl DeepView for AlterColumnAction {
    type V = AlterColumnActionView;

    open spec fn deep_view(&self) -> AlterColumnActionView {
        match *self {
            AlterColumnAction::SetDefaultColumnClause(x0) => AlterColumnActionView::SetDefaultColumnClause(
                x0.deep_view(),
            ),
        }
    }
}

/// The default value that `ALTER COLUMN` sets.
#[derive(Debug, PartialEq, Clone)]
pub enum DefaultOption {
    Value(Value),
}

/// The view of `DefaultOption`: the same tree with sequences of characters
/// for its strings and sequences of views for its lists.
#[verifier::ext_equal]
pub enum DefaultOptionView {
    Value(ValueView),
}

impl DeepView for DefaultOption {
    type V = DefaultOptionView;

    open spec fn deep_view(&self) -> DefaultOptionView {
        match *self {
            DefaultOption::Value(x0) => DefaultOptionView::Value(x0.deep_view()),
        }
    }
}

/// What happens to referencing rows on update or on delete.
#[derive(Debug, Clone, Copy, PartialEq, Eq, Structural)]
pub enum ReferentialTriggeredAction {
    Update(ReferentialAction),
    Delete(ReferentialAction),
}

impl DeepView for ReferentialTriggeredAction {
    type V = ReferentialTriggeredAction;

    open spec fn deep_view(&self) -> ReferentialTriggeredAction {
        *self
    }
}

/// The action on referencing rows.
#[derive(Debug, Clone, Copy, PartialEq, Eq, Structural)]
pub enum ReferentialAction {
    Cascade,
    SetNull,
    SetDefault,
    Restrict,
    NoAction,
}

impl DeepView for ReferentialAction {
    type V = ReferentialAction;

    open spec fn deep_view(&self) -> ReferentialAction {
        *self
    }
}

/// A default value: a literal value.
#[verifier::opaque]
pub open spec fn spec_default_option(s: Seq<char>, pos: int) -> Parsed<DefaultOptionView> {
    match spec_value(s, pos) {
        Parsed::Done(v, n) => Parsed::Done(DefaultOptionView::Value(v), n),
        f => f.cast(),
    }
}

/// Reads at `pos` what `spec_default_option` describes: the value and the
/// position behind it, or the kind of failure.
pub fn default_option_at(inp: &[char], pos: usize) -> (r: Step<DefaultOption>)
    requires
        pos <= inp@.len(),
    ensures
        agrees(r, inp@, pos as int, spec_default_option(inp@, pos as int)),
{
    reveal(spec_default_option);
    match value_at(inp, pos) {
        Ok((v, end)) => Ok((DefaultOption::Value(v), end)),
        Err(e) => Err(e),
    }
}

/// Parses a default value at the start of `input`.
pub fn parse_default_option(input: &str) -> (r: Result<(&str, DefaultOption), ParseError>)
    ensures
        parsed(r, input@, spec_default_option(input@, 0)),
{
    let chars = chars_of(input);
    let step = default_option_at(chars.as_slice(), 0);
    finish(input, step, Ghost(spec_default_option(input@, 0)))
}

/// `SET`, `DEFAULT` and a default value.
#[verifier::opaque]
pub open spec fn spec_alter_column_action(s: Seq<char>, pos: int) -> Parsed<AlterColumnActionView> {
    match spec_two_keywords(s, pos, Keyword::SetWord, Keyword::Default) {
        Parsed::Done(_, k) => match spec_default_option(s, pos + k) {
            Parsed::Done(o, n) => Parsed::Done(
                AlterColumnActionView::SetDefaultColumnClause(o),
                k + n,
            ),
            f => f.cast(),
        },
        _ => Parsed::Miss,
    }
}

/// Reads at `pos` what `spec_alter_column_action` describes: the value and
/// the position behind it, or the kind of failure.
pub fn alter_column_action_at(inp: &[char], pos: usize) -> (r: Step<AlterColumnAction>)
    requires
        pos <= inp@.len(),
    ensures
        agrees(r, inp@, pos as int, spec_alter_column_action(inp@, pos as int)),
{
    reveal(spec_alter_column_action);
    let p1 = match two_keywords_at(inp, pos, Keyword::SetWord, Keyword::Default) {
        Ok((_, p)) => p,
        Err(_) => return Err(ParseError::Error),
    };
    match default_option_at(inp, p1) {
        Ok((o, end)) => Ok((AlterColumnAction::SetDefaultColumnClause(o), end)),
        Err(e) => Err(e),
    }
}

/// Parses `SET DEFAULT` and a value at the start of `input`.
pub fn parse_alter_column_action(input: &str) -> (r: Result<(&str, AlterColumnAction), ParseError>)
    ensures
        parsed(r, input@, spec_alter_column_action(input@, 0)),
{
    let chars = chars_of(input);
    let step = alter_column_action_at(chars.as_slice(), 0);
    finish(input, step, Ghost(spec_alter_column_action(input@, 0)))
}

/// The action on referencing rows: `CASCADE`, `SET NULL`, `SET DEFAULT`,
/// `RESTRICT` or `NO ACTION`.
#[verifier::opaque]
pub open spec fn spec_referential_action(s: Seq<char>, pos: int) -> Parsed<ReferentialAction> {
    match spec_keyword(s, pos, Keyword::Cascade) {
        Parsed::Done(_, n) => Parsed::Done(ReferentialAction::Cascade, n),
        _ => match spec_two_keywords(s, pos, Keyword::SetWord, Keyword::Null) {
            Parsed::Done(_, n) => Parsed::Done(ReferentialAction::SetNull, n),
            _ => match spec_two_keywords(s, pos, Keyword::SetWord, Keyword::Default) {
                Parsed::Done(_, n) => Parsed::Done(ReferentialAction::SetDefault, n),
                _ => match spec_keyword(s, pos, Keyword::Restrict) {
                    Parsed::Done(_, n) => Parsed::Done(ReferentialAction::Restrict, n),
                    _ => match spec_two_keywords(s, pos, Keyword::No, Keyword::Action) {
                        Parsed::Done(_, n) => Parsed::Done(ReferentialAction::NoAction, n),
                        _ => Parsed::Miss,
                    },
                },
            },
        },
    }
}

/// Reads at `pos` what `spec_referential_action` describes: the value and
/// the position behind it, or the kind of failure.
pub fn referential_action_at(inp: &[char], pos: usize) -> (r: Step<ReferentialAction>)
    requires
        pos <= inp@.len(),
    ensures
        agrees(r, inp@, pos as int, spec_referential_action(inp@, pos as int)),
{
    reveal(spec_referential_action);
    if let Ok((_, end)) = keyword_at(inp, pos, Keyword::Cascade) {
        return Ok((ReferentialAction::Cascade, end));
    }
    if let Ok((_, end)) = two_keywords_at(inp, pos, Keyword::SetWord, Keyword::Null) {
        return Ok((ReferentialAction::SetNull, end));
    }
    if let Ok((_, end)) = two_keywords_at(inp, pos, Keyword::SetWord, Keyword::Default) {
        return Ok((ReferentialAction::SetDefault, end));
    }
    if let Ok((_, end)) = keyword_at(inp, pos, Keyword::Restrict) {
        return Ok((ReferentialAction::Restrict, end));
    }
    match two_keywords_at(inp, pos, Keyword::No, Keyword::Action) {
        Ok((_, end)) => Ok((ReferentialAction::NoAction, end)),
        Err(_) => Err(ParseError::Error),
    }
}

/// Parses the action on referencing rows at the start of `input`.
pub fn parse_referential_action(input: &str) -> (r: Result<(&str, ReferentialAction), ParseError>)
    ensures
        parsed(r, input@, spec_referential_action(input@, 0)),
{
    let chars = chars_of(input);
    let step = referential_action_at(chars.as_slice(), 0);
    finish(input, step, Ghost(spec_referential_action(input@, 0)))
}

/// `ON UPDATE` or `ON DELETE`, and the action on referencing rows.
#[verifier::opaque]
pub open spec fn spec_referential_triggered_action(s: Seq<char>, pos: int) -> Parsed<
    ReferentialTriggeredAction,
> {
    let on_delete = match spec_two_keywords(s, pos, Keyword::On, Keyword::Delete) {
        Parsed::Done(_, k) => match spec_referential_action(s, pos + k) {
            Parsed::Done(a, n) => Parsed::Done(ReferentialTriggeredAction::Delete(a), k + n),
            _ => Parsed::Miss,
        },
        _ => Parsed::Miss,
    };
    match spec_two_keywords(s, pos, Keyword::On, Keyword::Update) {
        Parsed::Done(_, k) => match spec_referential_action(s, pos + k) {
            Parsed::Done(a, n) => Parsed::Done(ReferentialTriggeredAction::Update(a), k + n),
            _ => on_delete,
        },
        _ => on_delete,
    }
}

/// Reads at `pos` what `spec_referential_triggered_action` describes: the
/// value and the position behind it, or the kind of failure.
pub fn referential_triggered_action_at(inp: &[char], pos: usize) -> (r: Step<
    ReferentialTriggeredAction,
>)
    requires
        pos <= inp@.len(),
    ensures
        agrees(r, inp@, pos as int, spec_referential_triggered_action(inp@, pos as int)),
{
    reveal(spec_referential_triggered_action);
    if let Ok((_, p1)) = two_keywords_at(inp, pos, Keyword::On, Keyword::Update) {
        if let Ok((a, end)) = referential_action_at(inp, p1) {
            return Ok((ReferentialTriggeredAction::Update(a), end));
        }
    }
    if let Ok((_, p1)) = two_keywords_at(inp, pos, Keyword::On, Keyword::Delete) {
        if let Ok((a, end)) = referential_action_at(inp, p1) {
            return Ok((ReferentialTriggeredAction::Delete(a), end));
        }
    }
    Err(ParseError::Error)
}

/// Parses `ON UPDATE` or `ON DELETE` with its action at the start of `input`.
pub fn parse_referential_triggered_action(input: &str) -> (r: Result<
    (&str, ReferentialTriggeredAction), ParseError,
>)
    ensures
        parsed(r, input@, spec_referential_triggered_action(input@, 0)),
{
    let chars = chars_of(input);
    let step = referential_triggered_action_at(chars.as_slice(), 0);
    finish(input, step, Ghost(spec_referential_triggered_action(input@, 0)))
}

/// `ADD`, an optional `COLUMN` and a column definition.
#[verifier::opaque]
pub open spec fn spec_add_column(s: Seq<char>, pos: int) -> Parsed<AlterTableActionView> {
    match spec_keyword(s, pos, Keyword::Add) {
        Parsed::Done(_, k) => match spec_keyword(s, pos + k, Keyword::Column).optional() {
            Parsed::Done(_, n) => match spec_column_def(s, pos + k + n) {
                Parsed::Done(c, m) => Parsed::Done(
                    AlterTableActionView::AddColumnDefinition(c),
                    k + n + m,
                ),
                f => f.cast(),
            },
            _ => Parsed::Miss,
        },
        _ => Parsed::Miss,
    }
}

/// Reads at `pos` what `spec_add_column` describes: the value and the
/// position behind it, or the kind of failure.
fn add_column_at(inp: &[char], pos: usize) -> (r: Step<AlterTableAction>)
    requires
        pos <= inp@.len(),
    ensures
        agrees(r, inp@, pos as int, spec_add_column(inp@, pos as int)),
{
    reveal(spec_add_column);
    let p1 = match keyword_at(inp, pos, Keyword::Add) {
        Ok((_, p)) => p,
        Err(_) => return Err(ParseError::Error),
    };
    let p2 = match keyword_at(inp, p1, Keyword::Column) {
        Ok((_, p)) => p,
        Err(_) => p1,
    };
    match column_def_at(inp, p2) {
        Ok((c, end)) => Ok((AlterTableAction::AddColumnDefinition(c), end)),
        Err(e) => Err(e),
    }
}

/// `DROP`, `COLUMN`, a name and an optional behaviour.
#[verifier::opaque]
pub open spec fn spec_drop_column(s: Seq<char>, pos: int) -> Parsed<AlterTableActionView> {
    match spec_two_keywords(s, pos, Keyword::Drop, Keyword::Column) {
        Parsed::Done(_, k) => match spec_name(s, pos + k) {
            Parsed::Done(name, n) => match spec_drop_behavior(s, pos + k + n).optional() {
                Parsed::Done(behavior, m) => Parsed::Done(
                    AlterTableActionView::DropColumnDefinition(name, behavior),
                    k + n + m,
                ),
                _ => Parsed::Miss,
            },
            _ => Parsed::Miss,
        },
        _ => Parsed::Miss,
    }
}

/// Reads at `pos` what `spec_drop_column` describes: the value and the
/// position behind it, or the kind of failure.
fn drop_column_at(inp: &[char], pos: usize) -> (r: Step<AlterTableAction>)
    requires
        pos <= inp@.len(),
    ensures
        agrees(r, inp@, pos as int, spec_drop_column(inp@, pos as int)),
{
    reveal(spec_drop_column);
    let p1 = match two_keywords_at(inp, pos, Keyword::Drop, Keyword::Column) {
        Ok((_, p)) => p,
        Err(_) => return Err(ParseError::Error),
    };
    let (name, p2) = match name_at(inp, p1) {
        Ok(done) => done,
        Err(_) => return Err(ParseError::Error),
    };
    match optional_step(
        inp,
        p2,
        drop_behavior_at(inp, p2),
        Ghost(spec_drop_behavior(inp@, p2 as int)),
    ) {
        Ok((behavior, end)) => Ok((AlterTableAction::DropColumnDefinition(name, behavior), end)),
        Err(_) => Err(ParseError::Error),
    }
}

/// `ADD` and a table constraint.
#[verifier::opaque]
pub open spec fn spec_add_constraint(s: Seq<char>, pos: int) -> Parsed<AlterTableActionView> {
    match spec_keyword(s, pos, Keyword::Add) {
        Parsed::Done(_, k) => match spec_table_constraint_definition(s, pos + k) {
            Parsed::Done(c, n) => Parsed::Done(
                AlterTableActionView::AddTableConstraintDefinition(c),
                k + n,
            ),
            _ => Parsed::Miss,
        },
        _ => Parsed::Miss,
    }
}

/// Reads at `pos` what `spec_add_constraint` describes: the value and the
/// position behind it, or the kind of failure.
fn add_constraint_at(inp: &[char], pos: usize) -> (r: Step<AlterTableAction>)
    requires
        pos <= inp@.len(),
    ensures
        agrees(r, inp@, pos as int, spec_add_constraint(inp@, pos as int)),
{
    reveal(spec_add_constraint);
    let p1 = match keyword_at(inp, pos, Keyword::Add) {
        Ok((_, p)) => p,
        Err(_) => return Err(ParseError::Error),
    };
    match table_constraint_definition_at(inp, p1) {
        Ok((c, end)) => Ok((AlterTableAction::AddTableConstraintDefinition(c), end)),
        Err(_) => Err(ParseError::Error),
    }
}

/// `ALTER`, an optional `COLUMN`, a column reference and what to do with
/// the column.
#[verifier::opaque]
pub open spec fn spec_alter_column(s: Seq<char>, pos: int) -> Parsed<AlterTableActionView> {
    match spec_keyword(s, pos, Keyword::Alter) {
        Parsed::Done(_, k) => match spec_keyword(s, pos + k, Keyword::Column).optional() {
            Parsed::Done(_, n) => match spec_column_ref(s, pos + k + n) {
                Parsed::Done(c, m) => match spec_alter_column_action(s, pos + k + n + m) {
                    Parsed::Done(a, j) => Parsed::Done(
                        AlterTableActionView::AlterColumnDefinition(c, a),
                        k + n + m + j,
                    ),
                    f => f.cast(),
                },
                _ => Parsed::Miss,
            },
            _ => Parsed::Miss,
        },
        _ => Parsed::Miss,
    }
}

/// Reads at `pos` what `spec_alter_column` describes: the value and the
/// position behind it, or the kind of failure.
fn alter_column_at(inp: &[char], pos: usize) -> (r: Step<AlterTableAction>)
    requires
        pos <= inp@.len(),
    ensures
        agrees(r, inp@, pos as int, spec_alter_column(inp@, pos as int)),
{
    reveal(spec_alter_column);
    let p1 = match keyword_at(inp, pos, Keyword::Alter) {
        Ok((_, p)) => p,
        Err(_) => return Err(ParseError::Error),
    };
    let p2 = match keyword_at(inp, p1, Keyword::Column) {
        Ok((_, p)) => p,
        Err(_) => p1,
    };
    let (c, p3) = match column_ref_at(inp, p2) {
        Ok(done) => done,
        Err(_) => return Err(ParseError::Error),
    };
    match alter_column_action_at(inp, p3) {
        Ok((a, end)) => Ok((AlterTableAction::AlterColumnDefinition(c, a), end)),
        Err(e) => Err(e),
    }
}

/// An action of `ALTER TABLE`: adding a column, dropping a column, adding
/// a constraint or altering a column, tried in that order.
#[verifier::opaque]
pub open spec fn spec_alter_table_action(s: Seq<char>, pos: int) -> Parsed<AlterTableActionView> {
    spec_add_column(s, pos).or(spec_drop_column(s, pos)).or(spec_add_constraint(s, pos)).or(
        spec_alter_column(s, pos),
    )
}

/// Reads at `pos` what `spec_alter_table_action` describes: the value and
/// the position behind it, or the kind of failure.
pub fn alter_table_action_at(inp: &[char], pos: usize) -> (r: Step<AlterTableAction>)
    requires
        pos <= inp@.len(),
    ensures
        agrees(r, inp@, pos as int, spec_alter_table_action(inp@, pos as int)),
{
    reveal(spec_alter_table_action);
    match add_column_at(inp, pos) {
        Err(ParseError::Error) => {},
        other => return other,
    }
    match drop_column_at(inp, pos) {
        Err(ParseError::Error) => {},
        other => return other,
    }
    match add_constraint_at(inp, pos) {
        Err(ParseError::Error) => {},
        other => return other,
    }
    alter_column_at(inp, pos)
}

/// Parses an action of `ALTER TABLE` at the start of `input`.
pub fn parse_alter_table_action(input: &str) -> (r: Result<(&str, AlterTableAction), ParseError>)
    ensures
        parsed(r, input@, spec_alter_table_action(input@, 0)),
{
    let chars = chars_of(input);
    let step = alter_table_action_at(chars.as_slice(), 0);
    finish(input, step, Ghost(spec_alter_table_action(input@, 0)))
}

/// The elements that follow in a list of which `acc` has been read: a
/// comma and an element, as often as both are there.
#[verifier::opaque]
pub open spec fn spec_alter_table_actions_more(s: Seq<char>, pos: int, acc: Seq<AlterTableActionView>) -> Parsed<
    Seq<AlterTableActionView>,
>
    decreases left(s, pos), 19nat,
{
    match spec_symbol(s, pos, ',') {
        Parsed::Done(_, k) => match spec_alter_table_action(s, pos + k) {
            Parsed::Done(x, n) => spec_alter_table_actions_more(s, pos + k + n, acc.push(x)).after(
                k + n,
            ),
            Parsed::Halt => Parsed::Halt,
            Parsed::Miss => Parsed::Done(acc, 0),
        },
        _ => Parsed::Done(acc, 0),
    }
}

/// One or more actions, separated by commas.
#[verifier::opaque]
pub open spec fn spec_alter_table_actions(s: Seq<char>, pos: int) -> Parsed<
    Seq<AlterTableActionView>,
>
    decreases left(s, pos), 20nat,
{
    match spec_alter_table_action(s, pos) {
        Parsed::Done(x, n) => spec_alter_table_actions_more(s, pos + n, seq![x]).after(n),
        f => f.cast(),
    }
}

/// Reads at `pos` what `spec_alter_table_actions` describes: the value and
/// the position behind it, or the kind of failure.
pub fn alter_table_actions_at(inp: &[char], pos: usize) -> (r: Step<Vec<AlterTableAction>>)
    requires
        pos <= inp@.len(),
    ensures
        agrees(r, inp@, pos as int, spec_alter_table_actions(inp@, pos as int)),
    decreases left(inp@, pos as int), 20nat,
{
    reveal(spec_alter_table_actions);
    reveal(spec_alter_table_action);
    reveal(spec_alter_table_actions_more);
    reveal(spec_symbol);
    let (first, start) = match alter_table_action_at(inp, pos) {
        Ok(done) => done,
        Err(e) => return Err(e),
    };
    let ghost whole = spec_alter_table_actions_more(inp@, start as int, seq![first.deep_view()]);
    let ghost mut xv = first.deep_view();
    let mut acc: Vec<AlterTableAction> = Vec::new();
    acc.push(first);
    assert(acc.deep_view() =~= seq![xv]);
    let mut cur = start;
    reveal(spec_alter_table_actions_more);
    reveal(spec_alter_table_action);
    loop
        invariant
            pos <= start <= cur <= inp@.len(),
            spec_alter_table_actions(inp@, pos as int) == whole.after((start - pos) as nat),
            whole == spec_alter_table_actions_more(inp@, cur as int, acc.deep_view()).after(
                (cur - start) as nat,
            ),
        decreases inp@.len() - cur,
    {
        reveal(spec_alter_table_actions_more);
        reveal(spec_alter_table_action);
        let p1 = match symbol_at(inp, cur, ',') {
            Ok((_, p)) => p,
            Err(_) => return Ok((acc, cur)),
        };
        match alter_table_action_at(inp, p1) {
            Ok((x, p2)) => {
                let ghost before = acc.deep_view();
                proof {
                    xv = x.deep_view();
                }
                acc.push(x);
                assert(acc.deep_view() =~= before.push(xv));
                cur = p2;
            },
            Err(ParseError::Failure) => return Err(ParseError::Failure),
            Err(ParseError::Error) => return Ok((acc, cur)),
        }
    }
}

/// `ALTER`, `TABLE`, a table and one or more actions, separated by commas.
#[verifier::opaque]
pub open spec fn spec_alter_table(s: Seq<char>, pos: int) -> Parsed<AlterTableView> {
    match spec_two_keywords(s, pos, Keyword::Alter, Keyword::Table) {
        Parsed::Done(_, k) => match spec_ws_table_ref(s, pos + k) {
            Parsed::Done(table, n) => match spec_alter_table_actions(s, pos + k + n) {
                Parsed::Done(actions, m) => Parsed::Done(AlterTableView(table, actions), k + n + m),
                f => f.cast(),
            },
            _ => Parsed::Miss,
        },
        _ => Parsed::Miss,
    }
}

/// Reads at `pos` what `spec_alter_table` describes: the value and the
/// position behind it, or the kind of failure.
pub fn alter_table_at(inp: &[char], pos: usize) -> (r: Step<AlterTable>)
    requires
        pos <= inp@.len(),
    ensures
        agrees(r, inp@, pos as int, spec_alter_table(inp@, pos as int)),
{
    reveal(spec_alter_table);
    let p1 = match two_keywords_at(inp, pos, Keyword::Alter, Keyword::Table) {
        Ok((_, p)) => p,
        Err(_) => return Err(ParseError::Error),
    };
    let (table, p2) = match ws_table_ref_at(inp, p1) {
        Ok(done) => done,
        Err(_) => return Err(ParseError::Error),
    };
    match alter_table_actions_at(inp, p2) {
        Ok((actions, end)) => Ok((AlterTable(table, actions), end)),
        Err(e) => Err(e),
    }
}

/// Parses `ALTER TABLE` at the start of `input`.
pub fn parse_alter_table(input: &str) -> (r: Result<(&str, AlterTable), ParseError>)
    ensures
        parsed(r, input@, spec_alter_table(input@, 0)),
{
    let chars = chars_of(input);
    let step = alter_table_at(chars.as_slice(), 0);
    finish(input, step, Ghost(spec_alter_table(input@, 0)))
}

impl Format for DefaultOption {
    open spec fn rendered(&self, st: Layout) -> Layout {
        match self {
            DefaultOption::Value(v) => v.rendered(st),
        }
    }

    fn format<'a>(&self, f: &'a mut Formatter) -> (r: &'a mut Formatter) {
        match self {
            DefaultOption::Value(v) => v.format(f),
        }
    }
}

impl Format for AlterColumnAction {
    open spec fn rendered(&self, st: Layout) -> Layout {
        match self {
            AlterColumnAction::SetDefaultColumnClause(c) => c.rendered(
                st.append(Keyword::SetWord.spec_text()).space().append(
                    Keyword::Default.spec_text(),
                ).space(),
            ),
        }
    }

    fn format<'a>(&self, f: &'a mut Formatter) -> (r: &'a mut Formatter) {
        match self {
            AlterColumnAction::SetDefaultColumnClause(c) => {
                f.append(Keyword::SetWord.text()).ws().append(Keyword::Default.text()).ws();
                c.format(f)
            },
        }
    }
}

impl Format for ReferentialAction {
    open spec fn rendered(&self, st: Layout) -> Layout {
        match self {
            ReferentialAction::NoAction => st.append(Keyword::No.spec_text()).space().append(
                Keyword::Action.spec_text(),
            ),
            ReferentialAction::Cascade => st.append(Keyword::Cascade.spec_text()),
            ReferentialAction::Restrict => st.append(Keyword::Restrict.spec_text()),
            ReferentialAction::SetDefault => st.append(Keyword::SetWord.spec_text()).space().append(
                Keyword::Default.spec_text(),
            ),
            ReferentialAction::SetNull => st.append(Keyword::SetWord.spec_text()).space().append(
                Keyword::Null.spec_text(),
            ),
        }
    }

    fn format<'a>(&self, f: &'a mut Formatter) -> (r: &'a mut Formatter) {
        match self {
            ReferentialAction::NoAction => f.append(Keyword::No.text()).ws().append(
                Keyword::Action.text(),
            ),
            ReferentialAction::Cascade => f.append(Keyword::Cascade.text()),
            ReferentialAction::Restrict => f.append(Keyword::Restrict.text()),
            ReferentialAction::SetDefault => f.append(Keyword::SetWord.text()).ws().append(
                Keyword::Default.text(),
            ),
            ReferentialAction::SetNull => f.append(Keyword::SetWord.text()).ws().append(
                Keyword::Null.text(),
            ),
        }
    }
}

impl Format for ReferentialTriggeredAction {
    open spec fn rendered(&self, st: Layout) -> Layout {
        match self {
            ReferentialTriggeredAction::Delete(a) => a.rendered(
                st.append(Keyword::On.spec_text()).space().append(
                    Keyword::Delete.spec_text(),
                ).space(),
            ),
            ReferentialTriggeredAction::Update(a) => a.rendered(
                st.append(Keyword::On.spec_text()).space().append(
                    Keyword::Update.spec_text(),
                ).space(),
            ),
        }
    }

    fn format<'a>(&self, f: &'a mut Formatter) -> (r: &'a mut Formatter) {
        match self {
            ReferentialTriggeredAction::Delete(a) => {
                f.append(Keyword::On.text()).ws().append(Keyword::Delete.text()).ws();
                a.format(f)
            },
            ReferentialTriggeredAction::Update(a) => {
                f.append(Keyword::On.text()).ws().append(Keyword::Update.text()).ws();
                a.format(f)
            },
        }
    }
}

/// Four spaces, the reserved words of the action and what they apply to,
/// separated by single spaces.
impl Format for AlterTableAction {
    open spec fn rendered(&self, st: Layout) -> Layout {
        match self {
            AlterTableAction::AddColumnDefinition(c) => c.rendered(
                st.indent().append(Keyword::Add.spec_text()).space().append(
                    Keyword::Column.spec_text(),
                ).space(),
            ),
            AlterTableAction::DropColumnDefinition(name, behavior) => {
                let named = name.rendered(
                    st.indent().append(Keyword::Drop.spec_text()).space().append(
                        Keyword::Column.spec_text(),
                    ).space(),
                );
                match behavior {
                    Some(b) => b.rendered(named.space()),
                    None => named,
                }
            },
            AlterTableAction::AddTableConstraintDefinition(c) => c.rendered(
                st.indent().append(Keyword::Add.spec_text()).space(),
            ),
            AlterTableAction::AlterColumnDefinition(c, a) => a.rendered(
                c.rendered(
                    st.indent().append(Keyword::Alter.spec_text()).space().append(
                        Keyword::Column.spec_text(),
                    ).space(),
                ).space(),
            ),
        }
    }

    fn format<'a>(&self, f: &'a mut Formatter) -> (r: &'a mut Formatter) {
        match self {
            AlterTableAction::AddColumnDefinition(c) => {
                f.indent_only().append(Keyword::Add.text()).ws().append(Keyword::Column.text()).ws();
                c.format(f)
            },
            AlterTableAction::DropColumnDefinition(name, behavior) => {
                f.indent_only().append(Keyword::Drop.text()).ws().append(
                    Keyword::Column.text(),
                ).ws();
                name.format(f);
                match behavior {
                    Some(b) => {
                        f.ws();
                        b.format(f)
                    },
                    None => f,
                }
            },
            AlterTableAction::AddTableConstraintDefinition(c) => {
                f.indent_only().append(Keyword::Add.text()).ws();
                c.format(f)
            },
            AlterTableAction::AlterColumnDefinition(c, a) => {
                f.indent_only().append(Keyword::Alter.text()).ws().append(
                    Keyword::Column.text(),
                ).ws();
                c.format(f).ws();
                a.format(f)
            },
        }
    }
}

/// The state behind the first `n` actions, each on a line of its own
/// behind four spaces.
pub open spec fn render_actions(items: Vec<AlterTableAction>, n: nat, st: Layout) -> Layout
    decreases n,
{
    if n == 0 || n > items@.len() {
        st
    } else {
        items@[n - 1].rendered(render_actions(items, (n - 1) as nat, st).new_line().indent())
    }
}

/// `ALTER TABLE` and the table in one line; each action on a line of its
/// own.
impl Format for AlterTable {
    open spec fn rendered(&self, st: Layout) -> Layout {
        render_actions(
            self.1,
            self.1@.len(),
            self.0.rendered(
                st.append(Keyword::Alter.spec_text()).space().append(
                    Keyword::Table.spec_text(),
                ).space(),
            ),
        )
    }

    fn format<'a>(&self, f: &'a mut Formatter) -> (r: &'a mut Formatter) {
        f.append(Keyword::Alter.text()).ws().append(Keyword::Table.text()).ws();
        self.0.format(f);
        let ghost start = f@;
        let mut i: usize = 0;
        while i < self.1.len()
            invariant
                i <= self.1.len(),
                f@ == render_actions(self.1, i as nat, start),
            decreases self.1.len() - i,
        {
            f.new_line().indent_only();
            self.1[i].format(f);
            i += 1;
        }
        f
    }
}

} // verus!
