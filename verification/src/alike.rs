//! Rendering reads a tree through its view only: two trees with the same
//! view are rendered alike. The text of a member of a user-defined type is
//! specified through this.
use crate::expression::condition::{
    render_expressions, render_operands, Condition, Expression, InPredicateValue, Operand,
    RightOperand, WhereClause,
};
use crate::formatter::{Format, Layout};
use crate::function::{AggregateFunction, Function};
use crate::identifier::{render_names, Name};
use crate::keyword::Keyword;
use crate::list::List;
use crate::numeric::Numeric;
use crate::select::clause::{render_selected_expressions, SelectClause, SelectedExpression};
use crate::select::from::{
    render_joins, render_table_expressions, FromClause, TableExpression, TableName,
};
use crate::select::group::{
    render_grouping_elements, GroupByClause, GroupingElement, HavingClause,
};
use crate::select::join::{narrowed, widened, JoinClause, JoinSpecification, JoinType};
use crate::select::order::{render_orders, Order, OrderByClause, SortKey};
use crate::select::statement::SelectStatement;
use crate::term::case::{render_else, render_whens, Case, CaseExpression, Else, SearchedCase, When};
use crate::term::column::{render_column_refs, ColumnRef};
use crate::term::value::{render_values, Value};
use crate::identifier::{Delimitedidentifier, SchemaQualifiedName};
use crate::data_type::DataType;
use crate::insert::{
    render_insert_values, render_rows, InsertIntoClause, InsertStatement, InsertValue, ValuesClause,
};
use crate::query::{render_statements, Query, Statement};
use crate::select::table_operator::{one_more, CombinedTables, QueryTerm};
use crate::sequence::{render_options, Sequence, SequenceGeneratorOption};
use crate::set::SetStatement;
use crate::table::alter::{render_actions, AlterColumnAction, AlterTable, AlterTableAction};
use crate::table::constraint::{
    ColumnConstraintDefinition, ConstraintNameDefinition, ReferencesSpecification,
    ReferentialConstraintDefinition, TableConstraint, TableConstraintDefinition,
    UniqueConstraintDefinition,
};
use crate::table::create::{
    render_elements, ColumnDef, CreateTableStatement, DefaultClause, Subquery, TableContentsSource,
    TableElement, TableRef,
};
use crate::table::Table;
use crate::term::{render_terms, Term};
use crate::update::{
    render_assignments, SetClause, SetExpression, UpdateClause, UpdateStatement,
};
use crate::user_type::{render_members, Member, UserDefinedTypeDefinition};
use vstd::prelude::*;

verus! {

/// Two values with the same view are rendered alike.
pub proof fn name_alike(a: Name, b: Name, st: Layout)
    requires
        a.deep_view() == b.deep_view(),
    ensures
        a.rendered(st) == b.rendered(st),
{
}

/// Two values with the same view are rendered alike.
pub proof fn numeric_alike(a: Numeric, b: Numeric, st: Layout)
    requires
        a.deep_view() == b.deep_view(),
    ensures
        a.rendered(st) == b.rendered(st),
{
}

/// Two values with the same view are rendered alike.
pub proof fn value_alike(a: Value, b: Value, st: Layout)
    requires
        a.deep_view() == b.deep_view(),
    ensures
        a.rendered(st) == b.rendered(st),
{
    match (a, b) {
        (Value::Num(x), Value::Num(y)) => numeric_alike(x, y, st),
        _ => {},
    }
}

/// Two values with the same view are rendered alike.
pub proof fn column_ref_alike(a: ColumnRef, b: ColumnRef, st: Layout)
    requires
        a.deep_view() == b.deep_view(),
    ensures
        a.rendered(st) == b.rendered(st),
{
    match (a, b) {
        (ColumnRef::Name(x), ColumnRef::Name(y)) => name_alike(x, y, st),
        (ColumnRef::WithFamily(f, x), ColumnRef::WithFamily(g, y)) => {
            name_alike(f, g, st);
            name_alike(x, y, f.rendered(st).append("."@));
        },
        _ => {},
    }
}

/// Two values with the same view are rendered alike.
pub proof fn table_name_alike(a: TableName, b: TableName, st: Layout)
    requires
        a.deep_view() == b.deep_view(),
    ensures
        a.rendered(st) == b.rendered(st),
{
    match (a, b) {
        (TableName::Name(x), TableName::Name(y)) => name_alike(x, y, st),
        (TableName::AliasedName(x, p), TableName::AliasedName(y, q)) => {
            name_alike(x, y, st);
            name_alike(p, q, x.rendered(st).space().append(Keyword::As.spec_text()).space());
        },
        _ => {},
    }
}

/// Two values with the same view are rendered alike.
pub proof fn table_expression_alike(a: TableExpression, b: TableExpression, st: Layout)
    requires
        a.deep_view() == b.deep_view(),
    ensures
        a.rendered(st) == b.rendered(st),
{
    table_name_alike(a.0, b.0, st);
}

/// Two values with the same view are rendered alike.
pub proof fn grouping_element_alike(a: GroupingElement, b: GroupingElement, st: Layout)
    requires
        a.deep_view() == b.deep_view(),
    ensures
        a.rendered(st) == b.rendered(st),
{
    match (a, b) {
        (GroupingElement::ColumnRef(x), GroupingElement::ColumnRef(y)) => column_ref_alike(x, y, st),
    }
}

/// Two values with the same view are rendered alike.
pub proof fn sort_key_alike(a: SortKey, b: SortKey, st: Layout)
    requires
        a.deep_view() == b.deep_view(),
    ensures
        a.rendered(st) == b.rendered(st),
{
    match (a, b) {
        (SortKey::ColumnRef(x), SortKey::ColumnRef(y)) => column_ref_alike(x, y, st),
    }
}

/// Two values with the same view are rendered alike.
pub proof fn order_alike(a: Order, b: Order, st: Layout)
    requires
        a.deep_view() == b.deep_view(),
    ensures
        a.rendered(st) == b.rendered(st),
{
    sort_key_alike(a.0, b.0, st);
}

/// Two values with the same view are rendered alike.
pub proof fn order_by_clause_alike(a: OrderByClause, b: OrderByClause, st: Layout)
    requires
        a.deep_view() == b.deep_view(),
    ensures
        a.rendered(st) == b.rendered(st),
{
    let x = a.0.0.deep_view();
    let y = b.0.0.deep_view();
    assert(a.deep_view().0 == b.deep_view().0);
    assert(x == y);
    assert(x.len() == a.0.0@.len() && y.len() == b.0.0@.len());
    assert forall|i: int| 0 <= i < a.0.0@.len() implies (#[trigger] a.0.0@[i]).deep_view()
        == b.0.0@[i].deep_view() by {
        assert(x[i] == y[i]);
    }
    render_orders_alike(
        a.0.0,
        b.0.0,
        a.0.0@.len(),
        st.left_side(Keyword::Order.spec_text()).space().append(Keyword::By.spec_text()).space(),
    );
}

/// Two lists whose elements have the same views, one by one, are rendered
/// alike by `render_names`.
pub proof fn render_names_alike(a: Vec<Name>, b: Vec<Name>, n: nat, st: Layout)
    requires
        a@.len() == b@.len(),
        forall|i: int| 0 <= i < a@.len() ==> (#[trigger] a@[i]).deep_view() == b@[i].deep_view(),
    ensures
        render_names(a, n, st) == render_names(b, n, st),
    decreases a, n,
{
    if n == 0 || n > a@.len() {
    } else if n == 1 {
        name_alike(a@[0], b@[0], st);
    } else {
        render_names_alike(a, b, (n - 1) as nat, st);
        name_alike(a@[n - 1], b@[n - 1], render_names(a, (n - 1) as nat, st).append(", "@));
    }
}

/// Two lists whose elements have the same views, one by one, are rendered
/// alike by `render_values`.
pub proof fn render_values_alike(a: Vec<Value>, b: Vec<Value>, n: nat, st: Layout)
    requires
        a@.len() == b@.len(),
        forall|i: int| 0 <= i < a@.len() ==> (#[trigger] a@[i]).deep_view() == b@[i].deep_view(),
    ensures
        render_values(a, n, st) == render_values(b, n, st),
    decreases a, n,
{
    if n == 0 || n > a@.len() {
    } else if n == 1 {
        value_alike(a@[0], b@[0], st);
    } else {
        render_values_alike(a, b, (n - 1) as nat, st);
        value_alike(a@[n - 1], b@[n - 1], render_values(a, (n - 1) as nat, st).append(", "@));
    }
}

/// Two lists whose elements have the same views, one by one, are rendered
/// alike by `render_column_refs`.
pub proof fn render_column_refs_alike(a: Vec<ColumnRef>, b: Vec<ColumnRef>, n: nat, st: Layout)
    requires
        a@.len() == b@.len(),
        forall|i: int| 0 <= i < a@.len() ==> (#[trigger] a@[i]).deep_view() == b@[i].deep_view(),
    ensures
        render_column_refs(a, n, st) == render_column_refs(b, n, st),
    decreases a, n,
{
    if n == 0 || n > a@.len() {
    } else if n == 1 {
        column_ref_alike(a@[0], b@[0], st);
    } else {
        render_column_refs_alike(a, b, (n - 1) as nat, st);
        column_ref_alike(
            a@[n - 1],
            b@[n - 1],
            render_column_refs(a, (n - 1) as nat, st).append(", "@),
        );
    }
}

/// Two lists whose elements have the same views, one by one, are rendered
/// alike by `render_table_expressions`.
pub proof fn render_table_expressions_alike(a: Vec<TableExpression>, b: Vec<TableExpression>, n: nat, st: Layout)
    requires
        a@.len() == b@.len(),
        forall|i: int| 0 <= i < a@.len() ==> (#[trigger] a@[i]).deep_view() == b@[i].deep_view(),
    ensures
        render_table_expressions(a, n, st) == render_table_expressions(b, n, st),
    decreases a, n,
{
    if n == 0 || n > a@.len() {
    } else if n == 1 {
        table_expression_alike(a@[0], b@[0], st);
    } else {
        render_table_expressions_alike(a, b, (n - 1) as nat, st);
        table_expression_alike(
            a@[n - 1],
            b@[n - 1],
            render_table_expressions(a, (n - 1) as nat, st).append(", "@),
        );
    }
}

/// Two lists whose elements have the same views, one by one, are rendered
/// alike by `render_grouping_elements`.
pub proof fn render_grouping_elements_alike(a: Vec<GroupingElement>, b: Vec<GroupingElement>, n: nat, st: Layout)
    requires
        a@.len() == b@.len(),
        forall|i: int| 0 <= i < a@.len() ==> (#[trigger] a@[i]).deep_view() == b@[i].deep_view(),
    ensures
        render_grouping_elements(a, n, st) == render_grouping_elements(b, n, st),
    decreases a, n,
{
    if n == 0 || n > a@.len() {
    } else if n == 1 {
        grouping_element_alike(a@[0], b@[0], st);
    } else {
        render_grouping_elements_alike(a, b, (n - 1) as nat, st);
        grouping_element_alike(
            a@[n - 1],
            b@[n - 1],
            render_grouping_elements(a, (n - 1) as nat, st).append(", "@),
        );
    }
}

/// Two lists whose elements have the same views, one by one, are rendered
/// alike by `render_orders`.
pub proof fn render_orders_alike(a: Vec<Order>, b: Vec<Order>, n: nat, st: Layout)
    requires
        a@.len() == b@.len(),
        forall|i: int| 0 <= i < a@.len() ==> (#[trigger] a@[i]).deep_view() == b@[i].deep_view(),
    ensures
        render_orders(a, n, st) == render_orders(b, n, st),
    decreases a, n,
{
    if n == 0 || n > a@.len() {
    } else if n == 1 {
        order_alike(a@[0], b@[0], st);
    } else {
        render_orders_alike(a, b, (n - 1) as nat, st);
        order_alike(a@[n - 1], b@[n - 1], render_orders(a, (n - 1) as nat, st).append(", "@));
    }
}

/// Two lists whose elements have the same views, one by one, are rendered
/// alike by `render_terms`.
pub proof fn render_terms_alike(a: Vec<Term>, b: Vec<Term>, n: nat, st: Layout)
    requires
        a@.len() == b@.len(),
        forall|i: int| 0 <= i < a@.len() ==> (#[trigger] a@[i]).deep_view() == b@[i].deep_view(),
    ensures
        render_terms(a, n, st) == render_terms(b, n, st),
    decreases a, n,
{
    if n == 0 || n > a@.len() {
    } else if n == 1 {
        term_alike(a@[0], b@[0], st);
    } else {
        render_terms_alike(a, b, (n - 1) as nat, st);
        term_alike(a@[n - 1], b@[n - 1], render_terms(a, (n - 1) as nat, st).append(", "@));
    }
}

/// Two lists whose elements have the same views, one by one, are rendered
/// alike by `render_operands`.
pub proof fn render_operands_alike(a: Vec<Operand>, b: Vec<Operand>, n: nat, st: Layout)
    requires
        a@.len() == b@.len(),
        forall|i: int| 0 <= i < a@.len() ==> (#[trigger] a@[i]).deep_view() == b@[i].deep_view(),
    ensures
        render_operands(a, n, st) == render_operands(b, n, st),
    decreases a, n,
{
    if n == 0 || n > a@.len() {
    } else if n == 1 {
        operand_alike(a@[0], b@[0], st);
    } else {
        render_operands_alike(a, b, (n - 1) as nat, st);
        operand_alike(a@[n - 1], b@[n - 1], render_operands(a, (n - 1) as nat, st).append(", "@));
    }
}

/// Two lists whose elements have the same views, one by one, are rendered
/// alike by `render_selected_expressions`.
pub proof fn render_selected_expressions_alike(a: Vec<SelectedExpression>, b: Vec<SelectedExpression>, n: nat, st: Layout)
    requires
        a@.len() == b@.len(),
        forall|i: int| 0 <= i < a@.len() ==> (#[trigger] a@[i]).deep_view() == b@[i].deep_view(),
    ensures
        render_selected_expressions(a, n, st) == render_selected_expressions(b, n, st),
    decreases a, n,
{
    if n == 0 || n > a@.len() {
    } else if n == 1 {
        selected_expression_alike(a@[0], b@[0], st);
    } else {
        render_selected_expressions_alike(a, b, (n - 1) as nat, st);
        selected_expression_alike(
            a@[n - 1],
            b@[n - 1],
            render_selected_expressions(a, (n - 1) as nat, st).append(", "@),
        );
    }
}

/// Two lists whose elements have the same views, one by one, are rendered
/// alike by `render_expressions`.
pub proof fn render_expressions_alike(a: Vec<Expression>, b: Vec<Expression>, n: nat, st: Layout)
    requires
        a@.len() == b@.len(),
        forall|i: int| 0 <= i < a@.len() ==> (#[trigger] a@[i]).deep_view() == b@[i].deep_view(),
    ensures
        render_expressions(a, n, st) == render_expressions(b, n, st),
    decreases a, n,
{
    if n == 0 || n > a@.len() {
    } else if n == 1 {
        expression_alike(a@[0], b@[0], st);
    } else {
        render_expressions_alike(a, b, (n - 1) as nat, st);
        expression_alike(a@[n - 1], b@[n - 1], render_expressions(a, (n - 1) as nat, st));
    }
}

/// Two lists whose elements have the same views, one by one, are rendered
/// alike by `render_whens`.
pub proof fn render_whens_alike(a: Vec<When>, b: Vec<When>, n: nat, st: Layout)
    requires
        a@.len() == b@.len(),
        forall|i: int| 0 <= i < a@.len() ==> (#[trigger] a@[i]).deep_view() == b@[i].deep_view(),
    ensures
        render_whens(a, n, st) == render_whens(b, n, st),
    decreases a, n,
{
    if n == 0 || n > a@.len() {
    } else {
        render_whens_alike(a, b, (n - 1) as nat, st);
        when_alike(
            a@[n - 1],
            b@[n - 1],
            render_whens(a, (n - 1) as nat, st).new_line().right_margin(),
        );
    }
}

/// Two lists whose elements have the same views, one by one, are rendered
/// alike by `render_joins`.
pub proof fn render_joins_alike(a: Vec<JoinClause>, b: Vec<JoinClause>, n: nat, st: Layout)
    requires
        a@.len() == b@.len(),
        forall|i: int| 0 <= i < a@.len() ==> (#[trigger] a@[i]).deep_view() == b@[i].deep_view(),
    ensures
        render_joins(a, n, st) == render_joins(b, n, st),
    decreases a, n,
{
    if n == 0 || n > a@.len() {
    } else if n == 1 {
        join_clause_alike(a@[0], b@[0], st.new_line());
    } else {
        render_joins_alike(a, b, (n - 1) as nat, st);
        join_clause_alike(
            a@[n - 1],
            b@[n - 1],
            render_joins(a, (n - 1) as nat, st).new_line().new_line(),
        );
    }
}

/// Two values with the same view are rendered alike.
pub proof fn term_alike(a: Term, b: Term, st: Layout)
    requires
        a.deep_view() == b.deep_view(),
    ensures
        a.rendered(st) == b.rendered(st),
    decreases a, 0nat,
{
    reveal(crate::term::term_view);
    reveal(crate::term::case::case_expression_view);
    reveal(crate::function::aggregate_function_view);
    reveal(crate::select::statement::select_statement_view);
    match (a, b) {
        (Term::Value(x), Term::Value(y)) => value_alike(x, y, st),
        (Term::Case(x), Term::Case(y)) => case_expression_alike(x, y, st),
        (Term::ColumnRef(x), Term::ColumnRef(y)) => column_ref_alike(x, y, st),
        (Term::Function(x), Term::Function(y)) => aggregate_function_alike(x, y, st),
        (Term::AliasedTerm(x, p), Term::AliasedTerm(y, q)) => {
            term_alike(*x, *y, st);
            name_alike(p, q, x.rendered(st).space().append(Keyword::As.spec_text()).space());
        },
        (Term::Subquery(x), Term::Subquery(y)) => select_statement_alike(
            *x,
            *y,
            st.new_line().new_context().right_margin().append("("@).set_offset(2),
        ),
        _ => {},
    }
}

/// Two values with the same view are rendered alike.
pub proof fn case_expression_alike(a: CaseExpression, b: CaseExpression, st: Layout)
    requires
        a.deep_view() == b.deep_view(),
    ensures
        a.rendered(st) == b.rendered(st),
    decreases a, 0nat,
{
    reveal(crate::term::case::case_expression_view);
    reveal(crate::term::case::case_view);
    reveal(crate::term::case::searched_case_view);
    match (a, b) {
        (CaseExpression::Simple(x), CaseExpression::Simple(y)) => case_alike(x, y, st),
        (CaseExpression::Searched(x), CaseExpression::Searched(y)) => searched_case_alike(x, y, st),
        _ => {},
    }
}

/// Two values with the same view are rendered alike.
pub proof fn else_alike(a: Else, b: Else, st: Layout)
    requires
        a.deep_view() == b.deep_view(),
    ensures
        a.rendered(st) == b.rendered(st),
    decreases a, 0nat,
{
    reveal(crate::term::case::else_view);
    reveal(crate::term::term_view);
    term_alike(a.0, b.0, st.append(Keyword::Else.spec_text()).space());
}

/// Two values with the same view are rendered alike.
pub proof fn when_alike(a: When, b: When, st: Layout)
    requires
        a.deep_view() == b.deep_view(),
    ensures
        a.rendered(st) == b.rendered(st),
    decreases a, 0nat,
{
    reveal(crate::term::case::when_view);
    reveal(crate::term::term_view);
    reveal(crate::expression::condition::expression_view);
    expression_alike(a.0, b.0, st.append(Keyword::When.spec_text()).space());
    term_alike(
        a.1,
        b.1,
        a.0.rendered(st.append(Keyword::When.spec_text()).space()).space().append(
            Keyword::Then.spec_text(),
        ).space(),
    );
}

/// Two values with the same view are rendered alike.
pub proof fn optional_else_alike(a: Option<Box<Else>>, b: Option<Box<Else>>, st: Layout)
    requires
        a is Some <==> b is Some,
        a is Some ==> (*a->Some_0).deep_view() == (*b->Some_0).deep_view(),
    ensures
        render_else(a, st) == render_else(b, st),
    decreases a, 1nat,
{
    if a is Some {
        else_alike(*a->Some_0, *b->Some_0, st.new_line().right_margin());
    }
}

/// Two values with the same view are rendered alike.
pub proof fn case_alike(a: Case, b: Case, st: Layout)
    requires
        a.deep_view() == b.deep_view(),
    ensures
        a.rendered(st) == b.rendered(st),
    decreases a, 0nat,
{
    reveal(crate::term::case::case_view);
    reveal(crate::term::case::when_view);
    reveal(crate::term::case::else_view);
    reveal(crate::term::term_view);
    let head = st.append(Keyword::Case.spec_text()).space();
    term_alike(*a.0, *b.0, head);
    let x = a.deep_view().1;
    let y = b.deep_view().1;
    assert(x.len() == a.1@.len() && y.len() == b.1@.len());
    assert forall|i: int| 0 <= i < a.1@.len() implies (#[trigger] a.1@[i]).deep_view()
        == b.1@[i].deep_view() by {
        assert(x[i] == y[i]);
    }
    render_whens_alike(a.1, b.1, a.1@.len(), a.0.rendered(head));
    optional_else_alike(a.2, b.2, render_whens(a.1, a.1@.len(), a.0.rendered(head)));
}

/// Two values with the same view are rendered alike.
pub proof fn searched_case_alike(a: SearchedCase, b: SearchedCase, st: Layout)
    requires
        a.deep_view() == b.deep_view(),
    ensures
        a.rendered(st) == b.rendered(st),
    decreases a, 0nat,
{
    reveal(crate::term::case::searched_case_view);
    reveal(crate::term::case::when_view);
    reveal(crate::term::case::else_view);
    let head = st.append(Keyword::Case.spec_text()).space().new_line().right_margin();
    when_alike(*a.0, *b.0, head);
    optional_else_alike(a.1, b.1, a.0.rendered(head));
}

/// Two values with the same view are rendered alike.
pub proof fn function_alike(a: Function, b: Function, st: Layout)
    requires
        a.deep_view() == b.deep_view(),
    ensures
        a.rendered(st) == b.rendered(st),
    decreases a, 0nat,
{
    reveal(crate::function::function_view);
    reveal(crate::term::term_view);
    let x = a.deep_view().1;
    let y = b.deep_view().1;
    assert(x.len() == a.1.0@.len() && y.len() == b.1.0@.len());
    assert forall|i: int| 0 <= i < a.1.0@.len() implies (#[trigger] a.1.0@[i]).deep_view()
        == b.1.0@[i].deep_view() by {
        assert(x[i] == y[i]);
    }
    render_terms_alike(a.1.0, b.1.0, a.1.0@.len(), st.append(a.0@).append("("@));
}

/// Two values with the same view are rendered alike.
pub proof fn aggregate_function_alike(a: AggregateFunction, b: AggregateFunction, st: Layout)
    requires
        a.deep_view() == b.deep_view(),
    ensures
        a.rendered(st) == b.rendered(st),
    decreases a, 0nat,
{
    reveal(crate::function::aggregate_function_view);
    reveal(crate::function::function_view);
    match (a, b) {
        (AggregateFunction::Function(x), AggregateFunction::Function(y)) => function_alike(x, y, st),
        _ => {},
    }
}

/// Two values with the same view are rendered alike.
pub proof fn operand_alike(a: Operand, b: Operand, st: Layout)
    requires
        a.deep_view() == b.deep_view(),
    ensures
        a.rendered(st) == b.rendered(st),
    decreases a, 0nat,
{
    reveal(crate::expression::condition::operand_view);
    reveal(crate::term::term_view);
    match (a, b) {
        (Operand::Term(x), Operand::Term(y)) => term_alike(x, y, st),
    }
}

/// Two values with the same view are rendered alike.
pub proof fn in_predicate_value_alike(a: InPredicateValue, b: InPredicateValue, st: Layout)
    requires
        a.deep_view() == b.deep_view(),
    ensures
        a.rendered(st) == b.rendered(st),
    decreases a, 0nat,
{
    reveal(crate::expression::condition::in_predicate_value_view);
    reveal(crate::expression::condition::operand_view);
    match (a, b) {
        (InPredicateValue::Subquery(x), InPredicateValue::Subquery(y)) => operand_alike(x, y, st),
        (InPredicateValue::InValueList(p), InPredicateValue::InValueList(q)) => {
            let x = a.deep_view()->InValueList_0;
            let y = b.deep_view()->InValueList_0;
            assert(x.len() == p.0@.len() && y.len() == q.0@.len());
            assert forall|i: int| 0 <= i < p.0@.len() implies (#[trigger] p.0@[i]).deep_view()
                == q.0@[i].deep_view() by {
                assert(x[i] == y[i]);
            }
            render_operands_alike(p.0, q.0, p.0@.len(), st.append("("@));
        },
        _ => {},
    }
}

/// Two values with the same view are rendered alike.
pub proof fn right_operand_alike(a: RightOperand, b: RightOperand, st: Layout)
    requires
        a.deep_view() == b.deep_view(),
    ensures
        a.rendered(st) == b.rendered(st),
    decreases a, 0nat,
{
    reveal(crate::expression::condition::right_operand_view);
    reveal(crate::expression::condition::operand_view);
    reveal(crate::expression::condition::in_predicate_value_view);
    match (a, b) {
        (RightOperand::Compare(c, x), RightOperand::Compare(d, y)) => operand_alike(
            x,
            y,
            c.rendered(st).space(),
        ),
        (RightOperand::In(x), RightOperand::In(y)) => in_predicate_value_alike(
            x,
            y,
            st.append(Keyword::In.spec_text()).space(),
        ),
        (RightOperand::Like(x), RightOperand::Like(y)) => operand_alike(
            x,
            y,
            st.append(Keyword::Like.spec_text()).space(),
        ),
        (RightOperand::Between(p, x), RightOperand::Between(q, y)) => {
            let head = st.append(Keyword::Between.spec_text()).space();
            operand_alike(p, q, head);
            operand_alike(x, y, p.rendered(head).space().append(Keyword::And.spec_text()).space());
        },
        _ => {},
    }
}

/// Two values with the same view are rendered alike.
pub proof fn condition_alike(a: Condition, b: Condition, st: Layout)
    requires
        a.deep_view() == b.deep_view(),
    ensures
        a.rendered(st) == b.rendered(st),
    decreases a, 0nat,
{
    reveal(crate::expression::condition::condition_view);
    reveal(crate::expression::condition::operand_view);
    reveal(crate::expression::condition::right_operand_view);
    match (a, b) {
        (Condition::Operand(x), Condition::Operand(y)) => operand_alike(x, y, st),
        (Condition::BinaryExpression(x, p), Condition::BinaryExpression(y, q)) => {
            operand_alike(x, y, st);
            right_operand_alike(p, q, x.rendered(st).space());
        },
        _ => {},
    }
}

/// Two values with the same view are rendered alike.
pub proof fn expression_alike(a: Expression, b: Expression, st: Layout)
    requires
        a.deep_view() == b.deep_view(),
    ensures
        a.rendered(st) == b.rendered(st),
    decreases a, 0nat,
{
    reveal(crate::expression::condition::expression_view);
    reveal(crate::expression::condition::condition_view);
    match (a, b) {
        (Expression::Condition(x), Expression::Condition(y)) => condition_alike(x, y, st),
        (Expression::AndExpression(x), Expression::AndExpression(y)) => condition_alike(
            x,
            y,
            st.new_line().left_side(Keyword::And.spec_text()).space(),
        ),
        (Expression::OrExpression(x), Expression::OrExpression(y)) => condition_alike(
            x,
            y,
            st.new_line().left_side(Keyword::Or.spec_text()).space(),
        ),
        _ => {},
    }
}

/// Two values with the same view are rendered alike.
pub proof fn expression_list_alike(a: List<Expression>, b: List<Expression>, x: Seq<
    <Expression as DeepView>::V,
>, y: Seq<<Expression as DeepView>::V>, st: Layout)
    requires
        x == y,
        x.len() == a.0@.len(),
        y.len() == b.0@.len(),
        forall|i: int| 0 <= i < a.0@.len() ==> #[trigger] x[i] == a.0@[i].deep_view(),
        forall|i: int| 0 <= i < b.0@.len() ==> #[trigger] y[i] == b.0@[i].deep_view(),
    ensures
        a.rendered(st) == b.rendered(st),
    decreases a, 1nat,
{
    assert forall|i: int| 0 <= i < a.0@.len() implies (#[trigger] a.0@[i]).deep_view()
        == b.0@[i].deep_view() by {
        assert(x[i] == y[i]);
    }
    render_expressions_alike(a.0, b.0, a.0@.len(), st);
}

/// Two values with the same view are rendered alike.
pub proof fn where_clause_alike(a: WhereClause, b: WhereClause, st: Layout)
    requires
        a.deep_view() == b.deep_view(),
    ensures
        a.rendered(st) == b.rendered(st),
    decreases a, 0nat,
{
    reveal(crate::expression::condition::where_clause_view);
    reveal(crate::expression::condition::expression_view);
    expression_list_alike(
        a.0,
        b.0,
        a.deep_view().0,
        b.deep_view().0,
        st.left_side(Keyword::Where.spec_text()).space(),
    );
}

/// Two values with the same view are rendered alike.
pub proof fn selected_expression_alike(a: SelectedExpression, b: SelectedExpression, st: Layout)
    requires
        a.deep_view() == b.deep_view(),
    ensures
        a.rendered(st) == b.rendered(st),
    decreases a, 0nat,
{
    reveal(crate::select::clause::selected_expression_view);
    reveal(crate::term::term_view);
    match (a, b) {
        (SelectedExpression::Term(x), SelectedExpression::Term(y)) => term_alike(x, y, st),
        (SelectedExpression::AllWithFamilyName(x), SelectedExpression::AllWithFamilyName(y)) => {
            name_alike(x, y, st)
        },
        _ => {},
    }
}

/// Two values with the same view are rendered alike.
pub proof fn select_clause_alike(a: SelectClause, b: SelectClause, st: Layout)
    requires
        a.deep_view() == b.deep_view(),
    ensures
        a.rendered(st) == b.rendered(st),
    decreases a, 0nat,
{
    reveal(crate::select::clause::select_clause_view);
    reveal(crate::select::clause::selected_expression_view);
    let x = a.deep_view().1;
    let y = b.deep_view().1;
    assert(x.len() == a.1.0@.len() && y.len() == b.1.0@.len());
    assert forall|i: int| 0 <= i < a.1.0@.len() implies (#[trigger] a.1.0@[i]).deep_view()
        == b.1.0@[i].deep_view() by {
        assert(x[i] == y[i]);
    }
    let head = st.append(Keyword::Select.spec_text()).space();
    render_selected_expressions_alike(
        a.1.0,
        b.1.0,
        a.1.0@.len(),
        match a.0 {
            Some(q) => q.rendered(head).space(),
            None => head,
        },
    );
}

/// Two values with the same view are rendered alike.
pub proof fn join_specification_alike(a: JoinSpecification, b: JoinSpecification, st: Layout)
    requires
        a.deep_view() == b.deep_view(),
    ensures
        a.rendered(st) == b.rendered(st),
    decreases a, 0nat,
{
    reveal(crate::select::join::join_specification_view);
    reveal(crate::expression::condition::expression_view);
    match (a, b) {
        (JoinSpecification::On(p), JoinSpecification::On(q)) => {
            let head = st.right_margin().append(Keyword::On.spec_text()).space();
            expression_list_alike(
                p,
                q,
                a.deep_view()->On_0,
                b.deep_view()->On_0,
                head.set_pad(widened(head.pad)),
            );
        },
        (JoinSpecification::Using(p), JoinSpecification::Using(q)) => {
            expression_list_alike(
                p,
                q,
                a.deep_view()->Using_0,
                b.deep_view()->Using_0,
                st.right_margin().append(Keyword::Using.spec_text()).space(),
            );
        },
        _ => {},
    }
}

/// Two values with the same view are rendered alike.
pub proof fn join_clause_alike(a: JoinClause, b: JoinClause, st: Layout)
    requires
        a.deep_view() == b.deep_view(),
    ensures
        a.rendered(st) == b.rendered(st),
    decreases a, 0nat,
{
    reveal(crate::select::join::join_clause_view);
    reveal(crate::select::join::join_specification_view);
    let head = match a.0 {
        JoinType::Default => st.left_side(Keyword::Join.spec_text()),
        _ => a.0.rendered(st.right_margin()).space().append(Keyword::Join.spec_text()),
    };
    table_expression_alike(*a.1, *b.1, head.space());
    match (a.2, b.2) {
        (Some(x), Some(y)) => join_specification_alike(x, y, a.1.rendered(head.space()).new_line()),
        _ => {},
    }
}

/// Two values with the same view are rendered alike.
pub proof fn from_clause_alike(a: FromClause, b: FromClause, st: Layout)
    requires
        a.deep_view() == b.deep_view(),
    ensures
        a.rendered(st) == b.rendered(st),
    decreases a, 0nat,
{
    reveal(crate::select::from::from_clause_view);
    reveal(crate::select::join::join_clause_view);
    let x = a.deep_view().0;
    let y = b.deep_view().0;
    assert(x.len() == a.0.0@.len() && y.len() == b.0.0@.len());
    assert forall|i: int| 0 <= i < a.0.0@.len() implies (#[trigger] a.0.0@[i]).deep_view()
        == b.0.0@[i].deep_view() by {
        assert(x[i] == y[i]);
    }
    let head = st.left_side(Keyword::From.spec_text()).space();
    render_table_expressions_alike(a.0.0, b.0.0, a.0.0@.len(), head);
    match (a.1, b.1) {
        (Some(p), Some(q)) => {
            let u = a.deep_view().1->Some_0;
            let v = b.deep_view().1->Some_0;
            assert(u.len() == p.0@.len() && v.len() == q.0@.len());
            assert forall|i: int| 0 <= i < p.0@.len() implies (#[trigger] p.0@[i]).deep_view()
                == q.0@[i].deep_view() by {
                assert(u[i] == v[i]);
            }
            render_joins_alike(p.0, q.0, p.0@.len(), a.0.rendered(head));
        },
        _ => {},
    }
}

/// Two values with the same view are rendered alike.
pub proof fn having_clause_alike(a: HavingClause, b: HavingClause, st: Layout)
    requires
        a.deep_view() == b.deep_view(),
    ensures
        a.rendered(st) == b.rendered(st),
    decreases a, 0nat,
{
    reveal(crate::select::group::having_clause_view);
    reveal(crate::expression::condition::expression_view);
    expression_alike(a.0, b.0, st.left_side(Keyword::Having.spec_text()).space());
}

/// Two values with the same view are rendered alike.
pub proof fn group_by_clause_alike(a: GroupByClause, b: GroupByClause, st: Layout)
    requires
        a.deep_view() == b.deep_view(),
    ensures
        a.rendered(st) == b.rendered(st),
    decreases a, 0nat,
{
    reveal(crate::select::group::group_by_clause_view);
    reveal(crate::select::group::having_clause_view);
    let x = a.deep_view().0;
    let y = b.deep_view().0;
    assert(x.len() == a.0.0@.len() && y.len() == b.0.0@.len());
    assert forall|i: int| 0 <= i < a.0.0@.len() implies (#[trigger] a.0.0@[i]).deep_view()
        == b.0.0@[i].deep_view() by {
        assert(x[i] == y[i]);
    }
    let head = st.left_side(Keyword::Group.spec_text()).space().append(
        Keyword::By.spec_text(),
    ).space();
    render_grouping_elements_alike(a.0.0, b.0.0, a.0.0@.len(), head);
    match (a.1, b.1) {
        (Some(p), Some(q)) => having_clause_alike(p, q, a.0.rendered(head).new_line()),
        _ => {},
    }
}

/// Two values with the same view are rendered alike.
pub proof fn select_statement_alike(a: SelectStatement, b: SelectStatement, st: Layout)
    requires
        a.deep_view() == b.deep_view(),
    ensures
        a.rendered(st) == b.rendered(st),
    decreases a, 0nat,
{
    reveal(crate::select::statement::select_statement_view);
    reveal(crate::select::clause::select_clause_view);
    reveal(crate::select::from::from_clause_view);
    reveal(crate::expression::condition::where_clause_view);
    reveal(crate::select::group::group_by_clause_view);
    select_clause_alike(a.select, b.select, st.set_pad(6));
    let s1 = a.select.rendered(st.set_pad(6));
    match (a.from, b.from) {
        (Some(x), Some(y)) => from_clause_alike(x, y, s1.new_line()),
        _ => {},
    }
    let s2 = match a.from {
        Some(clause) => clause.rendered(s1.new_line()),
        None => s1,
    };
    match (a.where_clause, b.where_clause) {
        (Some(x), Some(y)) => where_clause_alike(x, y, s2.new_line()),
        _ => {},
    }
    let s3 = match a.where_clause {
        Some(clause) => clause.rendered(s2.new_line()),
        None => s2,
    };
    match (a.group_by, b.group_by) {
        (Some(x), Some(y)) => group_by_clause_alike(x, y, s3.new_line()),
        _ => {},
    }
    let s4 = match a.group_by {
        Some(clause) => clause.rendered(s3.new_line()),
        None => s3,
    };
    match (a.order_by, b.order_by) {
        (Some(x), Some(y)) => order_by_clause_alike(x, y, s4.new_line()),
        _ => {},
    }
}

/// Two lists whose elements have the same views, one by one, are rendered
/// alike by `render_elements`.
pub proof fn render_elements_alike(a: Vec<TableElement>, b: Vec<TableElement>, n: nat, st: Layout)
    requires
        a@.len() == b@.len(),
        forall|i: int| 0 <= i < a@.len() ==> (#[trigger] a@[i]).deep_view() == b@[i].deep_view(),
    ensures
        render_elements(a, n, st) == render_elements(b, n, st),
    decreases a, n,
{
    if n == 0 || n > a@.len() {
    } else if n == 1 {
        table_element_alike(a@[0], b@[0], st.indent());
    } else {
        render_elements_alike(a, b, (n - 1) as nat, st);
        table_element_alike(
            a@[n - 1],
            b@[n - 1],
            render_elements(a, (n - 1) as nat, st).append(","@).new_line().indent(),
        );
    }
}

/// Two lists whose elements have the same views, one by one, are rendered
/// alike by `render_actions`.
pub proof fn render_actions_alike(a: Vec<AlterTableAction>, b: Vec<AlterTableAction>, n: nat, st: Layout)
    requires
        a@.len() == b@.len(),
        forall|i: int| 0 <= i < a@.len() ==> (#[trigger] a@[i]).deep_view() == b@[i].deep_view(),
    ensures
        render_actions(a, n, st) == render_actions(b, n, st),
    decreases a, n,
{
    if n == 0 || n > a@.len() {
    } else {
        render_actions_alike(a, b, (n - 1) as nat, st);
        alter_table_action_alike(
            a@[n - 1],
            b@[n - 1],
            render_actions(a, (n - 1) as nat, st).new_line().indent(),
        );
    }
}

/// Two lists whose elements have the same views, one by one, are rendered
/// alike by `render_assignments`.
pub proof fn render_assignments_alike(a: Vec<SetExpression>, b: Vec<SetExpression>, n: nat, st: Layout)
    requires
        a@.len() == b@.len(),
        forall|i: int| 0 <= i < a@.len() ==> (#[trigger] a@[i]).deep_view() == b@[i].deep_view(),
    ensures
        render_assignments(a, n, st) == render_assignments(b, n, st),
    decreases a, n,
{
    if n == 0 || n > a@.len() {
    } else if n == 1 {
        set_expression_alike(a@[0], b@[0], st);
    } else {
        render_assignments_alike(a, b, (n - 1) as nat, st);
        set_expression_alike(
            a@[n - 1],
            b@[n - 1],
            render_assignments(a, (n - 1) as nat, st).append(","@).new_line().right_margin(),
        );
    }
}

/// Two lists whose elements have the same views, one by one, are rendered
/// alike by `render_insert_values`.
pub proof fn render_insert_values_alike(a: Vec<InsertValue>, b: Vec<InsertValue>, n: nat, st: Layout)
    requires
        a@.len() == b@.len(),
        forall|i: int| 0 <= i < a@.len() ==> (#[trigger] a@[i]).deep_view() == b@[i].deep_view(),
    ensures
        render_insert_values(a, n, st) == render_insert_values(b, n, st),
    decreases a, n,
{
    if n == 0 || n > a@.len() {
    } else if n == 1 {
        insert_value_alike(a@[0], b@[0], st);
    } else {
        render_insert_values_alike(a, b, (n - 1) as nat, st);
        insert_value_alike(
            a@[n - 1],
            b@[n - 1],
            render_insert_values(a, (n - 1) as nat, st).append(", "@),
        );
    }
}

/// Two lists whose elements have the same views, one by one, are rendered
/// alike by `render_rows`.
pub proof fn render_rows_alike(a: Vec<InsertValue>, b: Vec<InsertValue>, n: nat, st: Layout)
    requires
        a@.len() == b@.len(),
        forall|i: int| 0 <= i < a@.len() ==> (#[trigger] a@[i]).deep_view() == b@[i].deep_view(),
    ensures
        render_rows(a, n, st) == render_rows(b, n, st),
    decreases a, n,
{
    if n == 0 || n > a@.len() {
    } else if n == 1 {
        insert_value_alike(a@[0], b@[0], st);
    } else {
        render_rows_alike(a, b, (n - 1) as nat, st);
        insert_value_alike(
            a@[n - 1],
            b@[n - 1],
            render_rows(a, (n - 1) as nat, st).new_line().right_margin(),
        );
    }
}

/// Two lists whose elements have the same views, one by one, are rendered
/// alike by `render_options`.
pub proof fn render_options_alike(a: Vec<SequenceGeneratorOption>, b: Vec<SequenceGeneratorOption>, n: nat, st: Layout)
    requires
        a@.len() == b@.len(),
        forall|i: int| 0 <= i < a@.len() ==> (#[trigger] a@[i]).deep_view() == b@[i].deep_view(),
    ensures
        render_options(a, n, st) == render_options(b, n, st),
    decreases a, n,
{
    if n == 0 || n > a@.len() {
    } else {
        render_options_alike(a, b, (n - 1) as nat, st);
        sequence_generator_option_alike(
            a@[n - 1],
            b@[n - 1],
            render_options(a, (n - 1) as nat, st).new_line().indent(),
        );
    }
}

/// Two lists whose elements have the same views, one by one, are rendered
/// alike by `render_members`.
pub proof fn render_members_alike(a: Vec<Member>, b: Vec<Member>, n: nat, st: Layout)
    requires
        a@.len() == b@.len(),
        forall|i: int| 0 <= i < a@.len() ==> (#[trigger] a@[i]).deep_view() == b@[i].deep_view(),
    ensures
        render_members(a, n, st) == render_members(b, n, st),
    decreases a, n,
{
    if n == 0 || n > a@.len() {
    } else if n == 1 {
        member_alike(a@[0], b@[0], st.new_line().indent());
    } else {
        render_members_alike(a, b, (n - 1) as nat, st);
        member_alike(
            a@[n - 1],
            b@[n - 1],
            render_members(a, (n - 1) as nat, st).append(","@).new_line().indent(),
        );
    }
}

/// Two lists whose elements have the same views, one by one, are rendered
/// alike by `render_statements`.
pub proof fn render_statements_alike(a: Vec<Statement>, b: Vec<Statement>, n: nat, st: Layout)
    requires
        a@.len() == b@.len(),
        forall|i: int| 0 <= i < a@.len() ==> (#[trigger] a@[i]).deep_view() == b@[i].deep_view(),
    ensures
        render_statements(a, n, st) == render_statements(b, n, st),
    decreases a, n,
{
    if n == 0 || n > a@.len() {
    } else if n == 1 {
        statement_alike(a@[0], b@[0], st);
    } else {
        render_statements_alike(a, b, (n - 1) as nat, st);
        statement_alike(
            a@[n - 1],
            b@[n - 1],
            render_statements(a, (n - 1) as nat, st).new_line().new_line(),
        );
    }
}

/// Two values with the same view are rendered alike.
pub proof fn table_ref_alike(a: TableRef, b: TableRef, st: Layout)
    requires
        a.deep_view() == b.deep_view(),
    ensures
        a.rendered(st) == b.rendered(st),
{
    match (a.0, b.0) {
        (Some(x), Some(y)) => {
            name_alike(x, y, st);
            name_alike(a.1, b.1, x.rendered(st).append("."@));
        },
        _ => name_alike(a.1, b.1, st),
    }
}

/// Two values with the same view are rendered alike.
pub proof fn schema_qualified_name_alike(a: SchemaQualifiedName, b: SchemaQualifiedName, st: Layout)
    requires
        a.deep_view() == b.deep_view(),
    ensures
        a.rendered(st) == b.rendered(st),
{
    match (a.0, b.0) {
        (Some(x), Some(y)) => {
            name_alike(x, y, st);
            name_alike(a.1, b.1, x.rendered(st).append("."@));
        },
        _ => name_alike(a.1, b.1, st.append("'"@)),
    }
}

/// Two values with the same view are rendered alike.
pub proof fn delimited_identifier_alike(a: Delimitedidentifier, b: Delimitedidentifier, st: Layout)
    requires
        a.deep_view() == b.deep_view(),
    ensures
        a.rendered(st) == b.rendered(st),
{
    match (a, b) {
        (Delimitedidentifier::Name(x), Delimitedidentifier::Name(y)) => name_alike(x, y, st),
        (Delimitedidentifier::Quoted(x), Delimitedidentifier::Quoted(y)) => name_alike(
            x,
            y,
            st.append("\""@),
        ),
        _ => {},
    }
}

/// Two values with the same view are rendered alike.
pub proof fn data_type_alike(a: DataType, b: DataType, st: Layout)
    requires
        a.deep_view() == b.deep_view(),
    ensures
        a.rendered(st) == b.rendered(st),
{
    match (a.1, b.1) {
        (Some(p), Some(q)) => {
            {
                let x = p.0.deep_view();
                let y = q.0.deep_view();
                assert(x == y);
                assert(x.len() == p.0@.len() && y.len() == q.0@.len());
                assert forall|i: int| 0 <= i < p.0@.len() implies (#[trigger] p.0@[i]).deep_view()
                    == q.0@[i].deep_view() by {
                    assert(x[i] == y[i]);
                }
            }
            render_values_alike(p.0, q.0, p.0@.len(), a.0.rendered(st).append("("@));
        },
        _ => {},
    }
}

/// Two values with the same view are rendered alike.
pub proof fn default_option_alike(a: crate::table::create::DefaultOption, b: crate::table::create::DefaultOption, st: Layout)
    requires
        a.deep_view() == b.deep_view(),
    ensures
        a.rendered(st) == b.rendered(st),
{
    match (a, b) {
        (crate::table::create::DefaultOption::Value(x), crate::table::create::DefaultOption::Value(y)) => {
            value_alike(x, y, st)
        },
    }
}

/// Two values with the same view are rendered alike.
pub proof fn alter_default_option_alike(a: crate::table::alter::DefaultOption, b: crate::table::alter::DefaultOption, st: Layout)
    requires
        a.deep_view() == b.deep_view(),
    ensures
        a.rendered(st) == b.rendered(st),
{
    match (a, b) {
        (crate::table::alter::DefaultOption::Value(x), crate::table::alter::DefaultOption::Value(y)) => {
            value_alike(x, y, st)
        },
    }
}

/// Two values with the same view are rendered alike.
pub proof fn default_clause_alike(a: DefaultClause, b: DefaultClause, st: Layout)
    requires
        a.deep_view() == b.deep_view(),
    ensures
        a.rendered(st) == b.rendered(st),
{
    default_option_alike(a.0, b.0, st.append(Keyword::Default.spec_text()).space());
}

/// Two values with the same view are rendered alike.
pub proof fn constraint_name_definition_alike(a: ConstraintNameDefinition, b: ConstraintNameDefinition, st: Layout)
    requires
        a.deep_view() == b.deep_view(),
    ensures
        a.rendered(st) == b.rendered(st),
{
    name_alike(a.0, b.0, st.append(Keyword::Constraint.spec_text()).space());
}

/// Two values with the same view are rendered alike.
pub proof fn column_constraint_definition_alike(a: ColumnConstraintDefinition, b: ColumnConstraintDefinition, st: Layout)
    requires
        a.deep_view() == b.deep_view(),
    ensures
        a.rendered(st) == b.rendered(st),
{
    match (a.0, b.0) {
        (Some(x), Some(y)) => constraint_name_definition_alike(x, y, st),
        _ => {},
    }
}

/// Two values with the same view are rendered alike.
pub proof fn column_def_alike(a: ColumnDef, b: ColumnDef, st: Layout)
    requires
        a.deep_view() == b.deep_view(),
    ensures
        a.rendered(st) == b.rendered(st),
{
    delimited_identifier_alike(a.0, b.0, st);
    data_type_alike(a.1, b.1, a.0.rendered(st).space());
    let typed = a.1.rendered(a.0.rendered(st).space());
    match (a.2, b.2) {
        (Some(x), Some(y)) => default_clause_alike(x, y, typed.space()),
        _ => {},
    }
    let with_default = match a.2 {
        Some(default) => default.rendered(typed.space()),
        None => typed,
    };
    match (a.3, b.3) {
        (Some(x), Some(y)) => column_constraint_definition_alike(x, y, with_default.space()),
        _ => {},
    }
}

/// Two values with the same view are rendered alike.
pub proof fn unique_constraint_definition_alike(a: UniqueConstraintDefinition, b: UniqueConstraintDefinition, st: Layout)
    requires
        a.deep_view() == b.deep_view(),
    ensures
        a.rendered(st) == b.rendered(st),
{
    {
        let x = a.1.0.deep_view();
        let y = b.1.0.deep_view();
        assert(x == y);
        assert(x.len() == a.1.0@.len() && y.len() == b.1.0@.len());
        assert forall|i: int| 0 <= i < a.1.0@.len() implies (#[trigger] a.1.0@[i]).deep_view()
            == b.1.0@[i].deep_view() by {
            assert(x[i] == y[i]);
        }
    }
    render_column_refs_alike(a.1.0, b.1.0, a.1.0@.len(), a.0.rendered(st).append("("@));
}

/// Two values with the same view are rendered alike.
pub proof fn references_specification_alike(a: ReferencesSpecification, b: ReferencesSpecification, st: Layout)
    requires
        a.deep_view() == b.deep_view(),
    ensures
        a.rendered(st) == b.rendered(st),
{
    let head = st.append(Keyword::References.spec_text()).space();
    table_ref_alike(a.0, b.0, head);
    {
        let x = a.1.0.deep_view();
        let y = b.1.0.deep_view();
        assert(x == y);
        assert(x.len() == a.1.0@.len() && y.len() == b.1.0@.len());
        assert forall|i: int| 0 <= i < a.1.0@.len() implies (#[trigger] a.1.0@[i]).deep_view()
            == b.1.0@[i].deep_view() by {
            assert(x[i] == y[i]);
        }
    }
    render_column_refs_alike(a.1.0, b.1.0, a.1.0@.len(), a.0.rendered(head).append("("@));
}

/// Two values with the same view are rendered alike.
pub proof fn referential_constraint_definition_alike(a: ReferentialConstraintDefinition, b: ReferentialConstraintDefinition, st: Layout)
    requires
        a.deep_view() == b.deep_view(),
    ensures
        a.rendered(st) == b.rendered(st),
{
    let head = st.append(Keyword::Foreign.spec_text()).space().append(
        Keyword::Key.spec_text(),
    ).space().append("("@);
    {
        let x = a.0.0.deep_view();
        let y = b.0.0.deep_view();
        assert(x == y);
        assert(x.len() == a.0.0@.len() && y.len() == b.0.0@.len());
        assert forall|i: int| 0 <= i < a.0.0@.len() implies (#[trigger] a.0.0@[i]).deep_view()
            == b.0.0@[i].deep_view() by {
            assert(x[i] == y[i]);
        }
    }
    render_column_refs_alike(a.0.0, b.0.0, a.0.0@.len(), head);
    references_specification_alike(a.1, b.1, a.0.rendered(head).append(")"@).space());
}

/// Two values with the same view are rendered alike.
pub proof fn table_constraint_alike(a: TableConstraint, b: TableConstraint, st: Layout)
    requires
        a.deep_view() == b.deep_view(),
    ensures
        a.rendered(st) == b.rendered(st),
{
    match (a, b) {
        (TableConstraint::Reference(x), TableConstraint::Reference(y)) => {
            referential_constraint_definition_alike(x, y, st)
        },
        (TableConstraint::Unique(x), TableConstraint::Unique(y)) => {
            unique_constraint_definition_alike(x, y, st)
        },
        _ => {},
    }
}

/// Two values with the same view are rendered alike.
pub proof fn table_constraint_definition_alike(a: TableConstraintDefinition, b: TableConstraintDefinition, st: Layout)
    requires
        a.deep_view() == b.deep_view(),
    ensures
        a.rendered(st) == b.rendered(st),
{
    match (a.0, b.0) {
        (Some(x), Some(y)) => {
            constraint_name_definition_alike(x, y, st);
            table_constraint_alike(a.1, b.1, x.rendered(st).space());
        },
        _ => table_constraint_alike(a.1, b.1, st),
    }
}

/// Two values with the same view are rendered alike.
pub proof fn table_element_alike(a: TableElement, b: TableElement, st: Layout)
    requires
        a.deep_view() == b.deep_view(),
    ensures
        a.rendered(st) == b.rendered(st),
{
    match (a, b) {
        (TableElement::ColumnDef(x), TableElement::ColumnDef(y)) => column_def_alike(
            x,
            y,
            st.indent(),
        ),
        (TableElement::TableConstraintDefinition(x), TableElement::TableConstraintDefinition(y)) => {
            table_constraint_definition_alike(x, y, st.indent())
        },
        _ => {},
    }
}

/// Two values with the same view are rendered alike.
pub proof fn alter_column_action_alike(a: AlterColumnAction, b: AlterColumnAction, st: Layout)
    requires
        a.deep_view() == b.deep_view(),
    ensures
        a.rendered(st) == b.rendered(st),
{
    match (a, b) {
        (
            AlterColumnAction::SetDefaultColumnClause(x),
            AlterColumnAction::SetDefaultColumnClause(y),
        ) => alter_default_option_alike(
            x,
            y,
            st.append(Keyword::SetWord.spec_text()).space().append(
                Keyword::Default.spec_text(),
            ).space(),
        ),
    }
}

/// Two values with the same view are rendered alike.
pub proof fn alter_table_action_alike(a: AlterTableAction, b: AlterTableAction, st: Layout)
    requires
        a.deep_view() == b.deep_view(),
    ensures
        a.rendered(st) == b.rendered(st),
{
    match (a, b) {
        (AlterTableAction::AddColumnDefinition(x), AlterTableAction::AddColumnDefinition(y)) => {
            column_def_alike(
                x,
                y,
                st.indent().append(Keyword::Add.spec_text()).space().append(
                    Keyword::Column.spec_text(),
                ).space(),
            )
        },
        (
            AlterTableAction::DropColumnDefinition(x, _),
            AlterTableAction::DropColumnDefinition(y, _),
        ) => name_alike(
            x,
            y,
            st.indent().append(Keyword::Drop.spec_text()).space().append(
                Keyword::Column.spec_text(),
            ).space(),
        ),
        (
            AlterTableAction::AddTableConstraintDefinition(x),
            AlterTableAction::AddTableConstraintDefinition(y),
        ) => table_constraint_definition_alike(
            x,
            y,
            st.indent().append(Keyword::Add.spec_text()).space(),
        ),
        (
            AlterTableAction::AlterColumnDefinition(x, p),
            AlterTableAction::AlterColumnDefinition(y, q),
        ) => {
            let head = st.indent().append(Keyword::Alter.spec_text()).space().append(
                Keyword::Column.spec_text(),
            ).space();
            column_ref_alike(x, y, head);
            alter_column_action_alike(p, q, x.rendered(head).space());
        },
        _ => {},
    }
}

/// Two values with the same view are rendered alike.
pub proof fn alter_table_alike(a: AlterTable, b: AlterTable, st: Layout)
    requires
        a.deep_view() == b.deep_view(),
    ensures
        a.rendered(st) == b.rendered(st),
{
    let head = st.append(Keyword::Alter.spec_text()).space().append(
        Keyword::Table.spec_text(),
    ).space();
    table_ref_alike(a.0, b.0, head);
    {
        let x = a.1.deep_view();
        let y = b.1.deep_view();
        assert(x == y);
        assert(x.len() == a.1@.len() && y.len() == b.1@.len());
        assert forall|i: int| 0 <= i < a.1@.len() implies (#[trigger] a.1@[i]).deep_view()
            == b.1@[i].deep_view() by {
            assert(x[i] == y[i]);
        }
    }
    render_actions_alike(a.1, b.1, a.1@.len(), a.0.rendered(head));
}

/// Two values with the same view are rendered alike.
pub proof fn update_clause_alike(a: UpdateClause, b: UpdateClause, st: Layout)
    requires
        a.deep_view() == b.deep_view(),
    ensures
        a.rendered(st) == b.rendered(st),
{
    table_ref_alike(a.0, b.0, st.append(Keyword::Update.spec_text()).space());
}

/// Two values with the same view are rendered alike.
pub proof fn insert_into_clause_alike(a: InsertIntoClause, b: InsertIntoClause, st: Layout)
    requires
        a.deep_view() == b.deep_view(),
    ensures
        a.rendered(st) == b.rendered(st),
{
    let head = st.padded(Keyword::Insert.spec_text()).space().append(
        Keyword::Into.spec_text(),
    ).space();
    table_ref_alike(a.0, b.0, head);
    match (a.1, b.1) {
        (Some(p), Some(q)) => {
            {
                let x = p.0.deep_view();
                let y = q.0.deep_view();
                assert(x == y);
                assert(x.len() == p.0@.len() && y.len() == q.0@.len());
                assert forall|i: int| 0 <= i < p.0@.len() implies (#[trigger] p.0@[i]).deep_view()
                    == q.0@[i].deep_view() by {
                    assert(x[i] == y[i]);
                }
            }
            render_names_alike(p.0, q.0, p.0@.len(), a.0.rendered(head).space().append("("@));
        },
        _ => {},
    }
}

/// Two values with the same view are rendered alike.
pub proof fn sequence_generator_option_alike(a: SequenceGeneratorOption, b: SequenceGeneratorOption, st: Layout)
    requires
        a.deep_view() == b.deep_view(),
    ensures
        a.rendered(st) == b.rendered(st),
{

}

/// Two values with the same view are rendered alike.
pub proof fn sequence_alike(a: Sequence, b: Sequence, st: Layout)
    requires
        a.deep_view() == b.deep_view(),
    ensures
        a.rendered(st) == b.rendered(st),
{
    let head = st.append(Keyword::Create.spec_text()).space().append(
        Keyword::Sequence.spec_text(),
    ).space();
    schema_qualified_name_alike(a.0, b.0, head);
    {
        let x = a.1.deep_view();
        let y = b.1.deep_view();
        assert(x == y);
        assert(x.len() == a.1@.len() && y.len() == b.1@.len());
        assert forall|i: int| 0 <= i < a.1@.len() implies (#[trigger] a.1@[i]).deep_view()
            == b.1@[i].deep_view() by {
            assert(x[i] == y[i]);
        }
    }
    render_options_alike(a.1, b.1, a.1@.len(), a.0.rendered(head).set_pad(4));
}

/// Two values with the same view are rendered alike.
pub proof fn member_alike(a: Member, b: Member, st: Layout)
    requires
        a.deep_view() == b.deep_view(),
    ensures
        a.rendered(st) == b.rendered(st),
{

}

/// Two values with the same view are rendered alike.
pub proof fn user_defined_type_definition_alike(a: UserDefinedTypeDefinition, b: UserDefinedTypeDefinition, st: Layout)
    requires
        a.deep_view() == b.deep_view(),
    ensures
        a.rendered(st) == b.rendered(st),
{
    let head = st.append(Keyword::Create.spec_text()).space().append(
        Keyword::Type.spec_text(),
    ).space();
    schema_qualified_name_alike(a.0, b.0, head);
    let named = a.0.rendered(head);
    let typed = match a.1 {
        Some(t) => t.rendered(named.space().append(Keyword::As.spec_text()).space()),
        None => named,
    };
    {
        let x = a.2.0.deep_view();
        let y = b.2.0.deep_view();
        assert(x == y);
        assert(x.len() == a.2.0@.len() && y.len() == b.2.0@.len());
        assert forall|i: int| 0 <= i < a.2.0@.len() implies (#[trigger] a.2.0@[i]).deep_view()
            == b.2.0@[i].deep_view() by {
            assert(x[i] == y[i]);
        }
    }
    render_members_alike(a.2.0, b.2.0, a.2.0@.len(), typed.space().append("("@).set_pad(4));
}

/// Two values with the same view are rendered alike.
pub proof fn set_statement_alike(a: SetStatement, b: SetStatement, st: Layout)
    requires
        a.deep_view() == b.deep_view(),
    ensures
        a.rendered(st) == b.rendered(st),
{
    let head = st.append(Keyword::SetWord.spec_text()).space();
    name_alike(a.0, b.0, head);
    value_alike(a.1, b.1, a.0.rendered(head).space().append("="@).space());
}

/// Two values with the same view are rendered alike.
pub proof fn set_expression_alike(a: SetExpression, b: SetExpression, st: Layout)
    requires
        a.deep_view() == b.deep_view(),
    ensures
        a.rendered(st) == b.rendered(st),
{
    reveal(crate::update::set_expression_view);
    reveal(crate::expression::condition::expression_view);
    name_alike(a.0, b.0, st);
    expression_alike(a.1, b.1, a.0.rendered(st).space().append("="@).space());
}

/// Two values with the same view are rendered alike.
pub proof fn set_clause_alike(a: SetClause, b: SetClause, st: Layout)
    requires
        a.deep_view() == b.deep_view(),
    ensures
        a.rendered(st) == b.rendered(st),
{
    reveal(crate::update::set_clause_view);
    reveal(crate::update::set_expression_view);
    {
        let x = a.deep_view().0;
        let y = b.deep_view().0;
        assert(x.len() == a.0.0@.len() && y.len() == b.0.0@.len());
        assert forall|i: int| 0 <= i < a.0.0@.len() implies (#[trigger] a.0.0@[i]).deep_view()
            == b.0.0@[i].deep_view() by {
            assert(x[i] == y[i]);
        }
    }
    render_assignments_alike(
        a.0.0,
        b.0.0,
        a.0.0@.len(),
        st.padded(Keyword::SetWord.spec_text()).space(),
    );
}

/// Two values with the same view are rendered alike.
pub proof fn update_statement_alike(a: UpdateStatement, b: UpdateStatement, st: Layout)
    requires
        a.deep_view() == b.deep_view(),
    ensures
        a.rendered(st) == b.rendered(st),
{
    reveal(crate::update::update_statement_view);
    reveal(crate::update::set_clause_view);
    reveal(crate::expression::condition::where_clause_view);
    update_clause_alike(a.0, b.0, st.set_pad(6));
    set_clause_alike(a.1, b.1, a.0.rendered(st.set_pad(6)).new_line());
    match (a.2, b.2) {
        (Some(x), Some(y)) => where_clause_alike(
            x,
            y,
            a.1.rendered(a.0.rendered(st.set_pad(6)).new_line()).new_line(),
        ),
        _ => {},
    }
}

/// Two values with the same view are rendered alike.
pub proof fn insert_value_alike(a: InsertValue, b: InsertValue, st: Layout)
    requires
        a.deep_view() == b.deep_view(),
    ensures
        a.rendered(st) == b.rendered(st),
    decreases a, 0nat,
{
    reveal(crate::insert::insert_value_view);
    reveal(crate::expression::condition::expression_view);
    match (a, b) {
        (InsertValue::Expression(x), InsertValue::Expression(y)) => expression_alike(*x, *y, st),
        (InsertValue::ParenthesisExpression(p), InsertValue::ParenthesisExpression(q)) => {
            {
                let x = a.deep_view()->ParenthesisExpression_0;
                let y = b.deep_view()->ParenthesisExpression_0;
                assert(x.len() == p.0@.len() && y.len() == q.0@.len());
                assert forall|i: int| 0 <= i < p.0@.len() implies (#[trigger] p.0@[i]).deep_view()
                    == q.0@[i].deep_view() by {
                    assert(x[i] == y[i]);
                }
            }
            render_insert_values_alike(p.0, q.0, p.0@.len(), st.append("("@));
        },
        _ => {},
    }
}

/// Two values with the same view are rendered alike.
pub proof fn values_clause_alike(a: ValuesClause, b: ValuesClause, st: Layout)
    requires
        a.deep_view() == b.deep_view(),
    ensures
        a.rendered(st) == b.rendered(st),
{
    reveal(crate::insert::values_clause_view);
    reveal(crate::insert::insert_value_view);
    {
        let x = a.deep_view().0;
        let y = b.deep_view().0;
        assert(x.len() == a.0.0@.len() && y.len() == b.0.0@.len());
        assert forall|i: int| 0 <= i < a.0.0@.len() implies (#[trigger] a.0.0@[i]).deep_view()
            == b.0.0@[i].deep_view() by {
            assert(x[i] == y[i]);
        }
    }
    render_rows_alike(a.0.0, b.0.0, a.0.0@.len(), st.padded(Keyword::Values.spec_text()).space());
}

/// Two values with the same view are rendered alike.
pub proof fn insert_statement_alike(a: InsertStatement, b: InsertStatement, st: Layout)
    requires
        a.deep_view() == b.deep_view(),
    ensures
        a.rendered(st) == b.rendered(st),
{
    reveal(crate::insert::insert_statement_view);
    reveal(crate::insert::values_clause_view);
    insert_into_clause_alike(a.0, b.0, st.set_pad(6));
    values_clause_alike(a.1, b.1, a.0.rendered(st.set_pad(6)).new_line());
}

/// Two values with the same view are rendered alike.
pub proof fn query_term_alike(a: QueryTerm, b: QueryTerm, st: Layout)
    requires
        a.deep_view() == b.deep_view(),
    ensures
        a.rendered(st) == b.rendered(st),
    decreases a, 0nat,
{
    reveal(crate::select::table_operator::query_term_view);
    reveal(crate::select::statement::select_statement_view);
    match (a, b) {
        (QueryTerm::Select(x), QueryTerm::Select(y)) => select_statement_alike(*x, *y, st),
        (QueryTerm::Parenthesis(x), QueryTerm::Parenthesis(y)) => query_term_alike(
            *x,
            *y,
            st.set_pad(one_more(st.pad)).append("("@),
        ),
        _ => {},
    }
}

/// Two values with the same view are rendered alike.
pub proof fn combined_tables_alike(a: CombinedTables, b: CombinedTables, st: Layout)
    requires
        a.deep_view() == b.deep_view(),
    ensures
        a.rendered(st) == b.rendered(st),
{
    reveal(crate::select::table_operator::combined_tables_view);
    reveal(crate::select::table_operator::query_term_view);
    query_term_alike(a.0, b.0, st);
    query_term_alike(
        a.2,
        b.2,
        a.1.rendered(a.0.rendered(st).new_line().new_line()).new_line().new_line(),
    );
}

/// Two values with the same view are rendered alike.
pub proof fn subquery_alike(a: Subquery, b: Subquery, st: Layout)
    requires
        a.deep_view() == b.deep_view(),
    ensures
        a.rendered(st) == b.rendered(st),
    decreases a, 0nat,
{
    reveal(crate::table::create::subquery_view);
    reveal(crate::query::query_view);
    query_alike(*a.0, *b.0, st.append("("@).new_line());
}

/// Two values with the same view are rendered alike.
pub proof fn table_contents_source_alike(a: TableContentsSource, b: TableContentsSource, st: Layout)
    requires
        a.deep_view() == b.deep_view(),
    ensures
        a.rendered(st) == b.rendered(st),
    decreases a, 0nat,
{
    reveal(crate::table::create::table_contents_source_view);
    reveal(crate::table::create::subquery_view);
    match (a, b) {
        (TableContentsSource::As(x), TableContentsSource::As(y)) => subquery_alike(
            x,
            y,
            st.append(Keyword::As.spec_text()).space().set_pad(4).new_context(),
        ),
        (TableContentsSource::TableElementList(p), TableContentsSource::TableElementList(q)) => {
            {
                let x = a.deep_view()->TableElementList_0;
                let y = b.deep_view()->TableElementList_0;
                assert(x.len() == p.0@.len() && y.len() == q.0@.len());
                assert forall|i: int| 0 <= i < p.0@.len() implies (#[trigger] p.0@[i]).deep_view()
                    == q.0@[i].deep_view() by {
                    assert(x[i] == y[i]);
                }
            }
            render_elements_alike(p.0, q.0, p.0@.len(), st.append("("@).new_line().set_pad(4));
        },
        _ => {},
    }
}

/// Two values with the same view are rendered alike.
pub proof fn create_table_statement_alike(a: CreateTableStatement, b: CreateTableStatement, st: Layout)
    requires
        a.deep_view() == b.deep_view(),
    ensures
        a.rendered(st) == b.rendered(st),
    decreases a, 0nat,
{
    reveal(crate::table::create::create_table_statement_view);
    reveal(crate::table::create::table_contents_source_view);
    let head = st.append(Keyword::Create.spec_text()).space().append(
        Keyword::Table.spec_text(),
    ).space();
    table_ref_alike(a.0, b.0, head);
    table_contents_source_alike(a.1, b.1, a.0.rendered(head).space());
}

/// Two values with the same view are rendered alike.
pub proof fn table_alike(a: Table, b: Table, st: Layout)
    requires
        a.deep_view() == b.deep_view(),
    ensures
        a.rendered(st) == b.rendered(st),
    decreases a, 0nat,
{
    reveal(crate::table::table_view);
    reveal(crate::table::create::create_table_statement_view);
    match (a, b) {
        (Table::Create(x), Table::Create(y)) => create_table_statement_alike(x, y, st),
        (Table::Alter(x), Table::Alter(y)) => alter_table_alike(x, y, st),
        _ => {},
    }
}

/// Two values with the same view are rendered alike.
pub proof fn query_alike(a: Query, b: Query, st: Layout)
    requires
        a.deep_view() == b.deep_view(),
    ensures
        a.rendered(st) == b.rendered(st),
    decreases a, 0nat,
{
    reveal(crate::query::query_view);
    reveal(crate::select::table_operator::combined_tables_view);
    reveal(crate::select::statement::select_statement_view);
    reveal(crate::table::table_view);
    reveal(crate::update::update_statement_view);
    reveal(crate::insert::insert_statement_view);
    match (a, b) {
        (Query::CombinedSelect(x), Query::CombinedSelect(y)) => combined_tables_alike(x, y, st),
        (Query::Select(x), Query::Select(y)) => select_statement_alike(*x, *y, st),
        (Query::Table(x), Query::Table(y)) => table_alike(x, y, st),
        (Query::Update(x), Query::Update(y)) => update_statement_alike(x, y, st),
        (Query::Insert(x), Query::Insert(y)) => insert_statement_alike(x, y, st),
        (Query::Sequence(x), Query::Sequence(y)) => sequence_alike(x, y, st),
        (Query::UserDefinedType(x), Query::UserDefinedType(y)) => {
            user_defined_type_definition_alike(x, y, st)
        },
        (Query::SetWord(x), Query::SetWord(y)) => set_statement_alike(x, y, st),
        _ => {},
    }
}

/// Two values with the same view are rendered alike.
pub proof fn statement_alike(a: Statement, b: Statement, st: Layout)
    requires
        a.deep_view() == b.deep_view(),
    ensures
        a.rendered(st) == b.rendered(st),
{
    reveal(crate::query::statement_view);
    reveal(crate::query::query_view);
    query_alike(a.0, b.0, st);
}

/// Two lists of statements with the same view are rendered alike.
pub proof fn statements_alike(a: List<Statement>, b: List<Statement>, st: Layout)
    requires
        a.deep_view() == b.deep_view(),
    ensures
        a.rendered(st) == b.rendered(st),
{
    let x = a.0.deep_view();
    let y = b.0.deep_view();
    assert(x == y);
    assert(x.len() == a.0@.len() && y.len() == b.0@.len());
    assert forall|i: int| 0 <= i < a.0@.len() implies (#[trigger] a.0@[i]).deep_view()
        == b.0@[i].deep_view() by {
        assert(x[i] == y[i]);
    }
    render_statements_alike(a.0, b.0, a.0@.len(), st);
}

} // verus!
