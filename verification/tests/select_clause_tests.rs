use sql_lint::term::column::ColumnRef;
use sql_lint::list::List;
use sql_lint::identifier::Name;
use sql_lint::select::clause::SelectClause;
use sql_lint::select::clause::SelectedExpression;
use sql_lint::select::clause::SetQuantifier;
use sql_lint::term::Term;
use sql_lint::select::clause::parse_select_clause;
#[allow(unused_imports)]
use sql_lint::formatter::Format;

#[test]
fn test_parse_clause() {
    let input = "SELECT distinct price";
    assert_eq!(
        parse_select_clause(input),
        Ok((
            "",
            SelectClause(
                Some(SetQuantifier::Distinct),
                List(vec!(SelectedExpression::Term(Term::ColumnRef(
                    ColumnRef::Name(Name::Name("price".to_string()))
                )))),
            )
        ))
    )
}
