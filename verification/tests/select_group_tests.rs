use sql_lint::term::column::ColumnRef;
use sql_lint::expression::condition::Compare;
use sql_lint::expression::condition::Condition;
use sql_lint::expression::condition::Expression;
use sql_lint::select::group::GroupByClause;
use sql_lint::select::group::GroupingElement;
use sql_lint::select::group::HavingClause;
use sql_lint::list::List;
use sql_lint::identifier::Name;
use sql_lint::numeric::Numeric;
use sql_lint::expression::condition::Operand;
use sql_lint::expression::condition::RightOperand;
use sql_lint::term::Term;
use sql_lint::term::value::Value;
use sql_lint::select::group::parse_group_by_clause;
#[allow(unused_imports)]
use sql_lint::formatter::Format;

#[test]
fn test_group_by() {
    let input = "GROUP BY year, title";
    assert_eq!(
        parse_group_by_clause(input),
        Ok((
            "",
            GroupByClause(
                List(vec!(
                    GroupingElement::ColumnRef(ColumnRef::Name(Name::Name("year".to_string()))),
                    GroupingElement::ColumnRef(ColumnRef::Name(Name::Name("title".to_string())))
                )),
                None
            )
        ))
    )
}

#[test]
fn test_group_by_having() {
    let input = "GROUP BY year, title HAVING year > 2001";
    assert_eq!(
        parse_group_by_clause(input),
        Ok((
            "",
            GroupByClause(
                List(vec!(
                    GroupingElement::ColumnRef(ColumnRef::Name(Name::Name("year".to_string()))),
                    GroupingElement::ColumnRef(ColumnRef::Name(Name::Name("title".to_string())))
                )),
                Some(HavingClause(Expression::Condition(
                    Condition::BinaryExpression(
                        Operand::Term(Term::ColumnRef(ColumnRef::Name(Name::Name(
                            "year".to_string()
                        )))),
                        RightOperand::Compare(
                            Compare::GreaterThan,
                            Operand::Term(Term::Value(Value::Num(Numeric::Int(2001))))
                        )
                    )
                )))
            )
        ))
    )
}

#[test]
fn test_format_group_by() {
    let (_, t) = parse_group_by_clause("group by age HAVING email Like '%proton%'").unwrap();
    assert_eq!(t.output(), "GROUP BY age\nHAVING email LIKE '%proton%'");

    let (_, t) = parse_group_by_clause("group by age, lastname").unwrap();
    assert_eq!(t.output(), "GROUP BY age, lastname")
}
