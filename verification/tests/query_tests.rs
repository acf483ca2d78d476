use sql_lint::expression::condition::Condition;
use sql_lint::expression::condition::Expression;
use sql_lint::select::from::FromClause;
use sql_lint::insert::InsertIntoClause;
use sql_lint::insert::InsertStatement;
use sql_lint::insert::InsertValue;
use sql_lint::list::List;
use sql_lint::identifier::Name;
use sql_lint::numeric::Numeric;
use sql_lint::expression::condition::Operand;
use sql_lint::query::Query;
use sql_lint::query::Statement;
use sql_lint::select::clause::SelectClause;
use sql_lint::select::statement::SelectStatement;
use sql_lint::select::clause::SelectedExpression;
use sql_lint::select::from::TableExpression;
use sql_lint::select::from::TableName;
use sql_lint::table::create::TableRef;
use sql_lint::term::Term;
use sql_lint::term::value::Value;
use sql_lint::insert::ValuesClause;
use sql_lint::query::parse_statements;
#[allow(unused_imports)]
use sql_lint::formatter::Format;

#[test]
fn test_parse_queries_statement() {
    let input =
        "SELECT 1 from users; INSERT INTO albums (title, release_year) VALUES ('Aliento', 2017);";
    assert_eq!(
        parse_statements(input),
        Ok((
            "",
            List(vec!(
                Statement(Query::Select(Box::new(SelectStatement {
                    select: SelectClause(
                        None,
                        List(vec!(SelectedExpression::Term(Term::Value(Value::Num(
                            Numeric::Int(1)
                        )))))
                    ),
                    from: Some(FromClause(
                        List(vec!(TableExpression(TableName::Name(Name::Name(
                            "users".to_string()
                        ))))),
                        None
                    )),
                    where_clause: None,
                    group_by: None,
                    order_by: None,
                    limit: None,
                }))),
                Statement(Query::Insert(InsertStatement(
                    InsertIntoClause(
                        TableRef(None, Name::Name(String::from("albums"))),
                        Some(List(vec!(
                            Name::Name(String::from("title")),
                            Name::Name(String::from("release_year"))
                        )))
                    ),
                    ValuesClause(List(vec!(InsertValue::ParenthesisExpression(List(vec!(
                        InsertValue::Expression(Box::new(Expression::Condition(
                            Condition::Operand(Operand::Term(Term::Value(Value::String(
                                "Aliento".to_string()
                            ))))
                        ))),
                        InsertValue::Expression(Box::new(Expression::Condition(
                            Condition::Operand(Operand::Term(Term::Value(Value::Num(
                                Numeric::Int(2017)
                            ))))
                        ))),
                    ))))))
                )))
            ))
        ))
    )
}

#[test]
fn test_format_queries() {
    let (_, t) = parse_statements(
        "SELECT 1 from users; INSERT INTO albums (title, release_year) VALUES ('Aliento', 2017);",
    )
    .unwrap();
    assert_eq!(
        t.output(),
        "SELECT 1\n  FROM users;\n\nINSERT INTO albums (title, release_year)\nVALUES ('Aliento', 2017);"
    )
}
