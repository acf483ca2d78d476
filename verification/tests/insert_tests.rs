use sql_lint::expression::condition::Condition;
use sql_lint::expression::condition::Expression;
use sql_lint::insert::InsertIntoClause;
use sql_lint::insert::InsertStatement;
use sql_lint::insert::InsertValue;
use sql_lint::list::List;
use sql_lint::identifier::Name;
use sql_lint::numeric::Numeric;
use sql_lint::expression::condition::Operand;
use sql_lint::table::create::TableRef;
use sql_lint::term::Term;
use sql_lint::term::value::Value;
use sql_lint::insert::ValuesClause;
use sql_lint::insert::parse_insert_into_statement;
#[allow(unused_imports)]
use sql_lint::formatter::Format;

#[test]
fn test_insert() {
    let input = "INSERT INTO movies (id, title) VALUES(1, 'Coup de torchon')";
    assert_eq!(
        parse_insert_into_statement(input),
        Ok((
            "",
            InsertStatement(
                InsertIntoClause(
                    TableRef(None, Name::Name(String::from("movies"))),
                    Some(List(vec!(
                        Name::Name(String::from("id")),
                        Name::Name(String::from("title"))
                    )))
                ),
                ValuesClause(List(vec!(InsertValue::ParenthesisExpression(List(vec!(
                    InsertValue::Expression(Box::new(Expression::Condition(Condition::Operand(
                        Operand::Term(Term::Value(Value::Num(Numeric::Int(1))))
                    )))),
                    InsertValue::Expression(Box::new(Expression::Condition(Condition::Operand(
                        Operand::Term(Term::Value(Value::String("Coup de torchon".to_string())))
                    ))))
                ))))))
            )
        ))
    )
}

#[test]
fn test_insert_into_without_columns() {
    let input = "INSERT INTO movies VALUES(1, 'Fils de plouc')";
    assert_eq!(
        parse_insert_into_statement(input),
        Ok((
            "",
            InsertStatement(
                InsertIntoClause(TableRef(None, Name::Name(String::from("movies"))), None),
                ValuesClause(List(vec!(InsertValue::ParenthesisExpression(List(vec!(
                    InsertValue::Expression(Box::new(Expression::Condition(Condition::Operand(
                        Operand::Term(Term::Value(Value::Num(Numeric::Int(1))))
                    )))),
                    InsertValue::Expression(Box::new(Expression::Condition(Condition::Operand(
                        Operand::Term(Term::Value(Value::String("Fils de plouc".to_string())))
                    ))))
                ))))))
            )
        ))
    )
}

#[test]
fn test_insert_into_with_schema() {
    let input =
        "INSERT INTO emule.movies VALUES(1, 'The french dispatch'), (2, 'Bo Nunham inside')";
    assert_eq!(
        parse_insert_into_statement(input),
        Ok((
            "",
            InsertStatement(
                InsertIntoClause(
                    TableRef(
                        Some(Name::Name("emule".to_string())),
                        Name::Name(String::from("movies"))
                    ),
                    None
                ),
                ValuesClause(List(vec!(
                    InsertValue::ParenthesisExpression(List(vec!(
                        InsertValue::Expression(Box::new(Expression::Condition(
                            Condition::Operand(Operand::Term(Term::Value(Value::Num(
                                Numeric::Int(1)
                            ))))
                        ))),
                        InsertValue::Expression(Box::new(Expression::Condition(
                            Condition::Operand(Operand::Term(Term::Value(Value::String(
                                "The french dispatch".to_string()
                            ))))
                        )))
                    ))),
                    InsertValue::ParenthesisExpression(List(vec!(
                        InsertValue::Expression(Box::new(Expression::Condition(
                            Condition::Operand(Operand::Term(Term::Value(Value::Num(
                                Numeric::Int(2)
                            ))))
                        ))),
                        InsertValue::Expression(Box::new(Expression::Condition(
                            Condition::Operand(Operand::Term(Term::Value(Value::String(
                                "Bo Nunham inside".to_string()
                            ))))
                        )))
                    )))
                )))
            )
        ))
    )
}

#[test]
fn test_format_insert_statement() {
    let (_, t) = parse_insert_into_statement(
        "INSERT INTO emule.movies VALUES(1, 'The french dispatch'), (2, 'Bo Nunham inside')",
    )
    .unwrap();
    assert_eq!(
        t.output(),
        "INSERT INTO emule.movies\nVALUES (1, 'The french dispatch')\n       (2, 'Bo Nunham inside')"
    )
}

#[test]
fn test_format_insert_statement_with_columns() {
    let (_, t) = parse_insert_into_statement(
        "INSERT INTO twitch.leaks(name, password) VALUES('dd', 'azerty'), ('gg', '1984')",
    )
    .unwrap();
    assert_eq!(
        t.output(),
        "INSERT INTO twitch.leaks (name, password)\nVALUES ('dd', 'azerty')\n       ('gg', '1984')"
    )
}
