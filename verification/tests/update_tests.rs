use sql_lint::term::column::ColumnRef;
use sql_lint::expression::condition::Compare;
use sql_lint::expression::condition::Condition;
use sql_lint::expression::condition::Expression;
use sql_lint::list::List;
use sql_lint::identifier::Name;
use sql_lint::numeric::Numeric;
use sql_lint::expression::condition::Operand;
use sql_lint::expression::condition::RightOperand;
use sql_lint::update::SetClause;
use sql_lint::update::SetExpression;
use sql_lint::table::create::TableRef;
use sql_lint::term::Term;
use sql_lint::update::UpdateClause;
use sql_lint::update::UpdateStatement;
use sql_lint::term::value::Value;
use sql_lint::expression::condition::WhereClause;
use sql_lint::update::parse_update_statement;
#[allow(unused_imports)]
use sql_lint::formatter::Format;

#[test]
fn test_update() {
    let input = "UPDATE movies SET description = ''";
    assert_eq!(
        parse_update_statement(input),
        Ok((
            "",
            UpdateStatement(
                UpdateClause(TableRef(None, Name::Name(String::from("movies")))),
                SetClause(List(vec!(SetExpression(
                    Name::Name("description".to_string()),
                    Expression::Condition(Condition::Operand(Operand::Term(Term::Value(
                        Value::String("".to_string())
                    ))))
                )))),
                None
            )
        ))
    )
}

#[test]
fn test_update_variant() {
    let input = "UPDATE movies SET title = 'Kaamelott', description = 'il revient pas pour trier les lentilles' WHERE id = 3";
    assert_eq!(
        parse_update_statement(input),
        Ok((
            "",
            UpdateStatement(
                UpdateClause(TableRef(None, Name::Name(String::from("movies")))),
                SetClause(List(vec!(
                    SetExpression(
                        Name::Name("title".to_string()),
                        Expression::Condition(Condition::Operand(Operand::Term(Term::Value(
                            Value::String("Kaamelott".to_string())
                        ))))
                    ),
                    SetExpression(
                        Name::Name("description".to_string()),
                        Expression::Condition(Condition::Operand(Operand::Term(Term::Value(
                            Value::String("il revient pas pour trier les lentilles".to_string())
                        ))))
                    )
                ))),
                Some(WhereClause(List(vec!(Expression::Condition(
                    Condition::BinaryExpression(
                        Operand::Term(Term::ColumnRef(ColumnRef::Name(Name::Name(
                            "id".to_string()
                        )))),
                        RightOperand::Compare(
                            Compare::Equal,
                            Operand::Term(Term::Value(Value::Num(Numeric::Int(3))))
                        )
                    )
                )))))
            )
        ))
    )
}

#[test]
fn test_update_when() {
    let input = "UPDATE movies SET title = 'Coup de tête' WHERE id = 1";
    assert_eq!(
        parse_update_statement(input),
        Ok((
            "",
            UpdateStatement(
                UpdateClause(TableRef(None, Name::Name(String::from("movies")))),
                SetClause(List(vec!(SetExpression(
                    Name::Name("title".to_string()),
                    Expression::Condition(Condition::Operand(Operand::Term(Term::Value(
                        Value::String("Coup de tête".to_string())
                    ))))
                )))),
                Some(WhereClause(List(vec!(Expression::Condition(
                    Condition::BinaryExpression(
                        Operand::Term(Term::ColumnRef(ColumnRef::Name(Name::Name(
                            "id".to_string()
                        )))),
                        RightOperand::Compare(
                            Compare::Equal,
                            Operand::Term(Term::Value(Value::Num(Numeric::Int(1))))
                        )
                    )
                )))))
            )
        ))
    )
}

#[test]
fn test_format_update_statement() {
    let input = "UPDATE movies SET description = ''";
    let (_, t) = parse_update_statement(input).unwrap();
    assert_eq!(t.output(), "UPDATE movies\n   SET description = ''")
}

#[test]
fn test_format_update_statement_where() {
    let input = "UPDATE movies SET description = '', title = 'Matrix'   WHERE id = 5";
    let (_, t) = parse_update_statement(input).unwrap();
    assert_eq!(
        t.output(),
        "UPDATE movies\n   SET description = '',\n       title = 'Matrix'\n WHERE id = 5"
    )
}
