use sql_lint::term::case::Case;
use sql_lint::term::column::ColumnRef;
use sql_lint::expression::condition::Condition;
use sql_lint::term::case::Else;
use sql_lint::expression::condition::Expression;
use sql_lint::identifier::Name;
use sql_lint::numeric::Numeric;
use sql_lint::expression::condition::Operand;
use sql_lint::expression::condition::RightOperand;
use sql_lint::term::case::SearchedCase;
use sql_lint::term::Term;
use sql_lint::term::value::Value;
use sql_lint::term::case::When;
use sql_lint::term::case::parse_case;
use sql_lint::term::case::parse_searched_case;
#[allow(unused_imports)]
use sql_lint::formatter::Format;

#[test]
fn test_case() {
    let input = "CASE word WHEN 'hello' THEN 'bonjour' WHEN 'world' THEN 'monde' END";
    assert_eq!(
        parse_case(input),
        Ok((
            "",
            Case(
                Box::new(Term::ColumnRef(ColumnRef::Name(Name::Name(
                    "word".to_string()
                )))),
                vec!(
                    When(
                        Expression::Condition(Condition::Operand(Operand::Term(Term::Value(
                            Value::String("hello".to_string())
                        )))),
                        Term::Value(Value::String("bonjour".to_string()))
                    ),
                    When(
                        Expression::Condition(Condition::Operand(Operand::Term(Term::Value(
                            Value::String("world".to_string())
                        )))),
                        Term::Value(Value::String("monde".to_string()))
                    )
                ),
                None
            )
        ))
    )
}

#[test]
fn test_case_else() {
    let input = "CASE word WHEN 'hello' THEN 'bonjour' ELSE 'bon día' END";
    assert_eq!(
        parse_case(input),
        Ok((
            "",
            Case(
                Box::new(Term::ColumnRef(ColumnRef::Name(Name::Name(
                    "word".to_string()
                )))),
                vec!(When(
                    Expression::Condition(Condition::Operand(Operand::Term(Term::Value(
                        Value::String("hello".to_string())
                    )))),
                    Term::Value(Value::String("bonjour".to_string()))
                )),
                Some(Box::new(Else(Term::Value(Value::String(
                    "bon día".to_string()
                )))))
            )
        ))
    )
}

#[test]
fn test_searched_case() {
    let input = "cASE WHEN covid IS NOT NULL THEN 1 ELSE 0 END";
    assert_eq!(
        parse_searched_case(input),
        Ok((
            "",
            SearchedCase(
                Box::new(When(
                    Expression::Condition(Condition::BinaryExpression(
                        Operand::Term(Term::ColumnRef(ColumnRef::Name(Name::Name(
                            "covid".to_string()
                        )))),
                        RightOperand::Null(false)
                    )),
                    Term::Value(Value::Num(Numeric::Int(1)))
                )),
                Some(Box::new(Else(Term::Value(Value::Num(Numeric::Int(0))))))
            )
        ))
    )
}
