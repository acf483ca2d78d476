use sql_lint::identifier::Name;
use sql_lint::numeric::Numeric;
use sql_lint::set::SetStatement;
use sql_lint::term::value::Value;
use sql_lint::set::parse_set_statement;
#[allow(unused_imports)]
use sql_lint::formatter::Format;

#[test]
fn test_parse_set_statement() {
    let input = "SET idle_in_transaction_session_timeout = 0";
    assert_eq!(
        parse_set_statement(input),
        Ok((
            "",
            SetStatement(
                Name::Name("idle_in_transaction_session_timeout".to_string()),
                Value::Num(Numeric::Int(0))
            )
        ))
    )
}

#[test]
fn test_format_set_statement() {
    let (_, t) = parse_set_statement("SET    idle_in_transaction_session_timeout = 0").unwrap();
    assert_eq!(t.output(), "SET idle_in_transaction_session_timeout = 0")
}
