use sql_lint::numeric::Numeric;
use sql_lint::term::value::Value;
use sql_lint::term::value::parse_value;
#[allow(unused_imports)]
use sql_lint::formatter::Format;

#[test]
fn test_value_null() {
    let input = "NULL";
    assert_eq!(parse_value(input), Ok(("", Value::Null)))
}

#[test]
fn test_value_bool_true() {
    let input = "true";
    assert_eq!(parse_value(input), Ok(("", Value::Bool(true))))
}

#[test]
fn test_value_bool_false() {
    let input = "False";
    assert_eq!(parse_value(input), Ok(("", Value::Bool(false))))
}

#[test]
fn test_value_bool_string() {
    let input = "'Swiss army man'";
    assert_eq!(
        parse_value(input),
        Ok(("", Value::String("Swiss army man".to_string())))
    )
}
//#[test]
//fn test_value_numeric() {
//    let input = "3.14";
//    assert_eq!(
//        parse_value(input),
//        Ok(("", Value::Num(Numeric::Float("3.14".to_string()))))
//    )
//}
