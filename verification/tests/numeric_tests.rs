use sql_lint::numeric::Numeric;
use sql_lint::numeric::parse_numeric;
#[allow(unused_imports)]
use sql_lint::formatter::Format;

#[test]
fn test_numeric_int() {
    let input = "5";
    assert_eq!(parse_numeric(input), Ok(("", Numeric::Int(5))))
}

#[test]
fn test_numeric_int_negative() {
    let input = "-5";
    assert_eq!(parse_numeric(input), Ok(("", Numeric::Int(-5))))
}

#[test]
fn test_numeric_long() {
    // the integer in front of the point is read first, and it wins
    let input = "5.5";
    assert_eq!(parse_numeric(input), Ok((".5", Numeric::Int(5))))
}

#[test]
fn test_numeric_decimal() {
    let input = "5.555";
    assert_eq!(parse_numeric(input), Ok((".555", Numeric::Int(5))))
}
