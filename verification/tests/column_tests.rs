use sql_lint::term::column::ColumnRef;
use sql_lint::identifier::Name;
use sql_lint::term::column::parse_column_ref;
use sql_lint::term::column::parse_name;
#[allow(unused_imports)]
use sql_lint::formatter::Format;

#[test]
fn column_tests_test_parse_name() {
    let input = "hello";
    assert_eq!(parse_name(input), Ok(("", Name::Name("hello".to_string()))))
}

#[test]
fn column_tests_test_parse_quoted_name() {
    let input = "\"hello\"";
    assert_eq!(
        parse_name(input),
        Ok(("", Name::QuotedName("hello".to_string())))
    )
}

#[test]
fn test_column_ref() {
    let input = "user_name";
    assert_eq!(
        parse_column_ref(input),
        Ok(("", ColumnRef::Name(Name::Name("user_name".to_string()))))
    )
}

#[test]
fn test_column_ref_with_family() {
    let input = "users.user_name";
    assert_eq!(
        parse_column_ref(input),
        Ok((
            "",
            ColumnRef::WithFamily(
                Name::Name("users".to_string()),
                Name::Name("user_name".to_string())
            )
        ))
    )
}
