use sql_lint::term::bind_parameter::BindParameter;
use sql_lint::term::bind_parameter::parse_bind_parameter;
#[allow(unused_imports)]
use sql_lint::formatter::Format;

#[test]
fn test_parse_placeholder() {
    assert_eq!(
        parse_bind_parameter("?"),
        Ok(("", BindParameter::Placeholder))
    );
}

#[test]
fn test_parse_bind_parameter_with_index() {
    assert_eq!(
        parse_bind_parameter(":1"),
        Ok(("", BindParameter::Index(1)))
    );
}

#[test]
fn test_format_bind_parameter() {
    assert_eq!(BindParameter::Index(1).output(), ":1");
    assert_eq!(BindParameter::Placeholder.output(), "?");
}
