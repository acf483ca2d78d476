use sql_lint::list::List;
#[allow(unused_imports)]
use sql_lint::formatter::Format;

#[test]
fn test_format_list() {
    assert_eq!(
        List(vec!("hello".to_string(), "world".to_string())).output(),
        "hello, world"
    )
}

#[test]
fn test_list_string() {
    assert_eq!(List(vec!("hello", "world")).to_string(), "hello, world")
}

