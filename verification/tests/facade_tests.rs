#[allow(unused_imports)]
use sql_lint::formatter::Format;

#[test]
fn tests_test_format() {
    assert_eq!(sql_lint::format("select 1;"), Ok("SELECT 1;".to_string()));
    let cannot_parse = "CREATE EXTENSION IF NOT EXISTS pgcrypto WITH SCHEMA public;";
    assert!(sql_lint::format(cannot_parse).is_err())
}
