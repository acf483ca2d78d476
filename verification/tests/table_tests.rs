use sql_lint::table::parse_table;
#[allow(unused_imports)]
use sql_lint::formatter::Format;

#[test]
fn test_parse_table() {
    assert!((parse_table("ALTER TABLE movies ADD COLUMN producer VARCHAR(255)").is_ok()));
    assert!((parse_table("CREATE TABLE downloads ( PRIMARY KEY (id) )").is_ok()))
}

#[test]
fn test_format_table() {
    assert!(!parse_table(
        "ALTER TABLE movies ADD COLUMN producer VARCHAR(255)"
    ).unwrap().1.output().is_empty());
    assert!(!(parse_table("CREATE TABLE downloads (PRIMARY KEY (id))")).unwrap().1.output().is_empty())
}
