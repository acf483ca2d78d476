use sql_lint::table::drop_table::DropTable;
use sql_lint::identifier::Name;
use sql_lint::table::create::TableRef;
use sql_lint::table::drop_table::parse_drop_table;
#[allow(unused_imports)]
use sql_lint::formatter::Format;

#[test]
fn test_drop_table() {
    let input = "DROP TABLE users";
    assert_eq!(
        parse_drop_table(input),
        Ok((
            "",
            DropTable(TableRef(None, Name::Name("users".to_string())), None)
        ))
    )
}

#[test]
fn test_format_drop_table() {
    assert_eq!(parse_drop_table("drop TABLE users cascade").unwrap().1.output(), "DROP TABLE users CASCADE");
    assert_eq!(parse_drop_table("drop TABLE users restrict").unwrap().1.output(), "DROP TABLE users RESTRICT");
    assert_eq!(parse_drop_table("drop TABLE users").unwrap().1.output(), "DROP TABLE users");
}
