use sql_lint::select::from::FromClause;
use sql_lint::list::List;
use sql_lint::identifier::Name;
use sql_lint::select::from::TableExpression;
use sql_lint::select::from::TableName;
use sql_lint::select::from::parse_from_clause;
#[allow(unused_imports)]
use sql_lint::formatter::Format;

#[test]
fn parse_from() {
    let input = "FROM users";
    assert_eq!(
        parse_from_clause(input),
        Ok((
            "",
            FromClause(
                List(vec!(TableExpression(TableName::Name(Name::Name(
                    "users".to_string()
                ))))),
                None
            )
        ))
    )
}

#[test]
fn parse_from_without_as() {
    let input = " FROM Employee e1";
    assert_eq!(
        parse_from_clause(input),
        Ok((
            "",
            FromClause(
                List(vec!(TableExpression(TableName::AliasedName(
                    Name::Name("Employee".to_string()),
                    Name::Name("e1".to_string())
                )))),
                None
            )
        ))
    )
}

#[test]
fn parse_from_quoted_name() {
    let input = "FROM \"users\"";
    assert_eq!(
        parse_from_clause(input),
        Ok((
            "",
            FromClause(
                List(vec!(TableExpression(TableName::Name(Name::QuotedName(
                    "users".to_string()
                ))))),
                None
            )
        ))
    )
}

#[test]
fn parse_from_single_quoted_name() {
    let input = "FROM 'users'";
    assert_eq!(
        parse_from_clause(input),
        Ok((
            "",
            FromClause(
                List(vec!(TableExpression(TableName::Name(Name::QuotedName(
                    "users".to_string()
                ))))),
                None
            )
        ))
    )
}

#[test]
fn parse_from_as() {
    let input = "FROM users as u";
    assert_eq!(
        parse_from_clause(input),
        Ok((
            "",
            FromClause(
                List(vec!(TableExpression(TableName::AliasedName(
                    Name::Name("users".to_string()),
                    Name::Name("u".to_string()),
                )))),
                None
            )
        ))
    )
}

#[test]
fn test_format_from_join() {
    assert_eq!(parse_from_clause("FROM users  u").unwrap().1.output(), "FROM users AS u")
}
