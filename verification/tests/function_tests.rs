use sql_lint::function::AggregateFunction;
use sql_lint::term::column::ColumnRef;
use sql_lint::function::Function;
use sql_lint::list::List;
use sql_lint::identifier::Name;
use sql_lint::term::Term;
use sql_lint::function::parse_aggregate_function;
use sql_lint::function::parse_function;
#[allow(unused_imports)]
use sql_lint::formatter::Format;

#[test]
fn test_parse_function() {
    let input = "AVG(mark)";
    assert_eq!(
        parse_function(input),
        Ok((
            "",
            Function(
                "AVG".to_string(),
                List(vec!(Term::ColumnRef(ColumnRef::Name(Name::Name(
                    "mark".to_string()
                ))))),
            )
        ))
    )
}

#[test]
fn test_parse_aggregate_function() {
    let input = "COUNT(*)";
    assert_eq!(
        parse_aggregate_function(input),
        Ok(("", AggregateFunction::CountAll))
    )
}

#[test]
fn test_format_function() {
    assert_eq!(parse_function("DO(1, '',true)").unwrap().1.output(), "DO(1, '', true)");
    assert_eq!(parse_aggregate_function("COUNT(*)").unwrap().1.output(), "COUNT(*)")
}
