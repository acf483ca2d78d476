use sql_lint::select::table_operator::CombinedTables;
use sql_lint::list::List;
use sql_lint::numeric::Numeric;
use sql_lint::select::table_operator::QueryTerm;
use sql_lint::select::clause::SelectClause;
use sql_lint::select::statement::SelectStatement;
use sql_lint::select::clause::SelectedExpression;
use sql_lint::select::table_operator::TableOperator;
use sql_lint::term::Term;
use sql_lint::term::value::Value;
use sql_lint::select::table_operator::combined_tables;
#[allow(unused_imports)]
use sql_lint::formatter::Format;

#[test]
fn test_union() {
    let input = "SELECT 1 UNION SELECT 2";
    assert_eq!(
        combined_tables(input),
        Ok((
            "",
            CombinedTables(
                QueryTerm::Select(Box::new(SelectStatement {
                    select: SelectClause(None, List(vec!(SelectedExpression::Term(Term::Value(
                        Value::Num(Numeric::Int(1))
                    ))))),
                    from: None,
                    where_clause: None,
                    group_by: None,
                    order_by: None,
                    limit: None
                })),
                TableOperator::Union(false),
                QueryTerm::Select(Box::new(SelectStatement {
                    select: SelectClause(None, List(vec!(SelectedExpression::Term(Term::Value(
                        Value::Num(Numeric::Int(2))
                    ))))),
                    from: None,
                    where_clause: None,
                    group_by: None,
                    order_by: None,
                    limit: None
                }))
            )
        ))
    )
}

#[test]
fn test_union_all() {
    let input = "SELECT 1 UNION ALL SELECT 2";
    assert_eq!(
        combined_tables(input),
        Ok((
            "",
            CombinedTables(
                QueryTerm::Select(Box::new(SelectStatement {
                    select: SelectClause(None, List(vec!(SelectedExpression::Term(Term::Value(
                        Value::Num(Numeric::Int(1))
                    ))))),
                    from: None,
                    where_clause: None,
                    group_by: None,
                    order_by: None,
                    limit: None
                })),
                TableOperator::Union(true),
                QueryTerm::Select(Box::new(SelectStatement {
                    select: SelectClause(None, List(vec!(SelectedExpression::Term(Term::Value(
                        Value::Num(Numeric::Int(2))
                    ))))),
                    from: None,
                    where_clause: None,
                    group_by: None,
                    order_by: None,
                    limit: None
                }))
            )
        ))
    )
}

#[test]
fn test_intersect() {
    let input = "SELECT 1 INTERSECT SELECT 2";
    assert_eq!(
        combined_tables(input),
        Ok((
            "",
            CombinedTables(
                QueryTerm::Select(Box::new(SelectStatement {
                    select: SelectClause(None, List(vec!(SelectedExpression::Term(Term::Value(
                        Value::Num(Numeric::Int(1))
                    ))))),
                    from: None,
                    where_clause: None,
                    group_by: None,
                    order_by: None,
                    limit: None
                })),
                TableOperator::Intersect,
                QueryTerm::Select(Box::new(SelectStatement {
                    select: SelectClause(None, List(vec!(SelectedExpression::Term(Term::Value(
                        Value::Num(Numeric::Int(2))
                    ))))),
                    from: None,
                    where_clause: None,
                    group_by: None,
                    order_by: None,
                    limit: None
                }))
            )
        ))
    )
}

#[test]
fn test_minus() {
    let input = "SELECT 1 MINUS SELECT 2";
    assert_eq!(
        combined_tables(input),
        Ok((
            "",
            CombinedTables(
                QueryTerm::Select(Box::new(SelectStatement {
                    select: SelectClause(None, List(vec!(SelectedExpression::Term(Term::Value(
                        Value::Num(Numeric::Int(1))
                    ))))),
                    from: None,
                    where_clause: None,
                    group_by: None,
                    order_by: None,
                    limit: None
                })),
                TableOperator::Minus,
                QueryTerm::Select(Box::new(SelectStatement {
                    select: SelectClause(None, List(vec!(SelectedExpression::Term(Term::Value(
                        Value::Num(Numeric::Int(2))
                    ))))),
                    from: None,
                    where_clause: None,
                    group_by: None,
                    order_by: None,
                    limit: None
                }))
            )
        ))
    )
}

#[test]
fn test_except() {
    let input = "SELECT 1 EXCEPT SELECT 2";
    assert_eq!(
        combined_tables(input),
        Ok((
            "",
            CombinedTables(
                QueryTerm::Select(Box::new(SelectStatement {
                    select: SelectClause(None, List(vec!(SelectedExpression::Term(Term::Value(
                        Value::Num(Numeric::Int(1))
                    ))))),
                    from: None,
                    where_clause: None,
                    group_by: None,
                    order_by: None,
                    limit: None
                })),
                TableOperator::Except,
                QueryTerm::Select(Box::new(SelectStatement {
                    select: SelectClause(None, List(vec!(SelectedExpression::Term(Term::Value(
                        Value::Num(Numeric::Int(2))
                    ))))),
                    from: None,
                    where_clause: None,
                    group_by: None,
                    order_by: None,
                    limit: None
                }))
            )
        ))
    )
}

#[test]
fn test_format_combined_tables() {
    assert_eq!(
        combined_tables("SELECT 1 EXCEPT SELECT 2")
            .unwrap()
            .1
            .output(),
        "SELECT 1\n\nEXCEPT\n\nSELECT 2"
    );
    assert_eq!(
        combined_tables("SELECT 1 Union SELECT 2")
            .unwrap()
            .1
            .output(),
        "SELECT 1\n\n UNION\n\nSELECT 2"
    );
    assert_eq!(
        combined_tables("SELECT 1 Union all SELECT 2")
            .unwrap()
            .1
            .output(),
        "SELECT 1\n\n UNION ALL\n\nSELECT 2"
    );
    assert_eq!(
        combined_tables("(SELECT 1) minus (SELECT 2)")
            .unwrap()
            .1
            .output(),
        "(SELECT 1)\n\nMINUS\n\n(SELECT 2)"
    );
    assert_eq!(
        combined_tables("SELECT 1 intersect SELECT 2")
            .unwrap()
            .1
            .output(),
        "SELECT 1\n\nINTERSECT\n\nSELECT 2"
    );
}
