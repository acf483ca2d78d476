use sql_lint::term::column::ColumnRef;
use sql_lint::list::List;
use sql_lint::identifier::Name;
use sql_lint::select::order::NullsSort;
use sql_lint::select::order::Order;
use sql_lint::select::order::OrderByClause;
use sql_lint::select::order::OrderSort;
use sql_lint::select::order::SortKey;
use sql_lint::select::order::parse_order_by_clause;
#[allow(unused_imports)]
use sql_lint::formatter::Format;

#[test]
fn test_order_by() {
    let input = "ORDER BY username";
    assert_eq!(
        parse_order_by_clause(input),
        Ok((
            "",
            OrderByClause(List(vec!(Order(
                SortKey::ColumnRef(ColumnRef::Name(Name::Name("username".to_string()))),
                None,
                None
            ))))
        ))
    )
}

#[test]
fn test_order_by_desc() {
    let input = "ORDER BY username DESC";
    assert_eq!(
        parse_order_by_clause(input),
        Ok((
            "",
            OrderByClause(List(vec!(Order(
                SortKey::ColumnRef(ColumnRef::Name(Name::Name("username".to_string()))),
                Some(OrderSort::Desc),
                None
            ))))
        ))
    )
}

#[test]
fn test_order_by_nulls_first() {
    let input = "ORDER BY username NULLS FIRST";
    assert_eq!(
        parse_order_by_clause(input),
        Ok((
            "",
            OrderByClause(List(vec!(Order(
                SortKey::ColumnRef(ColumnRef::Name(Name::Name("username".to_string()))),
                None,
                Some(NullsSort::First)
            ))))
        ))
    )
}

#[test]
fn test_order_by_nulls_last() {
    let input = "ORDER BY username NULLS LAST";
    assert_eq!(
        parse_order_by_clause(input),
        Ok((
            "",
            OrderByClause(List(vec!(Order(
                SortKey::ColumnRef(ColumnRef::Name(Name::Name("username".to_string()))),
                None,
                Some(NullsSort::Last)
            ))))
        ))
    )
}

#[test]
fn test_order_by_desc_nulls_last() {
    let input = "ORDER BY username DESC NULLS LAST";
    assert_eq!(
        parse_order_by_clause(input),
        Ok((
            "",
            OrderByClause(List(vec!(Order(
                SortKey::ColumnRef(ColumnRef::Name(Name::Name("username".to_string()))),
                Some(OrderSort::Desc),
                Some(NullsSort::Last)
            ))))
        ))
    )
}

#[test]
fn test_format_order_by() {
    assert_eq!(
        parse_order_by_clause("ORDEr by username desc")
            .unwrap()
            .1
            .output(),
        "ORDER BY username DESC"
    );
    assert_eq!(
        parse_order_by_clause("ORDER BY email asc").unwrap().1.output(),
        "ORDER BY email ASC"
    );
    assert_eq!(
        parse_order_by_clause("ORDER BY age").unwrap().1.output(),
        "ORDER BY age"
    );
    assert_eq!(
        parse_order_by_clause("ORDER BY age  ,  year")
            .unwrap()
            .1
            .output(),
        "ORDER BY age, year"
    )
}
