use sql_lint::table::constraint::ColumnConstraint;
use sql_lint::table::constraint::ColumnConstraintDefinition;
use sql_lint::table::create::ColumnDef;
use sql_lint::expression::condition::Compare;
use sql_lint::expression::condition::Condition;
use sql_lint::table::constraint::ConstraintNameDefinition;
use sql_lint::table::create::CreateTableStatement;
use sql_lint::data_type::DataType;
use sql_lint::identifier::Delimitedidentifier;
use sql_lint::expression::condition::Expression;
use sql_lint::select::from::FromClause;
use sql_lint::list::List;
use sql_lint::identifier::Name;
use sql_lint::numeric::Numeric;
use sql_lint::expression::condition::Operand;
use sql_lint::data_type::PredefinedType;
use sql_lint::query::Query;
use sql_lint::expression::condition::RightOperand;
use sql_lint::select::clause::SelectClause;
use sql_lint::select::statement::SelectStatement;
use sql_lint::select::clause::SelectedExpression;
use sql_lint::table::create::Subquery;
use sql_lint::table::create::TableContentsSource;
use sql_lint::table::create::TableElement;
use sql_lint::select::from::TableExpression;
use sql_lint::select::from::TableName;
use sql_lint::table::create::TableRef;
use sql_lint::term::Term;
use sql_lint::table::constraint::UniqueSpecification;
use sql_lint::term::value::Value;
use sql_lint::expression::condition::WhereClause;
use sql_lint::table::create::parse_create_table;
#[allow(unused_imports)]
use sql_lint::formatter::Format;

#[test]
fn test_create_table() {
    let input = "CREATE TABLE movies (id integer)";
    assert_eq!(
        parse_create_table(input),
        Ok((
            "",
            CreateTableStatement(
                TableRef(None, Name::Name("movies".to_string())),
                TableContentsSource::TableElementList(List(vec!(TableElement::ColumnDef(
                    ColumnDef(
                        Delimitedidentifier::Name(Name::Name("id".to_string())),
                        DataType(PredefinedType::Integer, None),
                        None,
                        None
                    )
                ))))
            )
        ))
    )
}

#[test]
fn test_create_table_as() {
    let input = "create table saucisse as (select * from food where 1 = 2)";
    assert_eq!(
        parse_create_table(input),
        Ok((
            "",
            CreateTableStatement(
                TableRef(None, Name::Name("saucisse".to_string())),
                TableContentsSource::As(Subquery(Box::new(Query::Select(Box::new(
                    SelectStatement {
                        select: SelectClause(None, List(vec!(SelectedExpression::All))),
                        from: Some(FromClause(
                            List(vec!(TableExpression(TableName::Name(Name::Name(
                                "food".to_string()
                            ))))),
                            None
                        )),
                        where_clause: Some(WhereClause(List(vec!(Expression::Condition(
                            Condition::BinaryExpression(
                                Operand::Term(Term::Value(Value::Num(Numeric::Int(1)))),
                                RightOperand::Compare(
                                    Compare::Equal,
                                    Operand::Term(Term::Value(Value::Num(Numeric::Int(2)))),
                                )
                            )
                        ))))),
                        group_by: None,
                        order_by: None,
                        limit: None
                    }
                )))))
            )
        ))
    )
}

#[test]
fn test_create_table_primary_key() {
    let input = "CREATE TABLE movies (id integer primary key)";
    assert_eq!(
        parse_create_table(input),
        Ok((
            "",
            CreateTableStatement(
                TableRef(None, Name::Name("movies".to_string())),
                TableContentsSource::TableElementList(List(vec!(TableElement::ColumnDef(
                    ColumnDef(
                        Delimitedidentifier::Name(Name::Name("id".to_string())),
                        DataType(PredefinedType::Integer, None),
                        None,
                        Some(ColumnConstraintDefinition(
                            None,
                            ColumnConstraint::Unique(UniqueSpecification::PrimaryKey)
                        ))
                    )
                ))))
            )
        ))
    )
}

#[test]
fn test_create_table_constraint_name() {
    let input = "CREATE TABLE movies (id integer constraint c_unique UNIQUE)";
    assert_eq!(
        parse_create_table(input),
        Ok((
            "",
            CreateTableStatement(
                TableRef(None, Name::Name("movies".to_string())),
                TableContentsSource::TableElementList(List(vec!(TableElement::ColumnDef(
                    ColumnDef(
                        Delimitedidentifier::Name(Name::Name("id".to_string())),
                        DataType(PredefinedType::Integer, None),
                        None,
                        Some(ColumnConstraintDefinition(
                            Some(ConstraintNameDefinition(Name::Name("c_unique".to_string()))),
                            ColumnConstraint::Unique(UniqueSpecification::Unique)
                        ))
                    )
                ))))
            )
        ))
    )
}

#[test]
fn assert_format_create_table() {
    assert_eq!(parse_create_table("CREATE TABLE movies (id integer constraint c UNIQUE, name varchar not null)").unwrap().1.output(), "CREATE TABLE movies (\n        id INTEGER CONSTRAINT c UNIQUE,\n        name VARCHAR NOT NULL\n)");

    assert_eq!(parse_create_table("CREATE TABLE movies (id integer, PRIMARY KEY(id) )").unwrap().1.output(), "CREATE TABLE movies (\n        id INTEGER,\n        PRIMARY KEY(id)\n)");
    assert_eq!(parse_create_table("CREATE TABLE movies (id integer, year integer DEFAULT 2022)").unwrap().1.output(), "CREATE TABLE movies (\n        id INTEGER,\n        year INTEGER DEFAULT 2022\n)")
}
