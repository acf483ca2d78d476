use sql_lint::table::alter::AlterTable;
use sql_lint::table::alter::AlterTableAction;
use sql_lint::table::create::ColumnDef;
use sql_lint::data_type::DataType;
use sql_lint::identifier::Delimitedidentifier;
use sql_lint::list::List;
use sql_lint::identifier::Name;
use sql_lint::numeric::Numeric;
use sql_lint::data_type::PredefinedType;
use sql_lint::table::create::TableRef;
use sql_lint::term::value::Value;
use sql_lint::table::alter::parse_alter_table;
#[allow(unused_imports)]
use sql_lint::formatter::Format;

#[test]
fn test_parse_alter_table_statement() {
    let input = "ALTER TABLE movies ADD COLUMN producer VARCHAR(255)";
    assert_eq!(
        parse_alter_table(input),
        Ok((
            "",
            AlterTable(
                TableRef(None, Name::Name("movies".to_string())),
                vec!(AlterTableAction::AddColumnDefinition(ColumnDef(
                    Delimitedidentifier::Name(Name::Name("producer".to_string())),
                    DataType(
                        PredefinedType::Varchar,
                        Some(List(vec!(Value::Num(Numeric::Int(255)))))
                    ),
                    None,
                    None
                )))
            )
        ))
    )
}

#[test]
fn test_format_alter_table_statement() {
    assert_eq!(parse_alter_table("ALTER TABLE movies ADD COLUMN producer VARCHAR(255)").unwrap().1.output(), "ALTER TABLE movies\n        ADD COLUMN producer VARCHAR(255)");
    assert_eq!(parse_alter_table("ALTER TABLE movies DROP COLUMN producer").unwrap().1.output(), "ALTER TABLE movies\n        DROP COLUMN producer");
    assert_eq!(parse_alter_table("ALTER TABLE movies DROP COLUMN producer CASCAde").unwrap().1.output(), "ALTER TABLE movies\n        DROP COLUMN producer CASCADE");
    assert_eq!(parse_alter_table("ALTER TABLE software ADD CONSTRAINT fk_rails_b554d2cae5 FOREIGN KEY (version_id) REFERENCES public.versions(id)").unwrap().1.output(), "ALTER TABLE software\n        ADD CONSTRAINT fk_rails_b554d2cae5 FOREIGN KEY (version_id) REFERENCES public.versions(id)");
    assert_eq!(parse_alter_table("ALTER TABLE public.users ALTER COLUMN age SET DEFAULT 18").unwrap().1.output(), "ALTER TABLE public.users\n        ALTER COLUMN age SET DEFAULT 18")
}
