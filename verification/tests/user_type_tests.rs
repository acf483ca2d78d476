use sql_lint::list::List;
use sql_lint::user_type::Member;
use sql_lint::identifier::Name;
use sql_lint::data_type::PredefinedType;
use sql_lint::identifier::SchemaQualifiedName;
use sql_lint::user_type::UserDefinedTypeDefinition;
use sql_lint::user_type::parse_user_defined_type_definition;
#[allow(unused_imports)]
use sql_lint::formatter::Format;

#[test]
fn test_parse_user_defined_type_definition() {
    let input = "CREATE TYPE status AS ENUM ('beta','deprecated','stable')";
    assert_eq!(
        parse_user_defined_type_definition(input),
        Ok((
            "",
            UserDefinedTypeDefinition(
                SchemaQualifiedName(None, Name::Name("status".to_string())),
                Some(PredefinedType::Enum),
                List(vec!(
                    Member("'beta'".to_string()),
                    Member("'deprecated'".to_string()),
                    Member("'stable'".to_string())
                )),
            )
        ))
    )
}

#[test]
fn test_format_user_defined_type_definition_as() {
    let input = "CREATE TYPE status AS ENUM ('beta','deprecated','stable')";
    let (_, t) = parse_user_defined_type_definition(input).unwrap();
    assert_eq!(
        t.output(),
        "CREATE TYPE 'status' AS ENUM (\n    'beta',\n    'deprecated',\n    'stable'\n)"
    )
}
