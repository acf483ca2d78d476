use sql_lint::keyword::Keyword;
use sql_lint::keyword::is_keyword;
#[allow(unused_imports)]
use sql_lint::formatter::Format;

#[test]
fn test_is_keyword() {
    let input = "UNION";
    assert_eq!(is_keyword(input), Ok(("UNION", Keyword::Union)))
}
