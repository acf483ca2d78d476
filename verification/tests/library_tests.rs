use sql_lint::clause::Clause;
use sql_lint::data_type::{parse_data_type, parse_predefined_type, PredefinedType};
use sql_lint::expression::condition::condition;
use sql_lint::formatter::{Format, Formatter};
use sql_lint::insert::parse_insert_into_statement;
use sql_lint::keyword::{is_keyword, parse_keyword, Keyword};
use sql_lint::numeric::{parse_numeric, Numeric};
use sql_lint::select::clause::SelectClause;
use sql_lint::select::from::{parse_from_clause, FromClause, TableExpression, TableName};
use sql_lint::select::limit::{parse_limit_clause, LimitClause};
use sql_lint::sequence::{parse_alter_sequence, parse_drop_sequence};
use sql_lint::identifier::Name;
use sql_lint::list::List;
use sql_lint::term::value::{parse_value, Value};
use sql_lint::text::ParseError;
use sql_lint::Error;

fn formatted(source: &str) -> String {
    sql_lint::format(source).unwrap()
}

#[test]
fn text_behind_the_last_statement_is_reported() {
    assert_eq!(
        sql_lint::format("SELECT 1; garbage"),
        Err(Error::ParsingIncompleteError("garbage".to_string()))
    );
}

#[test]
fn two_statements_are_separated_by_a_blank_line() {
    assert_eq!(
        sql_lint::format(
            "SELECT 1 from users; INSERT INTO albums (title, release_year) VALUES ('Aliento', 2017);"
        ),
        Ok("SELECT 1\n  FROM users;\n\nINSERT INTO albums (title, release_year)\nVALUES ('Aliento', 2017);"
            .to_string())
    );
}

#[test]
fn a_data_type_with_an_argument_is_written_as_it_was() {
    assert_eq!(parse_data_type("VARCHAR(100)").unwrap().1.output(), "VARCHAR(100)");
}

#[test]
fn an_in_list_keeps_its_values_in_order() {
    assert_eq!(
        condition("word IN ('hello', 'world')").unwrap().1.output(),
        "word IN ('hello', 'world')"
    );
}

#[test]
fn values_without_a_value_are_refused() {
    assert_eq!(
        parse_insert_into_statement("INSERT INTO t VALUES ()").map(|_| ()),
        Err(ParseError::Error)
    );
    assert_eq!(
        sql_lint::format("INSERT INTO t VALUES ();"),
        Err(Error::ParsingError("Parsing Error".to_string()))
    );
}

#[test]
fn a_where_chain_is_aligned_under_the_select_keyword() {
    assert_eq!(
        formatted("SELECT a, b from t where a = 1 and b = 2 group by a limit 5;"),
        "SELECT a, b\n  FROM t\n WHERE a = 1\n   AND b = 2\n GROUP BY a\nLIMIT 5;"
    );
    assert_eq!(
        formatted("select a from t order by a desc, b;"),
        "SELECT a\n  FROM t\n ORDER BY a DESC, b;"
    );
}

#[test]
fn a_reserved_word_is_matched_as_a_prefix() {
    // `OR` is read from the front of `order`, and the chain of conditions goes on
    assert!(sql_lint::format("select a from t where a = 1 order by a;").is_err());
    assert_eq!(parse_keyword(Keyword::Or, "order"), Ok(("der", ())));
}

#[test]
fn formatted_text_is_formatted_to_itself() {
    let sources = [
        "select 1;",
        "SELECT a, b from t where a = 1 and b = 2 group by a limit 5;",
        "select a from t order by a desc, b;",
        "update movies set title = 'x', year = 3 where id = 1;",
        "select a from users as u join staff on l = m;",
        "select 1 union all select 2;",
    ];
    for source in sources {
        let once = formatted(source);
        assert_eq!(sql_lint::format(&once), Ok(once.clone()));
    }
}

#[test]
fn reserved_words_are_written_in_upper_case() {
    for word in ["select", "Select", "SELECT", "sElEcT"] {
        assert_eq!(formatted(&format!("{} 1;", word)), "SELECT 1;");
    }
    for word in ["from", "From", "FROM", "fROm"] {
        assert_eq!(formatted(&format!("select 1 {} users;", word)), "SELECT 1\n  FROM users;");
    }
    assert_eq!(parse_keyword(Keyword::Between, "bEtWeEn x"), Ok(("x", ())));
    assert_eq!(parse_keyword(Keyword::Between, "betwee x"), Err(ParseError::Error));
}

#[test]
fn runs_of_whitespace_count_as_one_space() {
    assert_eq!(
        sql_lint::format("select   1\n\n from\t users  ;"),
        sql_lint::format("select 1 from users;")
    );
    assert_eq!(
        sql_lint::format("  update\tt\r\nset a  =  1\n,\nb = 2 ;  "),
        sql_lint::format("update t set a = 1, b = 2;")
    );
}

#[test]
fn the_text_of_a_string_is_kept() {
    assert_eq!(formatted("select 'a b  c';"), "SELECT 'a b  c';");
    assert_eq!(formatted("select \"x y\";"), "SELECT 'x y';");
    assert_eq!(formatted("select 'bon d\u{ed}a';"), "SELECT 'bon d\u{ed}a';");
    assert_eq!(
        parse_value("'kill -9 -1' rest"),
        Ok((" rest", Value::String("kill -9 -1".to_string())))
    );
}

#[test]
fn a_double_quote_behind_a_string_ends_it() {
    // the scan for the closing quote looks for a double quote first
    assert_eq!(
        parse_value("'a', \"b\""),
        Ok(("b\"", Value::String("a', ".to_string())))
    );
}

#[test]
fn an_integer_in_front_of_a_point_wins() {
    assert_eq!(parse_numeric("1.5"), Ok((".5", Numeric::Int(1))));
    assert_eq!(parse_numeric("+7"), Ok(("", Numeric::Int(7))));
    assert_eq!(parse_numeric("2147483647"), Ok(("", Numeric::Int(2147483647))));
    assert_eq!(parse_numeric("-2147483648"), Ok(("", Numeric::Int(-2147483648))));
    assert_eq!(Numeric::Int(-2147483648).output(), "-2147483648");
    assert_eq!(Numeric::Int(0).output(), "0");
    assert_eq!(Numeric::Int(1203).output(), "1203");
}

#[test]
fn a_literal_that_is_no_integer_is_read_as_a_float() {
    assert_eq!(parse_numeric(".5"), Ok(("", Numeric::Float("0.5".to_string()))));
    assert_eq!(parse_numeric("-.25 x"), Ok((" x", Numeric::Float("-0.25".to_string()))));
    assert_eq!(parse_numeric(".5,"), Ok((",", Numeric::Float("0.5".to_string()))));
    assert_eq!(parse_numeric("inf"), Ok(("", Numeric::Float("inf".to_string()))));
    assert_eq!(parse_numeric("abc"), Err(ParseError::Error));
    assert_eq!(parse_numeric(""), Err(ParseError::Error));
    assert_eq!(formatted("select .50;"), "SELECT 0.5;");
}

#[test]
fn an_exponent_without_digits_ends_the_parse() {
    assert_eq!(parse_numeric(".5e"), Err(ParseError::Failure));
    assert_eq!(
        sql_lint::format("select .5e;"),
        Err(Error::ParsingError("Parsing Failure".to_string()))
    );
}

#[test]
fn a_type_name_ends_at_the_first_character_that_is_no_letter() {
    assert_eq!(parse_predefined_type("int4"), Ok(("4", PredefinedType::Int)));
    assert_eq!(parse_predefined_type("InTeGeR"), Ok(("", PredefinedType::Integer)));
    assert_eq!(parse_predefined_type("int\u{e9}"), Err(ParseError::Error));
    assert_eq!(parse_predefined_type("frobnicate"), Err(ParseError::Error));
    assert_eq!(
        parse_predefined_type("character  varying"),
        Ok(("", PredefinedType::CharacterVarying))
    );
    assert_eq!(PredefinedType::CharacterVarying.output(), "CHARACTER VARYING");
}

#[test]
fn a_limit_fits_in_sixteen_bits() {
    assert_eq!(parse_limit_clause("limit 65535"), Ok(("", LimitClause::Number(65535))));
    assert_eq!(parse_limit_clause("limit 65536"), Err(ParseError::Error));
    assert_eq!(LimitClause::Number(65535).output(), "LIMIT 65535");
}

#[test]
fn a_reserved_word_is_no_alias() {
    assert_eq!(
        parse_from_clause("from users where"),
        Ok((
            "where",
            FromClause(
                List(vec![TableExpression(TableName::Name(Name::Name("users".to_string())))]),
                None
            )
        ))
    );
    assert_eq!(
        parse_from_clause("from users \"where\""),
        Ok((
            "",
            FromClause(
                List(vec![TableExpression(TableName::AliasedName(
                    Name::Name("users".to_string()),
                    Name::QuotedName("where".to_string())
                ))]),
                None
            )
        ))
    );
}

#[test]
fn joins_follow_the_tables_of_a_from_clause() {
    assert_eq!(
        formatted("select a from users join staff on l = m;"),
        "SELECT a\n  FROM users\n  JOIN staff\n       ON l = m;"
    );
}

#[test]
fn the_branches_of_a_case_stand_under_its_subject() {
    assert_eq!(
        formatted("select case x when 1 then 'a' else 'b' end from t;"),
        "SELECT CASE x\n       WHEN 1 THEN 'a'\n       ELSE 'b'\n       END\n  FROM t;"
    );
}

#[test]
fn count_all_is_a_term() {
    assert_eq!(formatted("select count(*) from t;"), "SELECT COUNT(*)\n  FROM t;");
}

#[test]
fn a_set_operator_stands_between_blank_lines() {
    assert_eq!(formatted("select 1 union select 2;"), "SELECT 1\n\n UNION\n\nSELECT 2;");
}

#[test]
fn the_options_of_a_sequence_stand_on_lines_of_their_own() {
    assert_eq!(
        formatted("create sequence s start with 1 cache 255;"),
        "CREATE SEQUENCE 's'\n    START WITH 1\n    CACHE 255;"
    );
    assert_eq!(parse_alter_sequence("alter sequence s cache 256").unwrap().0, " cache 256");
    assert_eq!(parse_drop_sequence("drop sequence s").unwrap().1.output(), "DROP SEQUENCE s");
}

#[test]
fn a_token_ends_at_any_whitespace() {
    assert_eq!(is_keyword("ORDER\nBY x"), Ok(("ORDER\nBY x", Keyword::Order)));
    assert_eq!(is_keyword("order"), Ok(("order", Keyword::Order)));
    assert_eq!(is_keyword("orders"), Err(ParseError::Error));
    assert_eq!(is_keyword(" order"), Err(ParseError::Error));
}

#[test]
fn the_width_of_a_reserved_word_is_the_length_of_its_spelling() {
    assert_eq!(Keyword::Select.len(), 6);
    assert_eq!(Keyword::SetWord.len(), 3);
    assert_eq!(Keyword::SetWord.text(), "SET");
    assert_eq!(Keyword::Intersect.len(), 9);
    assert_eq!(Keyword::nth(0), Keyword::Character);
}

#[test]
fn a_clause_is_led_by_its_reserved_word() {
    assert_eq!(SelectClause::parse_keyword("  select 1"), Ok(("1", ())));
    assert_eq!(SelectClause::parse_keyword("selec 1"), Err(ParseError::Error));
    assert_eq!(SelectClause::leading(), Keyword::Select);
}

#[test]
fn a_new_formatter_is_empty() {
    let f = Formatter::new();
    assert_eq!(f.output(), "");
    assert_eq!(f.pad(), 0);
    assert_eq!(f.depth(), 0);
    assert_eq!(f.offset(), 0);
}

#[test]
fn the_depth_stays_within_its_bounds() {
    let mut f = Formatter::new();
    f.pop_context();
    assert_eq!(f.depth(), 0);
    f.new_context().new_context().pop_context();
    assert_eq!(f.depth(), 1);
    f.depth = usize::MAX;
    f.new_context();
    assert_eq!(f.depth(), usize::MAX);
}

#[test]
fn a_text_wider_than_its_field_is_left_as_it_is() {
    let mut f = Formatter::new();
    f.set_pad(3).left_side("SELECT").space().append("1");
    assert_eq!(f.output(), "SELECT 1");
    assert_eq!(f.pad_string("ab".to_string()), " ab");
    assert_eq!(f.format("ab".to_string(), "cd".to_string()), " ab cd");
}

#[test]
fn the_fields_of_a_nested_context_are_wider() {
    let mut f = Formatter::new();
    f.set_pad(4).new_context().set_offset(2);
    f.left_side("ON").new_line().right_margin().append("x");
    assert_eq!(f.output(), format!("{}ON\n{}x", " ".repeat(8), " ".repeat(11)));
    let mut g = Formatter::new();
    g.set_pad(2).indent(&"a").append_clause(&"b").right_side(&"c");
    assert_eq!(g.output(), "    a\nb   c");
}

#[test]
fn an_error_has_a_message() {
    assert_eq!(
        Error::ParsingIncompleteError("x".to_string()).message(),
        "Unable to parse SQL: 'x'"
    );
    assert_eq!(
        Error::ParsingError("Parsing Error".to_string()).message(),
        "Unable to parse SQL: Parsing Error"
    );
    assert_eq!(ParseError::Failure.description(), "Parsing Failure");
}

#[test]
fn each_precision_reads_the_same_literals() {
    let chars: Vec<char> = "x .25,".chars().collect();
    assert_eq!(
        sql_lint::numeric::float_at(&chars, 2),
        Ok((Numeric::Float("0.25".to_string()), 5))
    );
    assert_eq!(
        sql_lint::numeric::decimal_at(&chars, 2),
        Ok((Numeric::Decimal("0.25".to_string()), 5))
    );
    assert_eq!(sql_lint::numeric::decimal_at(&chars, 0), Err(ParseError::Error));
    assert_eq!(sql_lint::numeric::decimal_at(&chars, 1), Err(ParseError::Error));
    let third: Vec<char> = ".3333333333333333".chars().collect();
    assert_eq!(
        sql_lint::numeric::float_at(&third, 0),
        Ok((Numeric::Float("0.33333334".to_string()), 17))
    );
    assert_eq!(
        sql_lint::numeric::decimal_at(&third, 0),
        Ok((Numeric::Decimal("0.3333333333333333".to_string()), 17))
    );
    assert_eq!(Numeric::Decimal("0.25".to_string()).output(), "0.25");
}
