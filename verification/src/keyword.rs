//! The reserved words: their spelling, their width, and how they are
//! recognised in the input without regard to case.
use crate::formatter::{Format, Formatter, Layout};
use crate::text::{
    agrees, chars_of, finish, is_space, parsed, skip_ws, spaced, ws_count, ParseError, Parsed, Step,
};
use vstd::prelude::*;
use vstd::string::StrSliceExecFns;

verus! {

/// A reserved word. It is matched in any mixture of upper and lower case
/// and always written in upper case.
#[derive(Debug, Clone, Copy, PartialEq, Eq, Structural)]
pub enum Keyword {
    Character,
    Varying,
    Select,
    Date,
    With,
    Cascade,
    Restrict,
    Without,
    Time,
    Zone,
    As,
    From,
    Case,
    Join,
    Default,
    Into,
    Create,
    Sequence,
    Alter,
    Drop,
    Start,
    Timestamp,
    Increment,
    Cache,
    No,
    Minvalue,
    Maxvalue,
    Table,
    Group,
    Null,
    By,
    Nulls,
    First,
    Asc,
    All,
    Intersect,
    Minus,
    When,
    Then,
    Else,
    Inner,
    Outer,
    Cross,
    Left,
    Right,
    Full,
    Natural,
    End,
    Union,
    Except,
    Desc,
    Last,
    Between,
    In,
    Is,
    Like,
    Not,
    Primary,
    Key,
    Unique,
    Where,
    And,
    Or,
    Limit,
    On,
    Using,
    Avg,
    Order,
    DropTable,
    Having,
    Add,
    Column,
    References,
    Foreign,
    Action,
    Delete,
    Update,
    Insert,
    Type,
    Values,
    Constraint,
    Check,
    SetWord,
    Distinct,
    Count,
}

impl DeepView for Keyword {
    type V = Keyword;

    open spec fn deep_view(&self) -> Keyword {
        *self
    }
}

/// How many reserved words there are.
pub open spec fn keyword_count() -> nat {
    85
}

impl Keyword {
    /// The upper-case spelling.
    pub open spec fn spec_text(self) -> Seq<char> {
        match self {
            Keyword::Character => "CHARACTER"@,
            Keyword::Varying => "VARYING"@,
            Keyword::Select => "SELECT"@,
            Keyword::Date => "DATE"@,
            Keyword::With => "WITH"@,
            Keyword::Cascade => "CASCADE"@,
            Keyword::Restrict => "RESTRICT"@,
            Keyword::Without => "WITHOUT"@,
            Keyword::Time => "TIME"@,
            Keyword::Zone => "ZONE"@,
            Keyword::As => "AS"@,
            Keyword::From => "FROM"@,
            Keyword::Case => "CASE"@,
            Keyword::Join => "JOIN"@,
            Keyword::Default => "DEFAULT"@,
            Keyword::Into => "INTO"@,
            Keyword::Create => "CREATE"@,
            Keyword::Sequence => "SEQUENCE"@,
            Keyword::Alter => "ALTER"@,
            Keyword::Drop => "DROP"@,
            Keyword::Start => "START"@,
            Keyword::Timestamp => "TIMESTAMP"@,
            Keyword::Increment => "INCREMENT"@,
            Keyword::Cache => "CACHE"@,
            Keyword::No => "NO"@,
            Keyword::Minvalue => "MINVALUE"@,
            Keyword::Maxvalue => "MAXVALUE"@,
            Keyword::Table => "TABLE"@,
            Keyword::Group => "GROUP"@,
            Keyword::Null => "NULL"@,
            Keyword::By => "BY"@,
            Keyword::Nulls => "NULLS"@,
            Keyword::First => "FIRST"@,
            Keyword::Asc => "ASC"@,
            Keyword::All => "ALL"@,
            Keyword::Intersect => "INTERSECT"@,
            Keyword::Minus => "MINUS"@,
            Keyword::When => "WHEN"@,
            Keyword::Then => "THEN"@,
            Keyword::Else => "ELSE"@,
            Keyword::Inner => "INNER"@,
            Keyword::Outer => "OUTER"@,
            Keyword::Cross => "CROSS"@,
            Keyword::Left => "LEFT"@,
            Keyword::Right => "RIGHT"@,
            Keyword::Full => "FULL"@,
            Keyword::Natural => "NATURAL"@,
            Keyword::End => "END"@,
            Keyword::Union => "UNION"@,
            Keyword::Except => "EXCEPT"@,
            Keyword::Desc => "DESC"@,
            Keyword::Last => "LAST"@,
            Keyword::Between => "BETWEEN"@,
            Keyword::In => "IN"@,
            Keyword::Is => "IS"@,
            Keyword::Like => "LIKE"@,
            Keyword::Not => "NOT"@,
            Keyword::Primary => "PRIMARY"@,
            Keyword::Key => "KEY"@,
            Keyword::Unique => "UNIQUE"@,
            Keyword::Where => "WHERE"@,
            Keyword::And => "AND"@,
            Keyword::Or => "OR"@,
            Keyword::Limit => "LIMIT"@,
            Keyword::On => "ON"@,
            Keyword::Using => "USING"@,
            Keyword::Avg => "AVG"@,
            Keyword::Order => "ORDER"@,
            Keyword::DropTable => "DROPTABLE"@,
            Keyword::Having => "HAVING"@,
            Keyword::Add => "ADD"@,
            Keyword::Column => "COLUMN"@,
            Keyword::References => "REFERENCES"@,
            Keyword::Foreign => "FOREIGN"@,
            Keyword::Action => "ACTION"@,
            Keyword::Delete => "DELETE"@,
            Keyword::Update => "UPDATE"@,
            Keyword::Insert => "INSERT"@,
            Keyword::Type => "TYPE"@,
            Keyword::Values => "VALUES"@,
            Keyword::Constraint => "CONSTRAINT"@,
            Keyword::Check => "CHECK"@,
            Keyword::SetWord => "SET"@,
            Keyword::Distinct => "DISTINCT"@,
            Keyword::Count => "COUNT"@,
        }
    }

    /// The number of characters of the spelling.
    pub open spec fn width(self) -> nat {
        match self {
            Keyword::Character => 9,
            Keyword::Varying => 7,
            Keyword::Select => 6,
            Keyword::Date => 4,
            Keyword::With => 4,
            Keyword::Cascade => 7,
            Keyword::Restrict => 8,
            Keyword::Without => 7,
            Keyword::Time => 4,
            Keyword::Zone => 4,
            Keyword::As => 2,
            Keyword::From => 4,
            Keyword::Case => 4,
            Keyword::Join => 4,
            Keyword::Default => 7,
            Keyword::Into => 4,
            Keyword::Create => 6,
            Keyword::Sequence => 8,
            Keyword::Alter => 5,
            Keyword::Drop => 4,
            Keyword::Start => 5,
            Keyword::Timestamp => 9,
            Keyword::Increment => 9,
            Keyword::Cache => 5,
            Keyword::No => 2,
            Keyword::Minvalue => 8,
            Keyword::Maxvalue => 8,
            Keyword::Table => 5,
            Keyword::Group => 5,
            Keyword::Null => 4,
            Keyword::By => 2,
            Keyword::Nulls => 5,
            Keyword::First => 5,
            Keyword::Asc => 3,
            Keyword::All => 3,
            Keyword::Intersect => 9,
            Keyword::Minus => 5,
            Keyword::When => 4,
            Keyword::Then => 4,
            Keyword::Else => 4,
            Keyword::Inner => 5,
            Keyword::Outer => 5,
            Keyword::Cross => 5,
            Keyword::Left => 4,
            Keyword::Right => 5,
            Keyword::Full => 4,
            Keyword::Natural => 7,
            Keyword::End => 3,
            Keyword::Union => 5,
            Keyword::Except => 6,
            Keyword::Desc => 4,
            Keyword::Last => 4,
            Keyword::Between => 7,
            Keyword::In => 2,
            Keyword::Is => 2,
            Keyword::Like => 4,
            Keyword::Not => 3,
            Keyword::Primary => 7,
            Keyword::Key => 3,
            Keyword::Unique => 6,
            Keyword::Where => 5,
            Keyword::And => 3,
            Keyword::Or => 2,
            Keyword::Limit => 5,
            Keyword::On => 2,
            Keyword::Using => 5,
            Keyword::Avg => 3,
            Keyword::Order => 5,
            Keyword::DropTable => 9,
            Keyword::Having => 6,
            Keyword::Add => 3,
            Keyword::Column => 6,
            Keyword::References => 10,
            Keyword::Foreign => 7,
            Keyword::Action => 6,
            Keyword::Delete => 6,
            Keyword::Update => 6,
            Keyword::Insert => 6,
            Keyword::Type => 4,
            Keyword::Values => 6,
            Keyword::Constraint => 10,
            Keyword::Check => 5,
            Keyword::SetWord => 3,
            Keyword::Distinct => 8,
            Keyword::Count => 5,
        }
    }

    /// The reserved word at place `i` of the table, for `i` below
    /// `keyword_count()`.
    pub open spec fn spec_nth(i: usize) -> Keyword {
        match i {
            0 => Keyword::Character,
            1 => Keyword::Varying,
            2 => Keyword::Select,
            3 => Keyword::Date,
            4 => Keyword::With,
            5 => Keyword::Cascade,
            6 => Keyword::Restrict,
            7 => Keyword::Without,
            8 => Keyword::Time,
            9 => Keyword::Zone,
            10 => Keyword::As,
            11 => Keyword::From,
            12 => Keyword::Case,
            13 => Keyword::Join,
            14 => Keyword::Default,
            15 => Keyword::Into,
            16 => Keyword::Create,
            17 => Keyword::Sequence,
            18 => Keyword::Alter,
            19 => Keyword::Drop,
            20 => Keyword::Start,
            21 => Keyword::Timestamp,
            22 => Keyword::Increment,
            23 => Keyword::Cache,
            24 => Keyword::No,
            25 => Keyword::Minvalue,
            26 => Keyword::Maxvalue,
            27 => Keyword::Table,
            28 => Keyword::Group,
            29 => Keyword::Null,
            30 => Keyword::By,
            31 => Keyword::Nulls,
            32 => Keyword::First,
            33 => Keyword::Asc,
            34 => Keyword::All,
            35 => Keyword::Intersect,
            36 => Keyword::Minus,
            37 => Keyword::When,
            38 => Keyword::Then,
            39 => Keyword::Else,
            40 => Keyword::Inner,
            41 => Keyword::Outer,
            42 => Keyword::Cross,
            43 => Keyword::Left,
            44 => Keyword::Right,
            45 => Keyword::Full,
            46 => Keyword::Natural,
            47 => Keyword::End,
            48 => Keyword::Union,
            49 => Keyword::Except,
            50 => Keyword::Desc,
            51 => Keyword::Last,
            52 => Keyword::Between,
            53 => Keyword::In,
            54 => Keyword::Is,
            55 => Keyword::Like,
            56 => Keyword::Not,
            57 => Keyword::Primary,
            58 => Keyword::Key,
            59 => Keyword::Unique,
            60 => Keyword::Where,
            61 => Keyword::And,
            62 => Keyword::Or,
            63 => Keyword::Limit,
            64 => Keyword::On,
            65 => Keyword::Using,
            66 => Keyword::Avg,
            67 => Keyword::Order,
            68 => Keyword::DropTable,
            69 => Keyword::Having,
            70 => Keyword::Add,
            71 => Keyword::Column,
            72 => Keyword::References,
            73 => Keyword::Foreign,
            74 => Keyword::Action,
            75 => Keyword::Delete,
            76 => Keyword::Update,
            77 => Keyword::Insert,
            78 => Keyword::Type,
            79 => Keyword::Values,
            80 => Keyword::Constraint,
            81 => Keyword::Check,
            82 => Keyword::SetWord,
            83 => Keyword::Distinct,
            _ => Keyword::Count,
        }
    }

    /// The spelling is as wide as `width` says.
    pub proof fn text_width(self)
        ensures
            self.spec_text().len() == self.width(),
            self.width() > 0,
    {
        match self {
            Keyword::Character => reveal_strlit("CHARACTER"),
            Keyword::Varying => reveal_strlit("VARYING"),
            Keyword::Select => reveal_strlit("SELECT"),
            Keyword::Date => reveal_strlit("DATE"),
            Keyword::With => reveal_strlit("WITH"),
            Keyword::Cascade => reveal_strlit("CASCADE"),
            Keyword::Restrict => reveal_strlit("RESTRICT"),
            Keyword::Without => reveal_strlit("WITHOUT"),
            Keyword::Time => reveal_strlit("TIME"),
            Keyword::Zone => reveal_strlit("ZONE"),
            Keyword::As => reveal_strlit("AS"),
            Keyword::From => reveal_strlit("FROM"),
            Keyword::Case => reveal_strlit("CASE"),
            Keyword::Join => reveal_strlit("JOIN"),
            Keyword::Default => reveal_strlit("DEFAULT"),
            Keyword::Into => reveal_strlit("INTO"),
            Keyword::Create => reveal_strlit("CREATE"),
            Keyword::Sequence => reveal_strlit("SEQUENCE"),
            Keyword::Alter => reveal_strlit("ALTER"),
            Keyword::Drop => reveal_strlit("DROP"),
            Keyword::Start => reveal_strlit("START"),
            Keyword::Timestamp => reveal_strlit("TIMESTAMP"),
            Keyword::Increment => reveal_strlit("INCREMENT"),
            Keyword::Cache => reveal_strlit("CACHE"),
            Keyword::No => reveal_strlit("NO"),
            Keyword::Minvalue => reveal_strlit("MINVALUE"),
            Keyword::Maxvalue => reveal_strlit("MAXVALUE"),
            Keyword::Table => reveal_strlit("TABLE"),
            Keyword::Group => reveal_strlit("GROUP"),
            Keyword::Null => reveal_strlit("NULL"),
            Keyword::By => reveal_strlit("BY"),
            Keyword::Nulls => reveal_strlit("NULLS"),
            Keyword::First => reveal_strlit("FIRST"),
            Keyword::Asc => reveal_strlit("ASC"),
            Keyword::All => reveal_strlit("ALL"),
            Keyword::Intersect => reveal_strlit("INTERSECT"),
            Keyword::Minus => reveal_strlit("MINUS"),
            Keyword::When => reveal_strlit("WHEN"),
            Keyword::Then => reveal_strlit("THEN"),
            Keyword::Else => reveal_strlit("ELSE"),
            Keyword::Inner => reveal_strlit("INNER"),
            Keyword::Outer => reveal_strlit("OUTER"),
            Keyword::Cross => reveal_strlit("CROSS"),
            Keyword::Left => reveal_strlit("LEFT"),
            Keyword::Right => reveal_strlit("RIGHT"),
            Keyword::Full => reveal_strlit("FULL"),
            Keyword::Natural => reveal_strlit("NATURAL"),
            Keyword::End => reveal_strlit("END"),
            Keyword::Union => reveal_strlit("UNION"),
            Keyword::Except => reveal_strlit("EXCEPT"),
            Keyword::Desc => reveal_strlit("DESC"),
            Keyword::Last => reveal_strlit("LAST"),
            Keyword::Between => reveal_strlit("BETWEEN"),
            Keyword::In => reveal_strlit("IN"),
            Keyword::Is => reveal_strlit("IS"),
            Keyword::Like => reveal_strlit("LIKE"),
            Keyword::Not => reveal_strlit("NOT"),
            Keyword::Primary => reveal_strlit("PRIMARY"),
            Keyword::Key => reveal_strlit("KEY"),
            Keyword::Unique => reveal_strlit("UNIQUE"),
            Keyword::Where => reveal_strlit("WHERE"),
            Keyword::And => reveal_strlit("AND"),
            Keyword::Or => reveal_strlit("OR"),
            Keyword::Limit => reveal_strlit("LIMIT"),
            Keyword::On => reveal_strlit("ON"),
            Keyword::Using => reveal_strlit("USING"),
            Keyword::Avg => reveal_strlit("AVG"),
            Keyword::Order => reveal_strlit("ORDER"),
            Keyword::DropTable => reveal_strlit("DROPTABLE"),
            Keyword::Having => reveal_strlit("HAVING"),
            Keyword::Add => reveal_strlit("ADD"),
            Keyword::Column => reveal_strlit("COLUMN"),
            Keyword::References => reveal_strlit("REFERENCES"),
            Keyword::Foreign => reveal_strlit("FOREIGN"),
            Keyword::Action => reveal_strlit("ACTION"),
            Keyword::Delete => reveal_strlit("DELETE"),
            Keyword::Update => reveal_strlit("UPDATE"),
            Keyword::Insert => reveal_strlit("INSERT"),
            Keyword::Type => reveal_strlit("TYPE"),
            Keyword::Values => reveal_strlit("VALUES"),
            Keyword::Constraint => reveal_strlit("CONSTRAINT"),
            Keyword::Check => reveal_strlit("CHECK"),
            Keyword::SetWord => reveal_strlit("SET"),
            Keyword::Distinct => reveal_strlit("DISTINCT"),
            Keyword::Count => reveal_strlit("COUNT"),
        }
    }

    /// The spelling holds upper-case letters only.
    pub proof fn text_is_upper_case(self)
        ensures
            forall|i: int| 0 <= i < self.spec_text().len() ==> 'A' <= #[trigger] self.spec_text()[i] <= 'Z',
    {
        match self {
            Keyword::Character => reveal_strlit("CHARACTER"),
            Keyword::Varying => reveal_strlit("VARYING"),
            Keyword::Select => reveal_strlit("SELECT"),
            Keyword::Date => reveal_strlit("DATE"),
            Keyword::With => reveal_strlit("WITH"),
            Keyword::Cascade => reveal_strlit("CASCADE"),
            Keyword::Restrict => reveal_strlit("RESTRICT"),
            Keyword::Without => reveal_strlit("WITHOUT"),
            Keyword::Time => reveal_strlit("TIME"),
            Keyword::Zone => reveal_strlit("ZONE"),
            Keyword::As => reveal_strlit("AS"),
            Keyword::From => reveal_strlit("FROM"),
            Keyword::Case => reveal_strlit("CASE"),
            Keyword::Join => reveal_strlit("JOIN"),
            Keyword::Default => reveal_strlit("DEFAULT"),
            Keyword::Into => reveal_strlit("INTO"),
            Keyword::Create => reveal_strlit("CREATE"),
            Keyword::Sequence => reveal_strlit("SEQUENCE"),
            Keyword::Alter => reveal_strlit("ALTER"),
            Keyword::Drop => reveal_strlit("DROP"),
            Keyword::Start => reveal_strlit("START"),
            Keyword::Timestamp => reveal_strlit("TIMESTAMP"),
            Keyword::Increment => reveal_strlit("INCREMENT"),
            Keyword::Cache => reveal_strlit("CACHE"),
            Keyword::No => reveal_strlit("NO"),
            Keyword::Minvalue => reveal_strlit("MINVALUE"),
            Keyword::Maxvalue => reveal_strlit("MAXVALUE"),
            Keyword::Table => reveal_strlit("TABLE"),
            Keyword::Group => reveal_strlit("GROUP"),
            Keyword::Null => reveal_strlit("NULL"),
            Keyword::By => reveal_strlit("BY"),
            Keyword::Nulls => reveal_strlit("NULLS"),
            Keyword::First => reveal_strlit("FIRST"),
            Keyword::Asc => reveal_strlit("ASC"),
            Keyword::All => reveal_strlit("ALL"),
            Keyword::Intersect => reveal_strlit("INTERSECT"),
            Keyword::Minus => reveal_strlit("MINUS"),
            Keyword::When => reveal_strlit("WHEN"),
            Keyword::Then => reveal_strlit("THEN"),
            Keyword::Else => reveal_strlit("ELSE"),
            Keyword::Inner => reveal_strlit("INNER"),
            Keyword::Outer => reveal_strlit("OUTER"),
            Keyword::Cross => reveal_strlit("CROSS"),
            Keyword::Left => reveal_strlit("LEFT"),
            Keyword::Right => reveal_strlit("RIGHT"),
            Keyword::Full => reveal_strlit("FULL"),
            Keyword::Natural => reveal_strlit("NATURAL"),
            Keyword::End => reveal_strlit("END"),
            Keyword::Union => reveal_strlit("UNION"),
            Keyword::Except => reveal_strlit("EXCEPT"),
            Keyword::Desc => reveal_strlit("DESC"),
            Keyword::Last => reveal_strlit("LAST"),
            Keyword::Between => reveal_strlit("BETWEEN"),
            Keyword::In => reveal_strlit("IN"),
            Keyword::Is => reveal_strlit("IS"),
            Keyword::Like => reveal_strlit("LIKE"),
            Keyword::Not => reveal_strlit("NOT"),
            Keyword::Primary => reveal_strlit("PRIMARY"),
            Keyword::Key => reveal_strlit("KEY"),
            Keyword::Unique => reveal_strlit("UNIQUE"),
            Keyword::Where => reveal_strlit("WHERE"),
            Keyword::And => reveal_strlit("AND"),
            Keyword::Or => reveal_strlit("OR"),
            Keyword::Limit => reveal_strlit("LIMIT"),
            Keyword::On => reveal_strlit("ON"),
            Keyword::Using => reveal_strlit("USING"),
            Keyword::Avg => reveal_strlit("AVG"),
            Keyword::Order => reveal_strlit("ORDER"),
            Keyword::DropTable => reveal_strlit("DROPTABLE"),
            Keyword::Having => reveal_strlit("HAVING"),
            Keyword::Add => reveal_strlit("ADD"),
            Keyword::Column => reveal_strlit("COLUMN"),
            Keyword::References => reveal_strlit("REFERENCES"),
            Keyword::Foreign => reveal_strlit("FOREIGN"),
            Keyword::Action => reveal_strlit("ACTION"),
            Keyword::Delete => reveal_strlit("DELETE"),
            Keyword::Update => reveal_strlit("UPDATE"),
            Keyword::Insert => reveal_strlit("INSERT"),
            Keyword::Type => reveal_strlit("TYPE"),
            Keyword::Values => reveal_strlit("VALUES"),
            Keyword::Constraint => reveal_strlit("CONSTRAINT"),
            Keyword::Check => reveal_strlit("CHECK"),
            Keyword::SetWord => reveal_strlit("SET"),
            Keyword::Distinct => reveal_strlit("DISTINCT"),
            Keyword::Count => reveal_strlit("COUNT"),
        }
    }

    /// The upper-case spelling.
    pub fn text(&self) -> (r: &'static str)
        ensures
            r@ == self.spec_text(),
    {
        match self {
            Keyword::Character => "CHARACTER",
            Keyword::Varying => "VARYING",
            Keyword::Select => "SELECT",
            Keyword::Date => "DATE",
            Keyword::With => "WITH",
            Keyword::Cascade => "CASCADE",
            Keyword::Restrict => "RESTRICT",
            Keyword::Without => "WITHOUT",
            Keyword::Time => "TIME",
            Keyword::Zone => "ZONE",
            Keyword::As => "AS",
            Keyword::From => "FROM",
            Keyword::Case => "CASE",
            Keyword::Join => "JOIN",
            Keyword::Default => "DEFAULT",
            Keyword::Into => "INTO",
            Keyword::Create => "CREATE",
            Keyword::Sequence => "SEQUENCE",
            Keyword::Alter => "ALTER",
            Keyword::Drop => "DROP",
            Keyword::Start => "START",
            Keyword::Timestamp => "TIMESTAMP",
            Keyword::Increment => "INCREMENT",
            Keyword::Cache => "CACHE",
            Keyword::No => "NO",
            Keyword::Minvalue => "MINVALUE",
            Keyword::Maxvalue => "MAXVALUE",
            Keyword::Table => "TABLE",
            Keyword::Group => "GROUP",
            Keyword::Null => "NULL",
            Keyword::By => "BY",
            Keyword::Nulls => "NULLS",
            Keyword::First => "FIRST",
            Keyword::Asc => "ASC",
            Keyword::All => "ALL",
            Keyword::Intersect => "INTERSECT",
            Keyword::Minus => "MINUS",
            Keyword::When => "WHEN",
            Keyword::Then => "THEN",
            Keyword::Else => "ELSE",
            Keyword::Inner => "INNER",
            Keyword::Outer => "OUTER",
            Keyword::Cross => "CROSS",
            Keyword::Left => "LEFT",
            Keyword::Right => "RIGHT",
            Keyword::Full => "FULL",
            Keyword::Natural => "NATURAL",
            Keyword::End => "END",
            Keyword::Union => "UNION",
            Keyword::Except => "EXCEPT",
            Keyword::Desc => "DESC",
            Keyword::Last => "LAST",
            Keyword::Between => "BETWEEN",
            Keyword::In => "IN",
            Keyword::Is => "IS",
            Keyword::Like => "LIKE",
            Keyword::Not => "NOT",
            Keyword::Primary => "PRIMARY",
            Keyword::Key => "KEY",
            Keyword::Unique => "UNIQUE",
            Keyword::Where => "WHERE",
            Keyword::And => "AND",
            Keyword::Or => "OR",
            Keyword::Limit => "LIMIT",
            Keyword::On => "ON",
            Keyword::Using => "USING",
            Keyword::Avg => "AVG",
            Keyword::Order => "ORDER",
            Keyword::DropTable => "DROPTABLE",
            Keyword::Having => "HAVING",
            Keyword::Add => "ADD",
            Keyword::Column => "COLUMN",
            Keyword::References => "REFERENCES",
            Keyword::Foreign => "FOREIGN",
            Keyword::Action => "ACTION",
            Keyword::Delete => "DELETE",
            Keyword::Update => "UPDATE",
            Keyword::Insert => "INSERT",
            Keyword::Type => "TYPE",
            Keyword::Values => "VALUES",
            Keyword::Constraint => "CONSTRAINT",
            Keyword::Check => "CHECK",
            Keyword::SetWord => "SET",
            Keyword::Distinct => "DISTINCT",
            Keyword::Count => "COUNT",
        }
    }

    /// The rendered width of the word, by which clause bodies are aligned.
    pub fn len(&self) -> (r: usize)
        ensures
            r == self.spec_text().len(),
            r == self.width(),
    {
        proof {
            self.text_width();
        }
        match self {
            Keyword::Character => 9,
            Keyword::Varying => 7,
            Keyword::Select => 6,
            Keyword::Date => 4,
            Keyword::With => 4,
            Keyword::Cascade => 7,
            Keyword::Restrict => 8,
            Keyword::Without => 7,
            Keyword::Time => 4,
            Keyword::Zone => 4,
            Keyword::As => 2,
            Keyword::From => 4,
            Keyword::Case => 4,
            Keyword::Join => 4,
            Keyword::Default => 7,
            Keyword::Into => 4,
            Keyword::Create => 6,
            Keyword::Sequence => 8,
            Keyword::Alter => 5,
            Keyword::Drop => 4,
            Keyword::Start => 5,
            Keyword::Timestamp => 9,
            Keyword::Increment => 9,
            Keyword::Cache => 5,
            Keyword::No => 2,
            Keyword::Minvalue => 8,
            Keyword::Maxvalue => 8,
            Keyword::Table => 5,
            Keyword::Group => 5,
            Keyword::Null => 4,
            Keyword::By => 2,
            Keyword::Nulls => 5,
            Keyword::First => 5,
            Keyword::Asc => 3,
            Keyword::All => 3,
            Keyword::Intersect => 9,
            Keyword::Minus => 5,
            Keyword::When => 4,
            Keyword::Then => 4,
            Keyword::Else => 4,
            Keyword::Inner => 5,
            Keyword::Outer => 5,
            Keyword::Cross => 5,
            Keyword::Left => 4,
            Keyword::Right => 5,
            Keyword::Full => 4,
            Keyword::Natural => 7,
            Keyword::End => 3,
            Keyword::Union => 5,
            Keyword::Except => 6,
            Keyword::Desc => 4,
            Keyword::Last => 4,
            Keyword::Between => 7,
            Keyword::In => 2,
            Keyword::Is => 2,
            Keyword::Like => 4,
            Keyword::Not => 3,
            Keyword::Primary => 7,
            Keyword::Key => 3,
            Keyword::Unique => 6,
            Keyword::Where => 5,
            Keyword::And => 3,
            Keyword::Or => 2,
            Keyword::Limit => 5,
            Keyword::On => 2,
            Keyword::Using => 5,
            Keyword::Avg => 3,
            Keyword::Order => 5,
            Keyword::DropTable => 9,
            Keyword::Having => 6,
            Keyword::Add => 3,
            Keyword::Column => 6,
            Keyword::References => 10,
            Keyword::Foreign => 7,
            Keyword::Action => 6,
            Keyword::Delete => 6,
            Keyword::Update => 6,
            Keyword::Insert => 6,
            Keyword::Type => 4,
            Keyword::Values => 6,
            Keyword::Constraint => 10,
            Keyword::Check => 5,
            Keyword::SetWord => 3,
            Keyword::Distinct => 8,
            Keyword::Count => 5,
        }
    }

    /// The reserved word at place `i` of the table.
    pub fn nth(i: usize) -> (r: Keyword)
        ensures
            r == Keyword::spec_nth(i),
    {
        match i {
            0 => Keyword::Character,
            1 => Keyword::Varying,
            2 => Keyword::Select,
            3 => Keyword::Date,
            4 => Keyword::With,
            5 => Keyword::Cascade,
            6 => Keyword::Restrict,
            7 => Keyword::Without,
            8 => Keyword::Time,
            9 => Keyword::Zone,
            10 => Keyword::As,
            11 => Keyword::From,
            12 => Keyword::Case,
            13 => Keyword::Join,
            14 => Keyword::Default,
            15 => Keyword::Into,
            16 => Keyword::Create,
            17 => Keyword::Sequence,
            18 => Keyword::Alter,
            19 => Keyword::Drop,
            20 => Keyword::Start,
            21 => Keyword::Timestamp,
            22 => Keyword::Increment,
            23 => Keyword::Cache,
            24 => Keyword::No,
            25 => Keyword::Minvalue,
            26 => Keyword::Maxvalue,
            27 => Keyword::Table,
            28 => Keyword::Group,
            29 => Keyword::Null,
            30 => Keyword::By,
            31 => Keyword::Nulls,
            32 => Keyword::First,
            33 => Keyword::Asc,
            34 => Keyword::All,
            35 => Keyword::Intersect,
            36 => Keyword::Minus,
            37 => Keyword::When,
            38 => Keyword::Then,
            39 => Keyword::Else,
            40 => Keyword::Inner,
            41 => Keyword::Outer,
            42 => Keyword::Cross,
            43 => Keyword::Left,
            44 => Keyword::Right,
            45 => Keyword::Full,
            46 => Keyword::Natural,
            47 => Keyword::End,
            48 => Keyword::Union,
            49 => Keyword::Except,
            50 => Keyword::Desc,
            51 => Keyword::Last,
            52 => Keyword::Between,
            53 => Keyword::In,
            54 => Keyword::Is,
            55 => Keyword::Like,
            56 => Keyword::Not,
            57 => Keyword::Primary,
            58 => Keyword::Key,
            59 => Keyword::Unique,
            60 => Keyword::Where,
            61 => Keyword::And,
            62 => Keyword::Or,
            63 => Keyword::Limit,
            64 => Keyword::On,
            65 => Keyword::Using,
            66 => Keyword::Avg,
            67 => Keyword::Order,
            68 => Keyword::DropTable,
            69 => Keyword::Having,
            70 => Keyword::Add,
            71 => Keyword::Column,
            72 => Keyword::References,
            73 => Keyword::Foreign,
            74 => Keyword::Action,
            75 => Keyword::Delete,
            76 => Keyword::Update,
            77 => Keyword::Insert,
            78 => Keyword::Type,
            79 => Keyword::Values,
            80 => Keyword::Constraint,
            81 => Keyword::Check,
            82 => Keyword::SetWord,
            83 => Keyword::Distinct,
            _ => Keyword::Count,
        }
    }
}

/// The code of `c` with the upper-case letters `A` to `Z` mapped to lower
/// case: two characters are the same letter when their folds are equal.
pub open spec fn fold(c: char) -> int {
    if 'A' <= c <= 'Z' {
        c as int + 32
    } else {
        c as int
    }
}

/// The fold of `c`.
pub fn fold_of(c: char) -> (r: u32)
    ensures
        r == fold(c),
{
    if 'A' <= c && c <= 'Z' {
        (c as u32) + 32
    } else {
        c as u32
    }
}

/// `word` and `lit` have the same length and the same letters, case apart.
pub open spec fn same_word(word: Seq<char>, lit: Seq<char>) -> bool {
    word.len() == lit.len() && forall|i: int| 0 <= i < lit.len() ==> fold(#[trigger] word[i]) == fold(lit[i])
}

/// The characters at `pos` spell `lit`, case apart.
pub open spec fn has_word_at(s: Seq<char>, pos: int, lit: Seq<char>) -> bool {
    0 <= pos && pos + lit.len() <= s.len() && same_word(s.subrange(pos, pos + lit.len()), lit)
}

/// Whether `inp[pos..]` starts with `lit`, case apart.
pub fn word_at(inp: &[char], pos: usize, lit: &str) -> (r: bool)
    requires
        pos <= inp@.len(),
    ensures
        r == has_word_at(inp@, pos as int, lit@),
        inp@.len() <= usize::MAX,
{
    let n = lit.unicode_len();
    if n > inp.len() - pos {
        return false;
    }
    let ghost word = inp@.subrange(pos as int, pos + n);
    let mut i: usize = 0;
    while i < n
        invariant
            i <= n,
            n == lit@.len(),
            pos + n <= inp.len(),
            word == inp@.subrange(pos as int, pos + n),
            forall|j: int| 0 <= j < i ==> fold(#[trigger] word[j]) == fold(lit@[j]),
        decreases n - i,
    {
        if fold_of(inp[pos + i]) != fold_of(lit.get_char(i)) {
            assert(fold(word[i as int]) != fold(lit@[i as int]));
            return false;
        }
        i += 1;
    }
    true
}

/// The reserved word `k` in any case, with whitespace allowed on both sides.
pub open spec fn spec_keyword(s: Seq<char>, pos: int, k: Keyword) -> Parsed<()> {
    let w = ws_count(s, pos);
    spaced(
        s,
        pos,
        if has_word_at(s, pos + w, k.spec_text()) && pos + w + k.width() <= s.len() {
            Parsed::Done((), k.width())
        } else {
            Parsed::Miss
        },
    )
}

/// Reads at `pos` what `spec_keyword` describes: the value and the position
/// behind it, or the kind of failure.
pub fn keyword_at(inp: &[char], pos: usize, k: Keyword) -> (r: Step<()>)
    requires
        pos <= inp@.len(),
    ensures
        agrees(r, inp@, pos as int, spec_keyword(inp@, pos as int, k)),
{
    proof {
        k.text_width();
    }
    let start = skip_ws(inp, pos);
    if word_at(inp, start, k.text()) {
        assert(start + k.width() <= inp.len());
        let end = skip_ws(inp, start + k.len());
        Ok(((), end))
    } else {
        Err(ParseError::Error)
    }
}

/// Matches the reserved word `keyword` at the start of `input`, in any
/// case, and skips the whitespace around it.
pub fn parse_keyword(keyword: Keyword, input: &str) -> (r: Result<(&str, ()), ParseError>)
    ensures
        parsed(r, input@, spec_keyword(input@, 0, keyword)),
{
    let chars = chars_of(input);
    let step = keyword_at(chars.as_slice(), 0, keyword);
    finish(input, step, Ghost(spec_keyword(input@, 0, keyword)))
}

/// The length of the run of characters other than whitespace that starts
/// at `pos`.
pub open spec fn token_len(s: Seq<char>, pos: int) -> nat
    decreases s.len() - pos,
{
    if 0 <= pos < s.len() && !is_space(s[pos]) {
        1 + token_len(s, pos + 1)
    } else {
        0
    }
}

/// The position behind the token that starts at `pos`.
pub fn token_end(inp: &[char], pos: usize) -> (end: usize)
    requires
        pos <= inp@.len(),
    ensures
        end == pos + token_len(inp@, pos as int),
        end <= inp@.len(),
{
    let mut i: usize = pos;
    while i < inp.len() && !(inp[i] == ' ' || inp[i] == '\t' || inp[i] == '\r' || inp[i] == '\n')
        invariant
            pos <= i <= inp@.len(),
            i + token_len(inp@, i as int) == pos + token_len(inp@, pos as int),
        decreases inp@.len() - i,
    {
        i += 1;
    }
    i
}

/// The first reserved word from place `from` of the table on that `word`
/// spells, case apart.
pub open spec fn keyword_from(word: Seq<char>, from: nat) -> Option<Keyword>
    decreases keyword_count() - from,
{
    if from >= keyword_count() {
        None
    } else if same_word(word, Keyword::spec_nth(from as usize).spec_text()) {
        Some(Keyword::spec_nth(from as usize))
    } else {
        keyword_from(word, from + 1)
    }
}

/// The reserved word that the token at `pos` spells, if it spells one. The
/// token ends at the next whitespace or at the end of the input, and
/// nothing is consumed.
pub open spec fn spec_is_keyword(s: Seq<char>, pos: int) -> Parsed<Keyword> {
    let n = token_len(s, pos);
    if n == 0 {
        Parsed::Miss
    } else {
        match keyword_from(s.subrange(pos, pos + n), 0) {
            Some(k) => Parsed::Done(k, 0),
            None => Parsed::Miss,
        }
    }
}

/// The reserved word that `inp[pos..end]` spells, case apart, if it
/// spells one.
pub fn keyword_of(inp: &[char], pos: usize, end: usize) -> (r: Option<Keyword>)
    requires
        pos <= end <= inp@.len(),
    ensures
        r == keyword_from(inp@.subrange(pos as int, end as int), 0),
{
    let ghost word = inp@.subrange(pos as int, end as int);
    let mut i: usize = 0;
    while i < 85
        invariant
            i <= 85,
            pos <= end <= inp@.len(),
            word == inp@.subrange(pos as int, end as int),
            keyword_from(word, i as nat) == keyword_from(word, 0),
        decreases 85 - i,
    {
        let k = Keyword::nth(i);
        proof {
            k.text_width();
        }
        if k.len() == end - pos && word_at(inp, pos, k.text()) {
            return Some(k);
        }
        i += 1;
    }
    None
}

pub fn keyword_ahead(inp: &[char], pos: usize) -> (r: Step<Keyword>)
    requires
        pos <= inp@.len(),
    ensures
        agrees(r, inp@, pos as int, spec_is_keyword(inp@, pos as int)),
{
    let end = token_end(inp, pos);
    if end == pos {
        return Err(ParseError::Error);
    }
    match keyword_of(inp, pos, end) {
        Some(k) => Ok((k, pos)),
        None => Err(ParseError::Error),
    }
}

/// Reserved words are written in upper case.
impl Format for Keyword {
    open spec fn rendered(&self, st: Layout) -> Layout {
        st.append(self.spec_text())
    }

    fn format<'a>(&self, f: &'a mut Formatter) -> (r: &'a mut Formatter) {
        f.append(self.text())
    }
}

/// Looks ahead for a reserved word at the start of `input`: succeeds with
/// the word, and with the whole input as the rest, when the characters up
/// to the first whitespace spell one.
pub fn is_keyword(input: &str) -> (r: Result<(&str, Keyword), ParseError>)
    ensures
        parsed(r, input@, spec_is_keyword(input@, 0)),
{
    let chars = chars_of(input);
    let step = keyword_ahead(chars.as_slice(), 0);
    finish(input, step, Ghost(spec_is_keyword(input@, 0)))
}

/// A character that folds like an upper-case letter is a letter, and so
/// it is no whitespace.
pub proof fn letters_are_not_blank(c: char, letter: char)
    requires
        'A' <= letter <= 'Z',
        fold(c) == fold(letter),
    ensures
        !is_space(c),
{
}

/// Reserved words are read in any case and written in upper case: a text
/// that spells `k`, case apart, is read as `k` and wholly consumed, and the
/// token it makes spells a reserved word; `k` is written as its spelling,
/// which holds upper-case letters only, whatever the case of what was
/// read.
pub proof fn keyword_is_canonical(k: Keyword, word: Seq<char>, st: Layout)
    requires
        same_word(word, k.spec_text()),
    ensures
        spec_keyword(word, 0, k) == Parsed::Done((), word.len()),
        k.rendered(st).buffer == st.buffer + k.spec_text(),
        forall|i: int| 0 <= i < k.spec_text().len() ==> 'A' <= #[trigger] k.spec_text()[i] <= 'Z',
{
    k.text_width();
    k.text_is_upper_case();
    let text = k.spec_text();
    assert('A' <= text[0] <= 'Z');
    assert(fold(word[0]) == fold(text[0]));
    letters_are_not_blank(word[0], text[0]);
    assert(ws_count(word, 0) == 0);
    assert(word.subrange(0, word.len() as int) =~= word);
    assert(has_word_at(word, 0, text));
    assert(ws_count(word, word.len() as int) == 0);
}

/// `lit` stands at a place of a text just as it stands at that place of
/// the same text behind a prefix.
pub proof fn word_behind_prefix(prefix: Seq<char>, body: Seq<char>, pos: int, lit: Seq<char>)
    requires
        0 <= pos,
    ensures
        has_word_at(prefix + body, prefix.len() + pos, lit) == has_word_at(body, pos, lit),
{
    let s = prefix + body;
    if pos + lit.len() <= body.len() {
        assert(s.subrange(prefix.len() + pos, prefix.len() + pos + lit.len()) =~= body.subrange(
            pos,
            pos + lit.len(),
        ));
    }
}

/// Whitespace of any length in front of a reserved word changes nothing
/// but the number of characters consumed: behind a prefix of whitespace,
/// `k` is read from a text exactly where it is read from the text without
/// the prefix, and the prefix is consumed with it.
pub proof fn keyword_behind_whitespace(blank: Seq<char>, body: Seq<char>, k: Keyword)
    requires
        forall|i: int| 0 <= i < blank.len() ==> is_space(#[trigger] blank[i]),
    ensures
        spec_keyword(blank + body, 0, k) == spec_keyword(body, 0, k).after(blank.len()),
{
    let s = blank + body;
    assert forall|i: int| 0 <= i < blank.len() implies is_space(#[trigger] s[i]) by {
        assert(s[i] == blank[i]);
    }
    assert(crate::text::blank_between(s, 0, blank.len() as int));
    crate::text::ws_count_through_blanks(s, 0, blank.len() as int);
    crate::text::ws_count_behind_prefix(blank, body, 0);
    let w = ws_count(body, 0);
    assert(ws_count(s, 0) == blank.len() + w);
    word_behind_prefix(blank, body, w as int, k.spec_text());
    if w + k.width() <= body.len() {
        crate::text::ws_count_behind_prefix(blank, body, (w + k.width()) as int);
    }
}

} // verus!
