//! `SELECT` statements and their clauses.
pub mod clause;
pub mod from;
pub mod group;
pub mod join;
pub mod limit;
pub mod order;
pub mod statement;
pub mod table_operator;

pub use self::clause::parse_select_clause;
pub use self::from::{parse_from_clause, FromClause};
pub use self::statement::{parse_select_statement, SelectStatement};
