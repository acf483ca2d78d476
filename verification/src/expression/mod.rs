//! Conditions and the chains of conditions that follow `WHERE`, `HAVING`
//! and `ON`.
pub mod condition;

pub use self::condition::{
    compare, condition, operand, parse_expression, parse_expressions, parse_in_predicate_value,
    parse_where_clause, right_operand, Compare, Condition, ConditionView, Expression, ExpressionView,
    InPredicateValue, InPredicateValueView, Operand, OperandView, RightOperand, RightOperandView,
    WhereClause, WhereClauseView,
};
