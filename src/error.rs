use vstd::prelude::*;
use crate::ast::{SelectItem, SqlExpr, TableFactor};

verus! {

/// Why a query cannot be translated. Each variant holds the construct that
/// was refused, where there is one.
#[derive(Debug, PartialEq)]
pub enum QueryError {
    /// The input is not exactly one statement.
    MultipleStatements,
    /// The statement is not a plain SELECT query.
    UnsupportedStatement(String),
    /// FROM does not name exactly one table.
    MultipleSources,
    /// The table is joined with others.
    JoinNotSupported,
    /// The FROM item is not a named table.
    UnsupportedRelation(TableFactor),
    UnsupportedExpression(String),
    UnsupportedOperator(String),
    UnsupportedLiteral(String),
    UnsupportedProjection(SelectItem),
    /// An ORDER BY key that is not a bare column name.
    UnsupportedOrderBy(SqlExpr),
    /// A source that is neither `http...` nor `file...`.
    UnsupportedSource(String),
}

} // verus!
