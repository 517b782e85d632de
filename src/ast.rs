//! The parsed SQL, as far as the translation reads it. Constructs that the
//! translation never accepts keep only a description of themselves.
use vstd::prelude::*;

verus! {

#[derive(Debug, Clone, PartialEq)]
pub enum BinaryOperator {
    Plus,
    Minus,
    Multiply,
    Divide,
    Modulo,
    Gt,
    Lt,
    GtEq,
    LtEq,
    Eq,
    NotEq,
    And,
    Or,
    /// Any other binary operator, by its SQL spelling.
    Other(String),
}

#[derive(Debug, Clone, PartialEq)]
pub enum SqlValue {
    /// A numeric literal, as its token text.
    Number(String),
    Boolean(bool),
    Null,
    /// A string, date or other literal, by its SQL text.
    Other(String),
}

#[derive(Debug, PartialEq)]
pub enum SqlExpr {
    Identifier(String),
    Value(SqlValue),
    BinaryOp { left: Box<SqlExpr>, op: BinaryOperator, right: Box<SqlExpr> },
    IsNull(Box<SqlExpr>),
    IsNotNull(Box<SqlExpr>),
    /// A function call, CASE, subquery, unary operator, cast, ..., by its SQL text.
    Other(String),
}

#[derive(Debug, PartialEq)]
pub enum SelectItem {
    UnnamedExpr(SqlExpr),
    ExprWithAlias { expr: SqlExpr, alias: String },
    /// `t.*`, holding the qualifier `t`.
    QualifiedWildcard(String),
    Wildcard,
}

#[derive(Debug, Clone, PartialEq)]
pub enum TableFactor {
    /// A named table; the name's parts, as in `schema.table`.
    Table { name: Vec<String> },
    /// A derived table, table function, ..., by its SQL text.
    Other(String),
}

#[derive(Debug, Clone, PartialEq)]
pub struct TableWithJoins {
    pub relation: TableFactor,
    /// The joined relations, by their SQL text.
    pub joins: Vec<String>,
}

#[derive(Debug, PartialEq)]
pub struct OrderByExpr {
    pub expr: SqlExpr,
    /// `Some(true)` for ASC, `Some(false)` for DESC, `None` when unspecified.
    pub asc: Option<bool>,
}

#[derive(Debug, PartialEq)]
pub struct Select {
    pub projection: Vec<SelectItem>,
    pub from: Vec<TableWithJoins>,
    pub selection: Option<SqlExpr>,
}

#[derive(Debug, PartialEq)]
pub enum SetExpr {
    Select(Box<Select>),
    /// UNION, INTERSECT, EXCEPT, VALUES, ..., by its SQL text.
    Other(String),
}

#[derive(Debug, PartialEq)]
pub struct Query {
    pub body: SetExpr,
    pub order_by: Vec<OrderByExpr>,
    pub limit: Option<SqlExpr>,
    pub offset: Option<SqlExpr>,
}

#[derive(Debug, PartialEq)]
pub enum Statement {
    Query(Box<Query>),
    /// Any statement that is not a query (DDL, DML, ...), by its SQL text.
    Other(String),
}

} // verus!
