//! The execution-ready plan and the engine-native expression tree.
use vstd::prelude::*;

verus! {

/// A literal of the engine. A number keeps its token text and is read by the
/// engine as a 64-bit float.
#[derive(Debug, Clone, PartialEq)]
pub enum LiteralValue {
    Float64(String),
    Boolean(bool),
    Null,
}

#[derive(Debug, Clone, Copy, PartialEq, Eq)]
pub enum Operator {
    Plus,
    Minus,
    Multiply,
    Divide,
    Modulus,
    Gt,
    Lt,
    GtEq,
    LtEq,
    Eq,
    NotEq,
    And,
    Or,
}

#[derive(Debug, PartialEq)]
pub enum Expr {
    Column(String),
    /// All columns.
    Wildcard,
    Literal(LiteralValue),
    Alias(Box<Expr>, String),
    BinaryExpr { left: Box<Expr>, op: Operator, right: Box<Expr> },
    IsNull(Box<Expr>),
    IsNotNull(Box<Expr>),
}

/// A query, ready for the engine. It holds no fetched data.
#[derive(Debug, PartialEq)]
pub struct Plan {
    /// The output columns, in order.
    pub selection: Vec<Expr>,
    /// The row filter.
    pub condition: Option<Expr>,
    /// The URL or path of the data, unfetched.
    pub source: String,
    /// Sort keys in order: column name and whether descending.
    pub order_by: Vec<(String, bool)>,
    /// Rows skipped, 0 by default.
    pub offset: i64,
    /// Rows kept, unbounded when `None`.
    pub limit: Option<usize>,
}

pub struct PlanView {
    pub selection: Seq<Expr>,
    pub condition: Option<Expr>,
    pub source: Seq<char>,
    pub order_by: Seq<(String, bool)>,
    pub offset: i64,
    pub limit: Option<usize>,
}

impl View for Plan {
    type V = PlanView;

    open spec fn view(&self) -> PlanView {
        PlanView {
            selection: self.selection@,
            condition: self.condition,
            source: self.source@,
            order_by: self.order_by@,
            offset: self.offset,
            limit: self.limit,
        }
    }
}

} // verus!
