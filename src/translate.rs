//! From the parsed statement to the plan: every supported construct is mapped,
//! the first unsupported one is refused.
use vstd::prelude::*;
use crate::ast::{BinaryOperator, SqlExpr, SqlValue, SelectItem};
use crate::error::QueryError;
use crate::plan::{Expr, LiteralValue, Operator};

verus! {

pub open spec fn spec_operator(op: BinaryOperator) -> Result<Operator, QueryError> {
    match op {
        BinaryOperator::Plus => Ok(Operator::Plus),
        BinaryOperator::Minus => Ok(Operator::Minus),
        BinaryOperator::Multiply => Ok(Operator::Multiply),
        BinaryOperator::Divide => Ok(Operator::Divide),
        BinaryOperator::Modulo => Ok(Operator::Modulus),
        BinaryOperator::Gt => Ok(Operator::Gt),
        BinaryOperator::Lt => Ok(Operator::Lt),
        BinaryOperator::GtEq => Ok(Operator::GtEq),
        BinaryOperator::LtEq => Ok(Operator::LtEq),
        BinaryOperator::Eq => Ok(Operator::Eq),
        BinaryOperator::NotEq => Ok(Operator::NotEq),
        BinaryOperator::And => Ok(Operator::And),
        BinaryOperator::Or => Ok(Operator::Or),
        BinaryOperator::Other(name) => Err(QueryError::UnsupportedOperator(name)),
    }
}

pub fn translate_operator(op: BinaryOperator) -> (r: Result<Operator, QueryError>)
    ensures
        r == spec_operator(op),
{
    match op {
        BinaryOperator::Plus => Ok(Operator::Plus),
        BinaryOperator::Minus => Ok(Operator::Minus),
        BinaryOperator::Multiply => Ok(Operator::Multiply),
        BinaryOperator::Divide => Ok(Operator::Divide),
        BinaryOperator::Modulo => Ok(Operator::Modulus),
        BinaryOperator::Gt => Ok(Operator::Gt),
        BinaryOperator::Lt => Ok(Operator::Lt),
        BinaryOperator::GtEq => Ok(Operator::GtEq),
        BinaryOperator::LtEq => Ok(Operator::LtEq),
        BinaryOperator::Eq => Ok(Operator::Eq),
        BinaryOperator::NotEq => Ok(Operator::NotEq),
        BinaryOperator::And => Ok(Operator::And),
        BinaryOperator::Or => Ok(Operator::Or),
        BinaryOperator::Other(name) => Err(QueryError::UnsupportedOperator(name)),
    }
}

/// The operator table is one to one: each supported operator has its own
/// engine operator, and every other operator is refused by name.
pub proof fn lemma_operator_table(a: BinaryOperator, b: BinaryOperator)
    ensures
        a is Other <==> spec_operator(a) is Err,
        a is Other ==> spec_operator(a) == Err::<Operator, QueryError>(
            QueryError::UnsupportedOperator(a->Other_0),
        ),
        spec_operator(a) is Ok && spec_operator(a) == spec_operator(b) ==> a == b,
{
}

pub open spec fn spec_literal(v: SqlValue) -> Result<LiteralValue, QueryError> {
    match v {
        SqlValue::Number(text) => Ok(LiteralValue::Float64(text)),
        SqlValue::Boolean(b) => Ok(LiteralValue::Boolean(b)),
        SqlValue::Null => Ok(LiteralValue::Null),
        SqlValue::Other(text) => Err(QueryError::UnsupportedLiteral(text)),
    }
}

/// Every numeric literal, integer or decimal, becomes a 64-bit float literal
/// of its token text; booleans and NULL map to themselves; a string, date or
/// any other literal is refused.
pub proof fn lemma_literal_coercion(v: SqlValue)
    ensures
        v is Number ==> spec_literal(v) == Ok::<LiteralValue, QueryError>(
            LiteralValue::Float64(v->Number_0),
        ),
        v is Boolean ==> spec_literal(v) == Ok::<LiteralValue, QueryError>(
            LiteralValue::Boolean(v->Boolean_0),
        ),
        v is Null ==> spec_literal(v) == Ok::<LiteralValue, QueryError>(LiteralValue::Null),
        v is Other ==> spec_literal(v) == Err::<LiteralValue, QueryError>(
            QueryError::UnsupportedLiteral(v->Other_0),
        ),
{
}

/// Numbers become 64-bit floats, booleans and NULL stay what they are; any
/// other literal is refused.
pub fn translate_literal(v: SqlValue) -> (r: Result<LiteralValue, QueryError>)
    ensures
        r == spec_literal(v),
{
    match v {
        SqlValue::Number(text) => Ok(LiteralValue::Float64(text)),
        SqlValue::Boolean(b) => Ok(LiteralValue::Boolean(b)),
        SqlValue::Null => Ok(LiteralValue::Null),
        SqlValue::Other(text) => Err(QueryError::UnsupportedLiteral(text)),
    }
}

pub open spec fn spec_expr(e: SqlExpr) -> Result<Expr, QueryError>
    decreases e,
{
    match e {
        SqlExpr::Identifier(name) => Ok(Expr::Column(name)),
        SqlExpr::Value(v) => match spec_literal(v) {
            Ok(l) => Ok(Expr::Literal(l)),
            Err(err) => Err(err),
        },
        SqlExpr::BinaryOp { left, op, right } => match spec_expr(*left) {
            Err(err) => Err(err),
            Ok(l) => match spec_operator(op) {
                Err(err) => Err(err),
                Ok(o) => match spec_expr(*right) {
                    Err(err) => Err(err),
                    Ok(r) => Ok(Expr::BinaryExpr { left: Box::new(l), op: o, right: Box::new(r) }),
                },
            },
        },
        SqlExpr::IsNull(inner) => match spec_expr(*inner) {
            Ok(x) => Ok(Expr::IsNull(Box::new(x))),
            Err(err) => Err(err),
        },
        SqlExpr::IsNotNull(inner) => match spec_expr(*inner) {
            Ok(x) => Ok(Expr::IsNotNull(Box::new(x))),
            Err(err) => Err(err),
        },
        SqlExpr::Other(text) => Err(QueryError::UnsupportedExpression(text)),
    }
}

/// Rebuilds a scalar expression node for node in the engine's tree; the first
/// unsupported node, left operand before operator before right operand, ends
/// the translation.
pub fn translate_expr(e: SqlExpr) -> (r: Result<Expr, QueryError>)
    ensures
        r == spec_expr(e),
    decreases e,
{
    match e {
        SqlExpr::Identifier(name) => Ok(Expr::Column(name)),
        SqlExpr::Value(v) => match translate_literal(v) {
            Ok(l) => Ok(Expr::Literal(l)),
            Err(err) => Err(err),
        },
        SqlExpr::BinaryOp { left, op, right } => match translate_expr(*left) {
            Err(err) => Err(err),
            Ok(l) => match translate_operator(op) {
                Err(err) => Err(err),
                Ok(o) => match translate_expr(*right) {
                    Err(err) => Err(err),
                    Ok(r) => Ok(Expr::BinaryExpr { left: Box::new(l), op: o, right: Box::new(r) }),
                },
            },
        },
        SqlExpr::IsNull(inner) => match translate_expr(*inner) {
            Ok(x) => Ok(Expr::IsNull(Box::new(x))),
            Err(err) => Err(err),
        },
        SqlExpr::IsNotNull(inner) => match translate_expr(*inner) {
            Ok(x) => Ok(Expr::IsNotNull(Box::new(x))),
            Err(err) => Err(err),
        },
        SqlExpr::Other(text) => Err(QueryError::UnsupportedExpression(text)),
    }
}

pub open spec fn spec_projection(item: SelectItem) -> Result<Expr, QueryError> {
    match item {
        SelectItem::UnnamedExpr(SqlExpr::Identifier(name)) => Ok(Expr::Column(name)),
        SelectItem::ExprWithAlias { expr: SqlExpr::Identifier(name), alias } => Ok(
            Expr::Alias(Box::new(Expr::Column(name)), alias),
        ),
        SelectItem::QualifiedWildcard(qualifier) => Ok(Expr::Column(qualifier)),
        SelectItem::Wildcard => Ok(Expr::Wildcard),
        other => Err(QueryError::UnsupportedProjection(other)),
    }
}

/// A bare column, an aliased column, `t.*` (a selection by the qualifier) or
/// `*`; anything else is refused.
pub fn translate_projection(item: SelectItem) -> (r: Result<Expr, QueryError>)
    ensures
        r == spec_projection(item),
{
    match item {
        SelectItem::UnnamedExpr(SqlExpr::Identifier(name)) => Ok(Expr::Column(name)),
        SelectItem::ExprWithAlias { expr: SqlExpr::Identifier(name), alias } => Ok(
            Expr::Alias(Box::new(Expr::Column(name)), alias),
        ),
        SelectItem::QualifiedWildcard(qualifier) => Ok(Expr::Column(qualifier)),
        SelectItem::Wildcard => Ok(Expr::Wildcard),
        other => Err(QueryError::UnsupportedProjection(other)),
    }
}

} // verus!
