//! Translation of a restricted SQL `SELECT` into an execution plan for a
//! tabular engine, over a data source named by a URL or a file path.

pub mod ast;
pub mod dialect;
pub mod error;
pub mod number;
pub mod pipeline;
pub mod plan;
pub mod query;
pub mod source;
pub mod translate;

pub use dialect::URLDialect;
pub use error::QueryError;
pub use plan::{Expr, LiteralValue, Operator, Plan};
pub use source::FetchTarget;
