//! Statements for the SQLite dialect.

pub mod condition;
pub mod insert;
pub mod order;
pub mod query;
pub mod rows;

pub use condition::{Condition, Operator};
pub use order::OrderBy;
pub use query::QueryBuilder;
