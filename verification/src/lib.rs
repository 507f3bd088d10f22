//! Statement construction and result materialisation for table-backed records.
//!
//! The crate turns a record that implements [`table::Table`] into an `INSERT`
//! statement, compiles a [`sqlite::query::QueryBuilder`] configuration into one
//! `SELECT` statement, and maps fetched rows back into records. Every value is
//! inlined as a literal; no statement carries bound parameters.
//!
//! Nothing here talks to a database: a statement leaves the crate as text,
//! and a result set enters it as rows of [`value::Value`].

pub mod error;
pub mod sqlite;
pub mod table;
pub mod text;
pub mod util;
pub mod value;
