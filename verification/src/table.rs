//! What a record type provides to be written to and read from storage.

use vstd::prelude::*;
use crate::value::Value;

verus! {

/// A record that is stored in a table.
///
/// The column fields and the column values are aligned by position: the value
/// at a position belongs to the field at that position, so both lists have
/// the same length. Rows are written back in the order of the fields.
pub trait Table {
    /// The name of the table that holds the records of this type.
    fn get_name(&self) -> &str;

    /// The names of the column fields, in their declared order.
    fn get_column_fields(&self) -> Vec<String>;

    /// The current column values, in the order of the fields.
    fn get_column_values(&self) -> Vec<Value>;

    /// Stores `value` in the field named `column`.
    fn set_column_value(&mut self, column: &str, value: Value);
}

} // verus!
