//! The failures that statement construction, execution and row mapping
//! report.

use vstd::prelude::*;

verus! {

/// What is wrong with a record that no `INSERT` statement can be composed for.
#[derive(Debug, Clone, Copy, PartialEq, Eq)]
pub enum GenerationFault {
    /// The record declares no column field.
    NoColumns,
    /// The record reports `values` column values for `fields` column fields.
    Misaligned { fields: usize, values: usize },
}

/// Every failure is a value handed back to the caller; nothing here aborts.
#[derive(Debug, PartialEq, Eq)]
pub enum Error {
    /// The statement could not be composed from what the record reports.
    StatementGeneration(GenerationFault),
    /// The driver failed to prepare, execute or commit a statement, or to
    /// fetch a row.
    Execution(String),
    /// Result row `row` has no value at column position `column`.
    RowMapping { row: usize, column: usize },
    /// The connection is invalid or no transaction could be opened on it.
    Connection(String),
}

/// What a driver is doing when it fails.
#[derive(Debug, Clone, Copy, PartialEq, Eq)]
pub enum DriverStep {
    /// Opening a transaction on the connection.
    Begin,
    /// Preparing a statement from its text.
    Prepare,
    /// Executing a prepared statement.
    Execute,
    /// Fetching the next row of a result set.
    Fetch,
    /// Committing the open transaction.
    Commit,
}

/// The failure that a driver's failure at `step` is reported as: a
/// transaction that cannot be opened is a failure of the connection, every
/// later step fails the execution.
pub open spec fn driver_failure(step: DriverStep, message: String) -> Error {
    match step {
        DriverStep::Begin => Error::Connection(message),
        _ => Error::Execution(message),
    }
}

impl Clone for Error {
    fn clone(&self) -> (copy: Self)
        ensures
            copy == *self,
    {
        match self {
            Error::StatementGeneration(fault) => Error::StatementGeneration(*fault),
            Error::Execution(message) => Error::Execution(message.clone()),
            Error::RowMapping { row, column } => Error::RowMapping { row: *row, column: *column },
            Error::Connection(message) => Error::Connection(message.clone()),
        }
    }
}

impl Error {
    /// Reports the failure of a driver at `step`, with the driver's own
    /// `message`.
    pub fn from_driver(step: DriverStep, message: String) -> (error: Error)
        ensures
            error == driver_failure(step, message),
    {
        match step {
            DriverStep::Begin => Error::Connection(message),
            _ => Error::Execution(message),
        }
    }
}

} // verus!
