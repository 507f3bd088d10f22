use njord::error::{DriverStep, Error, GenerationFault};

#[test]
fn a_transaction_that_cannot_be_opened_fails_the_connection() {
    assert_eq!(
        Error::from_driver(DriverStep::Begin, "database is locked".to_string()),
        Error::Connection("database is locked".to_string())
    );
}

#[test]
fn later_steps_fail_the_execution() {
    for step in [DriverStep::Prepare, DriverStep::Execute, DriverStep::Fetch, DriverStep::Commit] {
        assert_eq!(
            Error::from_driver(step, "no such table: users".to_string()),
            Error::Execution("no such table: users".to_string())
        );
    }
}

#[test]
fn a_cloned_error_is_equal() {
    let errors = vec![
        Error::StatementGeneration(GenerationFault::NoColumns),
        Error::StatementGeneration(GenerationFault::Misaligned { fields: 2, values: 3 }),
        Error::Execution("syntax error".to_string()),
        Error::RowMapping { row: 1, column: 2 },
        Error::Connection("closed".to_string()),
    ];
    for error in &errors {
        assert_eq!(&error.clone(), error);
    }
}
