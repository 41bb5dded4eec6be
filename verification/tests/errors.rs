use invoice_intake::error::{AppError, ConfigError, PatternFault, StorageError, StorageFault};

#[test]
fn configuration_errors_are_fatal() {
    assert!(AppError::Configuration(ConfigError::MissingStorageLocation).is_fatal());
    assert!(AppError::Configuration(ConfigError::MissingInsertStatement).is_fatal());
    assert!(AppError::Configuration(ConfigError::MalformedPattern {
        field: "period".to_string(),
        fault: PatternFault::GroupCount { expected: 2, declared: 1 },
    })
    .is_fatal());
}

#[test]
fn decode_and_storage_errors_are_recoverable() {
    assert!(!AppError::Decode("truncated".to_string()).is_fatal());
    for fault in [
        StorageFault::Connection,
        StorageFault::Statement,
        StorageFault::Constraint,
        StorageFault::RowShape,
    ] {
        assert!(!AppError::Storage(StorageError { fault, detail: String::new() }).is_fatal());
    }
}

#[test]
fn configuration_messages() {
    assert_eq!(
        ConfigError::MissingStorageLocation.message(),
        "storage location is not configured"
    );
    assert_eq!(
        ConfigError::MissingInsertStatement.message(),
        "insert statement is not configured"
    );
    assert_eq!(
        ConfigError::MalformedPattern {
            field: "date due".to_string(),
            fault: PatternFault::Rejected { detail: "unclosed group".to_string() },
        }
        .message(),
        "malformed pattern for date due: unclosed group"
    );
    assert_eq!(
        ConfigError::MalformedPattern {
            field: "period".to_string(),
            fault: PatternFault::GroupCount { expected: 2, declared: 3 },
        }
        .message(),
        "malformed pattern for period: wrong number of capture groups"
    );
}

#[test]
fn pattern_fault_messages() {
    assert_eq!(PatternFault::Rejected { detail: "bad".to_string() }.message(), "bad");
    assert_eq!(
        PatternFault::GroupCount { expected: 1, declared: 0 }.message(),
        "wrong number of capture groups"
    );
}

#[test]
fn storage_messages() {
    assert_eq!(StorageFault::Connection.label(), "connection failure");
    assert_eq!(StorageFault::Statement.label(), "statement failure");
    assert_eq!(StorageFault::Constraint.label(), "constraint violation");
    assert_eq!(StorageFault::RowShape.label(), "unexpected row shape");
    assert_eq!(
        StorageError { fault: StorageFault::Constraint, detail: "NOT NULL".to_string() }.message(),
        "constraint violation: NOT NULL"
    );
}

#[test]
fn application_messages() {
    assert_eq!(
        AppError::Configuration(ConfigError::MissingStorageLocation).message(),
        "Configuration error: storage location is not configured"
    );
    assert_eq!(AppError::Decode("not a PDF".to_string()).message(), "Decode error: not a PDF");
    assert_eq!(
        AppError::Storage(StorageError {
            fault: StorageFault::Statement,
            detail: "no such table: invoices".to_string(),
        })
        .message(),
        "Storage error: statement failure: no such table: invoices"
    );
}

#[test]
fn errors_convert_into_the_application_error() {
    assert_eq!(
        AppError::from(ConfigError::MissingInsertStatement),
        AppError::Configuration(ConfigError::MissingInsertStatement)
    );
    let failure = StorageError { fault: StorageFault::Connection, detail: "down".to_string() };
    assert_eq!(AppError::from(failure.clone()), AppError::Storage(failure));
}
