//! The error taxonomy: configuration errors stop the process at startup,
//! decode and storage errors are reported and survived.

use vstd::prelude::*;

verus! {

/// Why a declared pattern cannot be used.
#[derive(Clone, Debug, PartialEq, Eq)]
pub enum PatternFault {
    /// The engine refuses the expression; `detail` is its explanation.
    Rejected { detail: String },
    /// The pattern declares another number of capture groups than its
    /// fields need.
    GroupCount { expected: usize, declared: usize },
}

/// A configuration error. Each is fatal at startup.
#[derive(Clone, Debug, PartialEq, Eq)]
pub enum ConfigError {
    /// No storage location is configured.
    MissingStorageLocation,
    /// No insert statement is configured.
    MissingInsertStatement,
    /// The pattern named `field` cannot be used.
    MalformedPattern { field: String, fault: PatternFault },
}

/// What went wrong in the storage layer.
#[derive(Clone, Copy, Debug, PartialEq, Eq, Structural)]
pub enum StorageFault {
    /// The store could not be reached or opened.
    Connection,
    /// The store refused the statement.
    Statement,
    /// The store's constraints refused the row.
    Constraint,
    /// A stored row does not have the four expected columns.
    RowShape,
}

/// A storage error, with the driver's explanation.
#[derive(Clone, Debug, PartialEq, Eq)]
pub struct StorageError {
    pub fault: StorageFault,
    pub detail: String,
}

/// Any error the pipeline reports.
#[derive(Clone, Debug, PartialEq, Eq)]
pub enum AppError {
    /// Missing or malformed configuration.
    Configuration(ConfigError),
    /// The document could not be turned into text; holds the decoder's
    /// explanation.
    Decode(String),
    /// The store failed on insert or fetch.
    Storage(StorageError),
}

impl PatternFault {
    /// The text of [`PatternFault::message`].
    pub open spec fn message_text(self) -> Seq<char> {
        match self {
            PatternFault::Rejected { detail } => detail@,
            PatternFault::GroupCount { .. } => "wrong number of capture groups"@,
        }
    }

    /// A description for the log.
    pub fn message(&self) -> (text: String)
        ensures
            text@ == self.message_text(),
    {
        match self {
            PatternFault::Rejected { detail } => detail.clone(),
            PatternFault::GroupCount { .. } => "wrong number of capture groups".to_owned(),
        }
    }
}

impl ConfigError {
    /// The text of [`ConfigError::message`].
    pub open spec fn message_text(self) -> Seq<char> {
        match self {
            ConfigError::MissingStorageLocation => "storage location is not configured"@,
            ConfigError::MissingInsertStatement => "insert statement is not configured"@,
            ConfigError::MalformedPattern { field, fault } => "malformed pattern for "@ + field@
                + ": "@ + fault.message_text(),
        }
    }

    /// A description for the log.
    pub fn message(&self) -> (text: String)
        ensures
            text@ == self.message_text(),
    {
        match self {
            ConfigError::MissingStorageLocation => "storage location is not configured".to_owned(),
            ConfigError::MissingInsertStatement => "insert statement is not configured".to_owned(),
            ConfigError::MalformedPattern { field, fault } => {
                let mut text = "malformed pattern for ".to_owned();
                text.append(field.as_str());
                text.append(": ");
                let reason = fault.message();
                text.append(reason.as_str());
                text
            },
        }
    }
}

impl StorageFault {
    /// The text of [`StorageFault::label`].
    pub open spec fn label_text(self) -> Seq<char> {
        match self {
            StorageFault::Connection => "connection failure"@,
            StorageFault::Statement => "statement failure"@,
            StorageFault::Constraint => "constraint violation"@,
            StorageFault::RowShape => "unexpected row shape"@,
        }
    }

    /// A short name for the kind of failure.
    pub fn label(&self) -> (text: String)
        ensures
            text@ == self.label_text(),
    {
        match self {
            StorageFault::Connection => "connection failure".to_owned(),
            StorageFault::Statement => "statement failure".to_owned(),
            StorageFault::Constraint => "constraint violation".to_owned(),
            StorageFault::RowShape => "unexpected row shape".to_owned(),
        }
    }
}

impl StorageError {
    /// The text of [`StorageError::message`].
    pub open spec fn message_text(self) -> Seq<char> {
        self.fault.label_text() + ": "@ + self.detail@
    }

    /// A description for the log.
    pub fn message(&self) -> (text: String)
        ensures
            text@ == self.message_text(),
    {
        let mut text = self.fault.label();
        text.append(": ");
        text.append(self.detail.as_str());
        text
    }
}

impl AppError {
    /// Only configuration errors are fatal; decode and storage errors are
    /// reported and the process goes on.
    pub open spec fn fatal(self) -> bool {
        self is Configuration
    }

    /// The text of [`AppError::message`].
    pub open spec fn message_text(self) -> Seq<char> {
        match self {
            AppError::Configuration(error) => "Configuration error: "@ + error.message_text(),
            AppError::Decode(detail) => "Decode error: "@ + detail@,
            AppError::Storage(error) => "Storage error: "@ + error.message_text(),
        }
    }

    /// Whether the process must stop.
    pub fn is_fatal(&self) -> (fatal: bool)
        ensures
            fatal == self.fatal(),
    {
        match self {
            AppError::Configuration(_) => true,
            _ => false,
        }
    }

    /// A description for the log and for the user.
    pub fn message(&self) -> (text: String)
        ensures
            text@ == self.message_text(),
    {
        match self {
            AppError::Configuration(error) => {
                let mut text = "Configuration error: ".to_owned();
                let detail = error.message();
                text.append(detail.as_str());
                text
            },
            AppError::Decode(detail) => {
                let mut text = "Decode error: ".to_owned();
                text.append(detail.as_str());
                text
            },
            AppError::Storage(error) => {
                let mut text = "Storage error: ".to_owned();
                let detail = error.message();
                text.append(detail.as_str());
                text
            },
        }
    }
}

impl From<ConfigError> for AppError {
    fn from(error: ConfigError) -> (wrapped: AppError) {
        AppError::Configuration(error)
    }
}

impl vstd::std_specs::convert::FromSpecImpl<ConfigError> for AppError {
    open spec fn obeys_from_spec() -> bool {
        true
    }

    open spec fn from_spec(error: ConfigError) -> AppError {
        AppError::Configuration(error)
    }
}

impl From<StorageError> for AppError {
    fn from(error: StorageError) -> (wrapped: AppError) {
        AppError::Storage(error)
    }
}

impl vstd::std_specs::convert::FromSpecImpl<StorageError> for AppError {
    open spec fn obeys_from_spec() -> bool {
        true
    }

    open spec fn from_spec(error: StorageError) -> AppError {
        AppError::Storage(error)
    }
}

} // verus!
