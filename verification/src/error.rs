//! The error kinds of the library, with the diagnostic text each one renders.

use vstd::prelude::*;
use vstd::string::*;

verus! {

/// Every failure of the library, returned to the caller as a typed result.
/// Variants that wrap a diagnostic of an underlying layer carry it as text.
#[derive(Debug, Clone)]
pub enum DatabaseError {
    /// Engine-level open or execute failure, wrapping the engine's diagnostic.
    Connection(String),
    /// Migration failure (no migration runner exists; reserved).
    Migration(String),
    /// Engine-level failure of a query (syntax error, missing table, ...).
    Query(String),
    /// Structured-data encode or decode failure.
    Serialization(String),
    /// An operation that needs a live pool was attempted before `initialize`.
    NotInitialized,
    /// The home directory or profile variable could not be resolved.
    PathResolution(String),
    /// Creating the parent directory of the database file failed.
    DirectoryCreation(String),
    /// Filesystem-level failure outside directory creation.
    Io(String),
    /// A value did not have the shape the caller promised.
    InvalidData { message: String },
}

/// The result type every fallible operation of the library returns.
pub type DatabaseResult<T> = core::result::Result<T, DatabaseError>;

impl DatabaseError {
    /// The full diagnostic text of this error: a fixed prefix naming the
    /// kind, followed by the wrapped detail where the variant carries one.
    pub open spec fn message_spec(&self) -> Seq<char> {
        match self {
            DatabaseError::Connection(m) => "Database connection error: "@ + m@,
            DatabaseError::Migration(m) => "Migration error: "@ + m@,
            DatabaseError::Query(m) => "Query error: "@ + m@,
            DatabaseError::Serialization(m) => "Serialization error: "@ + m@,
            DatabaseError::NotInitialized => "Database not initialized"@,
            DatabaseError::PathResolution(m) => "Failed to resolve default database path: "@ + m@,
            DatabaseError::DirectoryCreation(m) => "Failed to create database directory: "@ + m@,
            DatabaseError::Io(m) => "IO error: "@ + m@,
            DatabaseError::InvalidData { message } => "Invalid data: "@ + message@,
        }
    }

    /// Renders the diagnostic text of this error.
    pub fn message(&self) -> (r: String)
        ensures
            r@ == self.message_spec(),
    {
        match self {
            DatabaseError::Connection(m) => "Database connection error: ".to_owned().concat(
                m.as_str(),
            ),
            DatabaseError::Migration(m) => "Migration error: ".to_owned().concat(m.as_str()),
            DatabaseError::Query(m) => "Query error: ".to_owned().concat(m.as_str()),
            DatabaseError::Serialization(m) => "Serialization error: ".to_owned().concat(
                m.as_str(),
            ),
            DatabaseError::NotInitialized => "Database not initialized".to_owned(),
            DatabaseError::PathResolution(m) => "Failed to resolve default database path: "
                .to_owned().concat(m.as_str()),
            DatabaseError::DirectoryCreation(m) => "Failed to create database directory: "
                .to_owned().concat(m.as_str()),
            DatabaseError::Io(m) => "IO error: ".to_owned().concat(m.as_str()),
            DatabaseError::InvalidData { message } => "Invalid data: ".to_owned().concat(
                message.as_str(),
            ),
        }
    }
}

} // verus!
