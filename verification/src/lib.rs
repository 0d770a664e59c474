//! A thin convenience layer over an embedded SQL engine: a resolver for the
//! default on-disk database location, and a lifecycle wrapper that owns an
//! optional pooled connection handle and fails fast while uninitialized.

pub mod database;
pub mod error;
pub mod models;
pub mod path;
pub mod types;

pub use database::Database;
pub use database::DatabaseConnection;
pub use error::DatabaseError;
pub use error::DatabaseResult;
pub use path::get_default_database_path;
pub use path::is_windows;
