//! Query- and connection-shaped value types shared with the collaborator
//! interfaces: paging options and backend connection settings.

use vstd::prelude::*;

verus! {

/// Paging and ordering options of a query.
#[derive(Debug, Clone)]
pub struct QueryOptions {
    pub limit: Option<u64>,
    pub offset: Option<u64>,
    pub order_by: Option<String>,
    pub order_direction: Option<OrderDirection>,
}

/// The direction rows are ordered in.
#[derive(Debug, Clone, PartialEq, Eq, Structural)]
pub enum OrderDirection {
    Asc,
    Desc,
}

impl Default for QueryOptions {
    /// The neutral options: no limit, no offset, no ordering.
    fn default() -> (r: Self)
        ensures
            r.limit is None,
            r.offset is None,
            r.order_by is None,
            r.order_direction is None,
    {
        QueryOptions { limit: None, offset: None, order_by: None, order_direction: None }
    }
}

/// How to reach a database backend.
#[derive(Debug, Clone)]
pub struct DatabaseConfig {
    pub database_type: DatabaseType,
    pub host: String,
    pub port: u16,
    pub database: String,
    pub username: String,
    pub password: String,
    pub pool_size: Option<u32>,
    pub timeout: Option<u64>,
    pub ssl: Option<bool>,
}

/// The backend kinds a configuration can name.
#[derive(Debug, Clone, PartialEq, Eq, Structural)]
pub enum DatabaseType {
    Postgres,
    MySQL,
    SQLite,
    MongoDB,
}

} // verus!
