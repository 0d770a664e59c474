//! The connection lifecycle wrapper: a handle that records a target location,
//! holds an optional pooled connection, and fails fast while uninitialized.
//!
//! Opening, querying and closing the pool are suspension points of the
//! underlying engine and happen outside this crate; the handle here carries
//! the pool, decides every state transition, and computes the engine URL.

use vstd::prelude::*;
use vstd::string::*;

use crate::error::DatabaseError;
use crate::error::DatabaseResult;
use crate::path::ends_with_seq;
use crate::path::is_default_path_shape;

verus! {

/// A live pooled connection to the engine. The pool inside is opaque to
/// this crate: it is carried through the handle's state transitions and
/// never inspected here. The engine's generic pool type cannot be declared
/// to the verifier here — its declaration would need the driver-trait bound
/// of `sqlx::Pool`, whose name collides with this crate's own `Database` —
/// so the whole wrapper is opaque and the field is public: the unverified
/// caller that opens the pool builds the wrapper around it and reads it
/// back out. The pool is reference-counted: clones of it, taken through the
/// public field, all operate against the same underlying pool.
#[verifier::external_body]
pub struct DatabaseConnection {
    /// The engine's pooled connection handle.
    pub pool: sqlx::SqlitePool,
}

/// The reserved location value that selects an in-memory database.
pub open spec fn in_memory_sentinel() -> Seq<char> {
    ":memory:"@
}

/// `path` with every backslash turned into a forward slash, as the engine's
/// URL wants separators.
pub open spec fn normalize_seps_spec(path: Seq<char>) -> Seq<char> {
    path.map_values(|c: char| if c == '\\' { '/' } else { c })
}

/// The engine URL a handle with location `path` connects to: the fixed
/// in-memory URL for the sentinel, else the `sqlite:` scheme in front of the
/// separator-normalized path.
pub open spec fn database_url_spec(path: Seq<char>) -> Seq<char> {
    if path == in_memory_sentinel() {
        "sqlite::memory:"@
    } else {
        "sqlite:"@ + normalize_seps_spec(path)
    }
}

/// Relies on String::push: appends the one character at the end.
#[verifier::external_body]
fn push_char(s: &mut String, c: char)
    ensures
        final(s)@ == old(s)@ + seq![c],
{
    s.push(c);
}

/// Compares two string slices character by character.
pub fn str_eq(a: &str, b: &str) -> (r: bool)
    ensures
        r == (a@ == b@),
{
    let a_len = a.unicode_len();
    let b_len = b.unicode_len();
    if a_len != b_len {
        return false;
    }
    let mut i: usize = 0;
    while i < a_len
        invariant
            a_len == a@.len(),
            a_len == b@.len(),
            i <= a_len,
            forall|j: int| 0 <= j < i ==> a@[j] == b@[j],
        decreases a_len - i,
    {
        if a.get_char(i) != b.get_char(i) {
            return false;
        }
        i = i + 1;
    }
    proof {
        assert(a@ =~= b@);
    }
    true
}

/// Turns every backslash of `path` into a forward slash.
pub fn normalize_separators(path: &str) -> (r: String)
    ensures
        r@ == normalize_seps_spec(path@),
{
    let n = path.unicode_len();
    let mut out = String::new();
    let mut i: usize = 0;
    while i < n
        invariant
            n == path@.len(),
            i <= n,
            out@ == normalize_seps_spec(path@.subrange(0, i as int)),
        decreases n - i,
    {
        let c = path.get_char(i);
        if c == '\\' {
            push_char(&mut out, '/');
        } else {
            push_char(&mut out, c);
        }
        proof {
            let mapped = if path@[i as int] == '\\' { '/' } else { path@[i as int] };
            assert(normalize_seps_spec(path@.subrange(0, i + 1)) =~= normalize_seps_spec(
                path@.subrange(0, i as int)) + seq![mapped]);
        }
        i = i + 1;
    }
    proof {
        assert(path@.subrange(0, n as int) =~= path@);
    }
    out
}

/// One logical database: a target location — a filesystem path or the
/// in-memory sentinel — and an optional live connection. While the
/// connection is absent the handle is uninitialized, and every operation
/// that needs the pool fails fast with `NotInitialized`.
pub struct Database {
    connection: Option<DatabaseConnection>,
    database_path: String,
}

impl Database {
    /// The handle's target location.
    pub closed spec fn path_spec(&self) -> Seq<char> {
        self.database_path@
    }

    /// The connection the handle holds, if any.
    pub closed spec fn connection_spec(&self) -> Option<DatabaseConnection> {
        self.connection
    }

    /// Whether the handle holds a live connection.
    pub open spec fn is_initialized(&self) -> bool {
        self.connection_spec() is Some
    }

    /// Whether the handle targets the in-memory database.
    pub open spec fn in_memory_spec(&self) -> bool {
        self.path_spec() == in_memory_sentinel()
    }

    /// `self` with `conn` installed: the state a successful initialization
    /// leaves the handle in.
    pub closed spec fn with_connection(self, conn: DatabaseConnection) -> Database {
        Database { connection: Some(conn), ..self }
    }

    /// Records the target location. No connection is opened, no filesystem
    /// access takes place; the new handle is uninitialized.
    pub fn new(database_path: &str) -> (r: Self)
        ensures
            !r.is_initialized(),
            r.path_spec() == database_path@,
    {
        Database { connection: None, database_path: database_path.to_owned() }
    }

    /// Records the in-memory sentinel as the target. The new handle is
    /// uninitialized.
    pub fn new_in_memory() -> (r: Self)
        ensures
            !r.is_initialized(),
            r.path_spec() == in_memory_sentinel(),
            r.in_memory_spec(),
    {
        Database { connection: None, database_path: ":memory:".to_owned() }
    }

    /// Records the default on-disk location as the target. Fails exactly as
    /// the path resolver does; the filesystem is not touched, and the new
    /// handle is uninitialized.
    pub fn new_default() -> (r: DatabaseResult<Database>)
        ensures
            r matches Ok(db) ==> !db.is_initialized() && is_default_path_shape(db.path_spec())
                && ends_with_seq(db.path_spec(), "data.db"@),
            r matches Err(e) ==> e is PathResolution,
    {
        match crate::path::get_default_database_path() {
            Ok(p) => Ok(Database::new(p.as_str())),
            Err(e) => Err(e),
        }
    }

    /// Whether the handle targets the in-memory database.
    pub fn is_in_memory(&self) -> (r: bool)
        ensures
            r == self.in_memory_spec(),
    {
        str_eq(self.database_path.as_str(), ":memory:")
    }

    /// The engine URL for this handle's target: the in-memory URL for the
    /// sentinel, else `sqlite:` in front of the separator-normalized path.
    pub fn database_url(&self) -> (r: String)
        ensures
            r@ == database_url_spec(self.path_spec()),
    {
        if str_eq(self.database_path.as_str(), ":memory:") {
            "sqlite::memory:".to_owned()
        } else {
            "sqlite:".to_owned().concat(normalize_separators(
                self.database_path.as_str()).as_str())
        }
    }

    /// Installs an opened connection: the state transition a successful
    /// initialization performs. The target location is untouched.
    pub fn install_connection(&mut self, conn: DatabaseConnection)
        ensures
            *final(self) == old(self).with_connection(conn),
            final(self).is_initialized(),
            final(self).connection_spec() == Some(conn),
            final(self).path_spec() == old(self).path_spec(),
    {
        self.connection = Some(conn);
    }

    /// The stored connection, or `NotInitialized` — and never a panic — if
    /// the handle holds none. A pure accessor: the handle is untouched, so a
    /// failed call leaves every later operation as possible as before.
    pub fn connection(&self) -> (r: DatabaseResult<&DatabaseConnection>)
        ensures
            r is Ok <==> self.is_initialized(),
            r matches Ok(c) ==> self.connection_spec() == Some(*c),
            r matches Err(e) ==> e is NotInitialized,
    {
        match &self.connection {
            Some(c) => Ok(c),
            None => Err(DatabaseError::NotInitialized),
        }
    }

    /// Schema management is a pass-through placeholder: it checks that the
    /// handle is initialized and does nothing else.
    pub fn create_tables(&self) -> (r: DatabaseResult<()>)
        ensures
            r is Ok <==> self.is_initialized(),
            r matches Err(e) ==> e is NotInitialized,
    {
        match self.connection() {
            Ok(_) => Ok(()),
            Err(e) => Err(e),
        }
    }

    /// Consumes the handle and hands back its connection, if one was
    /// installed. This is the closing transition: the handle is gone
    /// afterwards — ownership makes reuse impossible — and the caller
    /// releases the returned pool. A handle that was never initialized
    /// yields nothing and closing it is a no-op.
    pub fn into_connection(self) -> (r: Option<DatabaseConnection>)
        ensures
            r == self.connection_spec(),
    {
        let Database { connection, database_path: _ } = self;
        connection
    }
}

/// Installing a connection — the step a successful `initialize` performs —
/// leaves the handle initialized with that connection and its target
/// untouched, so `connection()` is owed success on it from then on.
pub proof fn lemma_install_initializes(db: Database, conn: DatabaseConnection)
    ensures
        db.with_connection(conn).is_initialized(),
        db.with_connection(conn).connection_spec() == Some(conn),
        db.with_connection(conn).path_spec() == db.path_spec(),
{
}

} // verus!
