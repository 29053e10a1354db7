//! The connection manager: immutable connection options chosen at
//! construction and shared, read-only, by every duplicate of the manager;
//! and the three lifecycle operations the pool framework calls on it —
//! connect, is_valid and has_broken.

use std::sync::Arc;
use vstd::prelude::*;

use crate::driver;
use crate::error::report_driver_outcome;
use crate::error::ManagerError;

verus! {

/// The tagged choice of how a connection is opened. Chosen once at
/// construction and never mutated.
#[derive(Debug)]
pub enum OpenMode {
    /// Open with the driver's default flags.
    Plain,
    /// Open with an explicit access-flag bitset.
    WithFlags {
        /// The access flags handed to the driver unchanged.
        flags: rusqlite::OpenFlags,
    },
    /// Open with an explicit access-flag bitset through a named alternate
    /// storage backend (VFS) instead of the default filesystem backend.
    WithFlagsAndVFS {
        /// The access flags handed to the driver unchanged.
        flags: rusqlite::OpenFlags,
        /// The name under which the backend is registered with the driver.
        vfs: String,
    },
}

/// Immutable description of how to open one connection instance: the
/// filesystem location of the database plus the open mode.
#[derive(Debug)]
pub struct ConnectionOptions {
    /// The open mode variant.
    pub mode: OpenMode,
    /// The filesystem path of the database.
    pub path: String,
}

/// A manager of `rusqlite::Connection` instances for an asynchronous
/// connection pool: it opens handles, probes their liveness between reuses,
/// and never retains a handle itself — ownership passes to the pool
/// framework and from there to the caller.
#[derive(Debug)]
pub struct RusqliteConnectionManager(Arc<ConnectionOptions>);

/// Relies on `std::sync::Arc::clone`: the clone is a new reference to the
/// same allocation, so it carries the very same options.
#[verifier::external_body]
fn share_options(options: &Arc<ConnectionOptions>) -> (r: Arc<ConnectionOptions>)
    ensures
        r == *options,
{
    Arc::clone(options)
}

impl RusqliteConnectionManager {
    /// The shared connection options this manager was built with.
    pub closed spec fn options(self) -> ConnectionOptions {
        *self.0
    }

    /// Analogous to `rusqlite::Connection::open()`: the resulting manager
    /// opens `path` with the driver's default flags.
    pub fn new(path: &str) -> (r: Self)
        ensures
            r.options().path@ == path@,
            r.options().mode is Plain,
    {
        RusqliteConnectionManager(
            Arc::new(ConnectionOptions { mode: OpenMode::Plain, path: path.to_owned() }),
        )
    }

    /// Analogous to `rusqlite::Connection::open_with_flags()`: the resulting
    /// manager opens `path` with exactly the given access flags.
    pub fn new_with_flags(path: &str, flags: rusqlite::OpenFlags) -> (r: Self)
        ensures
            r.options().path@ == path@,
            r.options().mode == (OpenMode::WithFlags { flags }),
    {
        RusqliteConnectionManager(
            Arc::new(ConnectionOptions { mode: OpenMode::WithFlags { flags }, path: path.to_owned() }),
        )
    }

    /// Analogous to `rusqlite::Connection::open_with_flags_and_vfs()`: the
    /// resulting manager opens `path` with exactly the given access flags
    /// through the storage backend registered under `vfs`.
    pub fn new_with_flags_and_vfs(path: &str, flags: rusqlite::OpenFlags, vfs: &str) -> (r: Self)
        ensures
            r.options().path@ == path@,
            r.options().mode matches OpenMode::WithFlagsAndVFS { flags: f, vfs: v } && f == flags
                && v@ == vfs@,
    {
        RusqliteConnectionManager(
            Arc::new(
                ConnectionOptions {
                    mode: OpenMode::WithFlagsAndVFS { flags, vfs: vfs.to_owned() },
                    path: path.to_owned(),
                },
            ),
        )
    }

    /// Opens exactly one new connection handle using the stored options,
    /// selecting the driver call that matches the open mode. A failure is
    /// always the driver's own rejection, surfaced verbatim; this function
    /// involves no existing handle, so a caller may isolate it on a worker
    /// thread (`policy_for(Operation::Connect)` is `IsolatedWorker`) and
    /// report a worker failure as `ManagerError::TokioJoin` itself.
    pub fn connect(&self) -> (r: Result<rusqlite::Connection, ManagerError>)
        ensures
            r matches Err(e) ==> e is Rusqlite,
    {
        let opened = match &self.0.mode {
            OpenMode::Plain => driver::open_plain(self.0.path.as_str()),
            OpenMode::WithFlags { flags } => driver::open_with_flags(self.0.path.as_str(), flags),
            OpenMode::WithFlagsAndVFS { flags, vfs } => driver::open_with_flags_and_vfs(
                self.0.path.as_str(),
                flags,
                vfs.as_str(),
            ),
        };
        report_driver_outcome(opened)
    }

    /// Issues a trivial, side-effect-free round-trip statement through the
    /// checked-out handle to confirm it still accepts commands. A failure is
    /// always the driver's own rejection, which tells the pool framework to
    /// discard the handle. This call touches an existing, non-shareable
    /// handle, so it must run in place on the calling thread
    /// (`policy_for(Operation::IsValid)` is `InPlace`); the handle itself is
    /// left where it was.
    pub fn is_valid(&self, conn: &mut rusqlite::Connection) -> (r: Result<(), ManagerError>)
        ensures
            r matches Err(e) ==> e is Rusqlite,
            *final(conn) == *old(conn),
    {
        report_driver_outcome(driver::run_batch(conn, "SELECT 1"))
    }

    /// The fast, I/O-free pre-check: reports whether the handle is
    /// definitely unusable. Always false, by design: the only way a handle
    /// becomes unusable without the driver reporting it through `is_valid`
    /// is being closed, and closing consumes the handle, so a closed handle
    /// can never be observed here. Liveness is exclusively `is_valid`'s
    /// responsibility.
    pub fn has_broken(&self, conn: &mut rusqlite::Connection) -> (r: bool)
        ensures
            r == false,
            *final(conn) == *old(conn),
    {
        false
    }
}

impl Clone for RusqliteConnectionManager {
    /// Duplicating a manager is O(1) and shares the same underlying options;
    /// nothing is re-parsed and nothing may be mutated through the copy.
    fn clone(&self) -> (r: Self)
        ensures
            r == *self,
    {
        RusqliteConnectionManager(share_options(&self.0))
    }
}

} // verus!

