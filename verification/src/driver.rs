//! Trusted declarations for the parts of the `rusqlite` and `tokio` crates
//! that the verified logic touches: the opaque connection handle, the
//! access-flag bitset, the two crates' error types, and thin wrappers around
//! the driver calls that open a connection or probe its liveness.
//!
//! Whether an open or a probe succeeds depends on what is on disk and on the
//! state of the live connection, so the wrappers promise nothing about their
//! outcome; the verified callers state what holds whichever way the call went.

use vstd::prelude::*;

verus! {

/// `rusqlite::Connection`: the driver-owned handle for one open database
/// connection. Opaque here; the manager never retains one — custody belongs
/// to whichever caller currently holds it.
#[verifier::external_type_specification]
#[verifier::external_body]
pub struct ExConnection(rusqlite::Connection);

/// `rusqlite::OpenFlags`: the driver's bitset of access flags (read-only,
/// read-write, create, and so on). The logic never reads individual bits; a
/// value is stored at construction and handed back to the driver unchanged.
#[verifier::external_type_specification]
#[verifier::external_body]
pub struct ExOpenFlags(rusqlite::OpenFlags);

/// `rusqlite::Error`: the driver's native error, carried verbatim in the
/// library's error union.
#[verifier::external_type_specification]
#[verifier::external_body]
pub struct ExRusqliteError(rusqlite::Error);

/// `tokio::task::JoinError`: reported when an isolated worker thread running
/// a blocking call panicked or was cancelled before completing; carried
/// verbatim in the library's error union.
#[verifier::external_type_specification]
#[verifier::external_body]
pub struct ExJoinError(tokio::task::JoinError);

/// Relies on `rusqlite::Connection::open`: opens the database at `path` with
/// the driver's default flags. Success depends on what is on disk, so nothing
/// is promised of the outcome.
#[verifier::external_body]
pub(crate) fn open_plain(path: &str) -> Result<rusqlite::Connection, rusqlite::Error> {
    rusqlite::Connection::open(path)
}

/// Relies on `rusqlite::Connection::open_with_flags`: opens the database at
/// `path` with the given access flags. Success depends on what is on disk,
/// so nothing is promised of the outcome.
#[verifier::external_body]
pub(crate) fn open_with_flags(path: &str, flags: &rusqlite::OpenFlags) -> Result<
    rusqlite::Connection,
    rusqlite::Error,
> {
    rusqlite::Connection::open_with_flags(path, *flags)
}

/// Relies on `rusqlite::Connection::open_with_flags_and_vfs`: opens the
/// database at `path` with the given access flags through the storage backend
/// (VFS) registered under `vfs`. Success depends on what is on disk and on
/// which backends are registered, so nothing is promised of the outcome.
#[verifier::external_body]
pub(crate) fn open_with_flags_and_vfs(path: &str, flags: &rusqlite::OpenFlags, vfs: &str) -> Result<
    rusqlite::Connection,
    rusqlite::Error,
> {
    rusqlite::Connection::open_with_flags_and_vfs(path, *flags, vfs)
}

/// Relies on `rusqlite::Connection::execute_batch`: prepares and steps the
/// given SQL through the handle, accepting statements that return rows.
/// Success depends on the state of the live connection, so nothing is
/// promised of the outcome.
#[verifier::external_body]
pub(crate) fn run_batch(conn: &rusqlite::Connection, sql: &str) -> Result<(), rusqlite::Error> {
    conn.execute_batch(sql)
}

} // verus!
