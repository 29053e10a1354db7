//! The error union: the two ways a lifecycle operation can fail, kept apart
//! so a caller can tell a legitimate database rejection from an
//! infrastructure failure. No error is swallowed and none is retried here;
//! retry policy belongs to the caller or the pool framework.

use vstd::prelude::*;

verus! {

/// Unifies underlying-driver errors and dispatch failures into the one error
/// type the pool framework sees.
#[derive(Debug)]
pub enum ManagerError {
    /// The underlying driver rejected the operation (bad flags, missing
    /// file, read-only violation, malformed statement). Surfaced verbatim.
    Rusqlite(rusqlite::Error),
    /// The isolated worker thread running a blocking call panicked or was
    /// cancelled before completing.
    TokioJoin(tokio::task::JoinError),
}

/// What a lifecycle operation reports for each outcome of the one driver
/// call it makes: a success passes through untouched, and a driver rejection
/// is wrapped verbatim — never swallowed, never retried.
pub open spec fn driver_outcome_report<T>(outcome: Result<T, rusqlite::Error>) -> Result<
    T,
    ManagerError,
> {
    match outcome {
        Ok(v) => Ok(v),
        Err(e) => Err(ManagerError::Rusqlite(e)),
    }
}

/// Maps the outcome of one driver call to what the operation reports.
pub fn report_driver_outcome<T>(outcome: Result<T, rusqlite::Error>) -> (r: Result<
    T,
    ManagerError,
>)
    ensures
        r == driver_outcome_report(outcome),
{
    match outcome {
        Ok(v) => Ok(v),
        Err(e) => Err(ManagerError::Rusqlite(e)),
    }
}

impl core::convert::From<rusqlite::Error> for ManagerError {
    /// A driver error is wrapped verbatim.
    fn from(e: rusqlite::Error) -> (r: Self) {
        ManagerError::Rusqlite(e)
    }
}

impl vstd::std_specs::convert::FromSpecImpl<rusqlite::Error> for ManagerError {
    open spec fn obeys_from_spec() -> bool {
        true
    }

    open spec fn from_spec(e: rusqlite::Error) -> Self {
        ManagerError::Rusqlite(e)
    }
}

impl core::convert::From<tokio::task::JoinError> for ManagerError {
    /// A worker-join failure is wrapped verbatim.
    fn from(e: tokio::task::JoinError) -> (r: Self) {
        ManagerError::TokioJoin(e)
    }
}

impl vstd::std_specs::convert::FromSpecImpl<tokio::task::JoinError> for ManagerError {
    open spec fn obeys_from_spec() -> bool {
        true
    }

    open spec fn from_spec(e: tokio::task::JoinError) -> Self {
        ManagerError::TokioJoin(e)
    }
}

} // verus!
