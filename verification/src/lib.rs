//! An adapter that lets the `bb8` asynchronous connection pool manage
//! synchronous `rusqlite::Connection` handles.
//!
//! The library owns the pool-facing lifecycle logic: how a pooled connection
//! is opened ([`RusqliteConnectionManager::connect`]), how its liveness is
//! probed between reuses ([`RusqliteConnectionManager::is_valid`] and
//! [`RusqliteConnectionManager::has_broken`]), and which dispatch strategy a
//! blocking driver call may use without stalling a cooperative scheduler
//! ([`dispatch_policy`]). The asynchronous plumbing that runs those calls on
//! a runtime lives outside the library.
//!
//! In-memory databases are not supported: each in-memory instance is private
//! to a single connection, so pooling one is meaningless.

mod dispatch;
mod driver;
mod error;
mod manager;

pub use dispatch::dispatch_policy;
pub use dispatch::lemma_isolated_dispatch_is_safe;
pub use dispatch::policy_for;
pub use dispatch::touches_existing_handle;
pub use dispatch::DispatchPolicy;
pub use dispatch::Operation;
pub use error::driver_outcome_report;
pub use error::report_driver_outcome;
pub use error::ManagerError;
pub use manager::ConnectionOptions;
pub use manager::OpenMode;
pub use manager::RusqliteConnectionManager;
