//! The blocking-dispatch policy: per lifecycle operation, whether a blocking
//! driver call may be isolated on a dedicated worker thread or must run in
//! place on the calling scheduler thread.
//!
//! The handle type forbids concurrent cross-thread access, so a call that
//! touches an existing handle must stay on the thread that borrows it;
//! only a call that involves no existing handle may move to a worker. The
//! policy is an explicit, proved function rather than a hidden heuristic, so
//! the concurrency contract is visible at every call site.

use vstd::prelude::*;

verus! {

/// How a blocking driver call is dispatched.
#[derive(Clone, Copy, Debug, PartialEq, Eq, Structural)]
pub enum DispatchPolicy {
    /// Run the call on a dedicated worker thread; the calling task suspends
    /// until the worker finishes or fails.
    IsolatedWorker,
    /// Run the call synchronously on the calling scheduler thread, blocking
    /// it for the call's duration.
    InPlace,
}

/// The three lifecycle operations the pool framework asks of a manager.
#[derive(Clone, Copy, Debug, PartialEq, Eq, Structural)]
pub enum Operation {
    /// Open a fresh connection handle.
    Connect,
    /// Probe a checked-out handle with a trivial round-trip statement.
    IsValid,
    /// The fast, I/O-free pre-check on a checked-out handle.
    HasBroken,
}

/// Whether the operation involves a handle that already exists — one the
/// pool framework or a caller is currently borrowing. Opening a fresh handle
/// does not; both checks on a checked-out handle do.
pub open spec fn touches_existing_handle(op: Operation) -> bool {
    match op {
        Operation::Connect => false,
        Operation::IsValid => true,
        Operation::HasBroken => true,
    }
}

/// The dispatch policy for one operation: isolate the call on a worker
/// thread exactly when no existing handle is involved, since a fresh
/// handle's only owner is the task that asked for it.
pub open spec fn policy_for(op: Operation) -> DispatchPolicy {
    if touches_existing_handle(op) {
        DispatchPolicy::InPlace
    } else {
        DispatchPolicy::IsolatedWorker
    }
}

/// Picks the dispatch strategy for one lifecycle operation.
pub fn dispatch_policy(op: Operation) -> (p: DispatchPolicy)
    ensures
        p == policy_for(op),
{
    match op {
        Operation::Connect => DispatchPolicy::IsolatedWorker,
        Operation::IsValid => DispatchPolicy::InPlace,
        Operation::HasBroken => DispatchPolicy::InPlace,
    }
}

/// Law: a call is moved to an isolated worker thread exactly when it touches
/// no existing handle, so the policy never shares a borrowed,
/// non-shareable handle across threads.
pub proof fn lemma_isolated_dispatch_is_safe(op: Operation)
    ensures
        policy_for(op) == DispatchPolicy::IsolatedWorker <==> !touches_existing_handle(op),
{
}

} // verus!
