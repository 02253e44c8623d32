//! The scope-exit liveness verdict.
//!
//! While a transaction runs, the driver's state lives on the caller's
//! stack but is referenced from host callbacks that are not bound by the
//! enclosing call's lifetime. When the enclosing call's own result is
//! ready, that borrowed state must be fully released: the callback that
//! builds the state must have been consumed or dropped, and no handle to
//! the built state may remain. If either check fails, a host callback
//! could later fire against invalid memory; the only safe answer is to
//! abort the whole process, never to continue or to return an error
//! value. The decision is made here; acting on it belongs to the caller.

use vstd::prelude::*;

verus! {

/// What the liveness check found at scope exit.
#[derive(Clone, Copy, Debug, PartialEq, Eq, Structural)]
pub enum ScopeVerdict {
    /// The borrowed state was fully released; the result may be
    /// returned.
    Clean,
    /// The state-building callback escaped the scope without being
    /// consumed or dropped: fatal, the process must abort.
    CallbackLeaked,
    /// A handle to the driver's state is still outstanding, so a host
    /// callback could still fire against it: fatal, the process must
    /// abort.
    StateLeaked,
}

/// Decide the scope-exit verdict from what the guard observed: whether
/// the state-building callback was released, and, if the state was ever
/// built, how many strong handles to it remain.
pub fn scope_exit_verdict(callback_released: bool, remaining_handles: Option<usize>) -> (v:
    ScopeVerdict)
    ensures
        !callback_released ==> v is CallbackLeaked,
        callback_released && (remaining_handles matches Some(n) && n > 0) ==> v is StateLeaked,
        callback_released && (remaining_handles matches Some(n) && n == 0
            || remaining_handles is None) ==> v is Clean,
{
    if !callback_released {
        ScopeVerdict::CallbackLeaked
    } else {
        match remaining_handles {
            Some(n) if n > 0 => ScopeVerdict::StateLeaked,
            _ => ScopeVerdict::Clean,
        }
    }
}

} // verus!
