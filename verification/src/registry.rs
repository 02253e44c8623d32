//! The registry of the one active transaction driver.
//!
//! The execution context is single-threaded and cooperative: at any
//! moment at most one driver may be polling a transaction body. Running
//! a transaction binds the registry; a second transaction started while
//! the registry is bound is a nesting violation, to be answered by
//! aborting and raising a fatal error, never by running both. The
//! registry is an explicit check-and-set object handed through the call
//! chain, so the single-active-driver rule is enforced and not merely
//! assumed.

use vstd::prelude::*;

verus! {

/// The binding state of the execution context: whether some driver is
/// currently running a transaction body.
#[derive(Clone, Copy, Debug, PartialEq, Eq, Structural)]
pub struct Registry {
    /// True while a driver is bound.
    pub active: bool,
}

impl Registry {
    /// A registry with no driver bound.
    pub fn new() -> (r: Registry)
        ensures
            !r.active,
    {
        Registry { active: false }
    }

    /// Try to bind a driver. This succeeds exactly when no other driver
    /// is bound; a failure is a nesting violation that the caller must
    /// answer by aborting the transactions involved.
    pub fn try_enter(&mut self) -> (ok: bool)
        ensures
            ok == !old(self).active,
            final(self).active,
    {
        let was = self.active;
        self.active = true;
        !was
    }

    /// Release the binding when the bound driver's run ends.
    pub fn exit(&mut self)
        requires
            old(self).active,
        ensures
            !final(self).active,
    {
        self.active = false;
    }
}

} // verus!
