//! A one-time initialization gate: arbitrarily many threads may ask for
//! the work, it runs exactly once, and every caller returns only after the
//! one run has completed.

use vstd::prelude::*;

verus! {

/// A synchronization primitive which can be used to run a one-time global
/// initialization.
pub struct Once {
    inner: std::sync::Once,
}

impl Once {
    /// A fresh gate whose work has not started.
    pub fn new() -> Once {
        Once { inner: crate::runtime::once_new() }
    }

    /// Performs an initialization routine idempotently: across every
    /// `call_once` on this gate the routine runs exactly once, and each
    /// caller returns only after the one run has completed. A completed
    /// gate is recognized up front, skipping the slow path entirely.
    pub fn call_once<F: FnOnce()>(&self, f: F)
        requires
            f.requires(()),
    {
        if crate::runtime::once_done(&self.inner) {
            return ;
        }
        self.call_once_slow(f);
    }

    /// The slow path behind `call_once`: hands the routine to the
    /// runtime's run-exactly-once operation.
    fn call_once_slow<F: FnOnce()>(&self, f: F)
        requires
            f.requires(()),
    {
        crate::runtime::once_call(&self.inner, f);
    }

    /// Returns `true` once some `call_once` call has completed.
    pub fn is_completed(&self) -> bool {
        crate::runtime::once_done(&self.inner)
    }
}

} // verus!
