//! A condition variable used together with a currently-held `Mutex` guard:
//! waiting gives the mutex up, sleeps, and reacquires the same mutex before
//! returning, so the caller is never without a guard except while blocked.
//!
//! Waiters take the condition variable's own small gate before giving the
//! user's mutex up, and keep it until the runtime's wait has parked them;
//! the notify calls pass through that gate before signalling. A notifier
//! therefore cannot slip its wakeup into the window between a waiter's
//! release of the mutex and the start of its sleep.

use vstd::prelude::*;

use crate::mutex::LockResult;
use crate::mutex::Mutex;
use crate::mutex::MutexGuard;
use crate::mutex::PoisonError;

verus! {

/// Whether a timed wait on a condition variable returned because its time
/// ran out rather than because of a notification.
#[derive(Debug, PartialEq, Eq, Copy, Clone, Structural)]
pub struct WaitTimeoutResult(bool);

impl WaitTimeoutResult {
    /// True when the wait is known to have timed out.
    pub closed spec fn timed_out_spec(self) -> bool {
        self.0
    }

    /// Returns `true` if the wait was known to have timed out.
    pub fn timed_out(&self) -> (r: bool)
        ensures
            r == self.timed_out_spec(),
    {
        self.0
    }
}

/// A wait queue, independent of any particular mutex until first used.
pub struct Condvar {
    gate: std::sync::Mutex<()>,
    queue: std::sync::Condvar,
}

impl Condvar {
    /// A fresh condition variable, ready to be waited on and notified.
    pub fn new() -> Condvar {
        Condvar { gate: crate::runtime::mutex_new(()), queue: crate::runtime::condvar_new() }
    }

    /// Releases the guard's mutex, sleeps until a notification or a
    /// spurious wakeup, reacquires the same mutex, and hands back a fresh
    /// guard over it; the guard comes back in both arms, wrapped in `Err`
    /// exactly when the reacquisition observed the poison flag set.
    pub fn wait<'a, T>(&self, guard: MutexGuard<'a, T>) -> (r: LockResult<MutexGuard<'a, T>>)
        requires
            guard.wf(),
        ensures
            match r {
                Ok(g) => g.wf() && !g.poisoned() && g.mutex() == guard.mutex(),
                Err(e) => e@.wf() && e@.poisoned() && e@.mutex() == guard.mutex(),
            },
    {
        let gate_guard = crate::runtime::mutex_lock(&self.gate);
        let mutex: &'a Mutex<T> = guard.release_for_wait();
        let gate_guard = crate::runtime::condvar_wait(&self.queue, gate_guard);
        crate::runtime::mutex_unlock(gate_guard);
        mutex.lock()
    }

    /// As `wait`, but gives up once `dur` has elapsed; the result's flag
    /// reports whether the time ran out before a notification arrived, and
    /// a timeout says nothing about poisoning.
    pub fn wait_timeout<'a, T>(&self, guard: MutexGuard<'a, T>, dur: core::time::Duration) -> (r:
        LockResult<(MutexGuard<'a, T>, WaitTimeoutResult)>)
        requires
            guard.wf(),
        ensures
            match r {
                Ok(p) => p.0.wf() && !p.0.poisoned() && p.0.mutex() == guard.mutex(),
                Err(e) => e@.0.wf() && e@.0.poisoned() && e@.0.mutex() == guard.mutex(),
            },
    {
        let gate_guard = crate::runtime::mutex_lock(&self.gate);
        let mutex: &'a Mutex<T> = guard.release_for_wait();
        let (gate_guard, timed_out) = crate::runtime::condvar_wait_timeout(
            &self.queue,
            gate_guard,
            dur,
        );
        crate::runtime::mutex_unlock(gate_guard);
        match mutex.lock() {
            Ok(g) => Ok((g, WaitTimeoutResult(timed_out))),
            Err(e) => Err(PoisonError::new((e.into_inner(), WaitTimeoutResult(timed_out)))),
        }
    }

    /// Wakes up one blocked waiter; doing nothing, and not an error, when
    /// nobody is waiting. The mutex itself is never touched.
    pub fn notify_one(&self) {
        let gate_guard = crate::runtime::mutex_lock(&self.gate);
        crate::runtime::mutex_unlock(gate_guard);
        crate::runtime::condvar_notify_one(&self.queue);
    }

    /// Wakes up all blocked waiters; doing nothing, and not an error, when
    /// nobody is waiting. The mutex itself is never touched.
    pub fn notify_all(&self) {
        let gate_guard = crate::runtime::mutex_lock(&self.gate);
        crate::runtime::mutex_unlock(gate_guard);
        crate::runtime::condvar_notify_all(&self.queue);
    }
}

} // verus!
