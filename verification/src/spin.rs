//! A minimal exclusive lock that busy-waits: acquisition spins on the
//! verifier-checked lock around the value instead of parking the thread.
//! It carries no poison flag; the heavier `Mutex` is the primitive with
//! the full release discipline.

use vstd::prelude::*;

use crate::mutex::AnyValue;

verus! {

/// A simple spinning exclusive lock around a value of type `T`.
pub struct SpinLock<T> {
    cell: vstd::rwlock::RwLock<T, AnyValue>,
}

/// The scoped handle to a spin lock's value: it owns the value while live
/// and gives the lock back through `unlock`.
pub struct SpinLockGuard<'a, T> {
    lock: &'a SpinLock<T>,
    handle: vstd::rwlock::WriteHandle<'a, T, AnyValue>,
    value: T,
}

impl<'a, T> View for SpinLockGuard<'a, T> {
    type V = T;

    closed spec fn view(&self) -> T {
        self.value
    }
}

impl<'a, T> SpinLockGuard<'a, T> {
    /// A guard must give its value back to the lock it came from.
    pub closed spec fn wf(self) -> bool {
        self.handle.rwlock() == self.lock.cell
    }

    /// The lock this guard scopes access to.
    pub closed spec fn spinlock(self) -> SpinLock<T> {
        *self.lock
    }

    /// The protected value, readable while the guard is live.
    pub fn borrow(&self) -> (r: &T)
        ensures
            *r == self@,
    {
        &self.value
    }

    /// The protected value, writable while the guard is live.
    pub fn borrow_mut(&mut self) -> (r: &mut T)
        requires
            old(self).wf(),
        ensures
            *r == old(self)@,
            final(self)@ == *final(r),
            final(self).wf(),
            final(self).spinlock() == old(self).spinlock(),
    {
        &mut self.value
    }

    /// Replaces the protected value.
    pub fn set(&mut self, value: T)
        requires
            old(self).wf(),
        ensures
            final(self)@ == value,
            final(self).wf(),
            final(self).spinlock() == old(self).spinlock(),
    {
        self.value = value;
    }

    /// Gives the lock back.
    pub fn unlock(self)
        requires
            self.wf(),
    {
        let SpinLockGuard { lock: _, handle, value } = self;
        handle.release_write(value);
    }
}

impl<T> SpinLock<T> {
    /// A new unheld spin lock around `value`.
    pub fn new(value: T) -> SpinLock<T> {
        SpinLock { cell: vstd::rwlock::RwLock::new(value, Ghost(AnyValue)) }
    }

    /// Spins until exclusive access is obtained and hands out the guard.
    pub fn lock<'a>(&'a self) -> (r: SpinLockGuard<'a, T>)
        ensures
            r.wf(),
            r.spinlock() == *self,
    {
        let (value, handle) = self.cell.acquire_write();
        SpinLockGuard { lock: self, handle, value }
    }
}

} // verus!
