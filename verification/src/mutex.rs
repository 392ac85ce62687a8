//! Exclusive and shared-exclusive locks over caller-owned data, each with a
//! sticky, advisory poison flag, and the guards that scope access to the
//! data.
//!
//! A guard owns the payload while it is held; the verifier's lock around
//! the payload makes it impossible to reach the data without a live guard,
//! and the standard library's lock underneath parks competing threads and
//! answers the non-blocking attempts. A guard is given back explicitly:
//! `unlock` keeps the poison flag as it is, and `unlock_poisoned` is the
//! release a holder performs on a failing path, setting the flag before
//! the lock is freed.

use vstd::prelude::*;

verus! {

/// The lock predicate that admits every stored value.
pub(crate) struct AnyValue;

impl<V> vstd::rwlock::RwLockPredicate<V> for AnyValue {
    open spec fn inv(self, v: V) -> bool {
        true
    }
}

/// How a released lock's poison flag is formed from the flag it had and
/// whether the holder released it on a failing path: one failing release
/// sets it, and nothing ever clears it.
pub open spec fn poison_after_release(was_poisoned: bool, failing: bool) -> bool {
    was_poisoned || failing
}

/// Poisoning is sticky and idempotent: once a release has set the flag, it
/// stays set through every later release, and a second failing release
/// leaves exactly the flag one failing release leaves.
pub proof fn lemma_poison_sticky_idempotent(was_poisoned: bool, failing: bool)
    ensures
        poison_after_release(true, failing) == true,
        poison_after_release(poison_after_release(was_poisoned, true), failing) == true,
        poison_after_release(poison_after_release(was_poisoned, true), true)
            == poison_after_release(was_poisoned, true),
{
}

/// The error returned by acquisitions of a lock whose previous exclusive
/// holder released it on a failing path: the data may be inconsistent, and
/// the guard is still handed over so the caller can inspect or repair it.
#[derive(Clone)]
pub struct PoisonError<T> {
    guard: T,
}

impl<T> View for PoisonError<T> {
    type V = T;

    closed spec fn view(&self) -> T {
        self.guard
    }
}

impl<T> PoisonError<T> {
    /// Wraps a guard in the poisoning error.
    pub fn new(guard: T) -> (r: PoisonError<T>)
        ensures
            r@ == guard,
    {
        PoisonError { guard }
    }

    /// Consumes this error, returning the underlying guard.
    pub fn into_inner(self) -> (r: T)
        ensures
            r == self@,
    {
        self.guard
    }

    /// Reaches into this error, returning a reference to the underlying guard.
    pub fn get_ref(&self) -> (r: &T)
        ensures
            *r == self@,
    {
        &self.guard
    }

    /// Reaches into this error, returning a mutable reference to the
    /// underlying guard.
    pub fn get_mut(&mut self) -> (r: &mut T)
        ensures
            *r == old(self)@,
            final(self)@ == *final(r),
    {
        &mut self.guard
    }
}

/// The outcome of a blocking acquisition: the guard, possibly wrapped in
/// the poisoning error.
pub type LockResult<T> = Result<T, PoisonError<T>>;

/// The outcome of a non-blocking acquisition attempt.
pub type TryLockResult<T> = Result<T, TryLockError<T>>;

/// Why a non-blocking acquisition attempt did not return a plain guard:
/// either the data is suspect, or the lock is simply held right now.
pub enum TryLockError<T> {
    /// The lock was acquired, but a previous holder released it on a
    /// failing path; the guard is inside.
    Poisoned(PoisonError<T>),
    /// The lock is held elsewhere and the attempt would have had to block.
    WouldBlock,
}

impl<T> From<PoisonError<T>> for TryLockError<T> {
    /// A poisoning error, seen as an acquisition-attempt error.
    fn from(err: PoisonError<T>) -> (r: TryLockError<T>) {
        TryLockError::Poisoned(err)
    }
}

impl<T> vstd::std_specs::convert::FromSpecImpl<PoisonError<T>> for TryLockError<T> {
    open spec fn obeys_from_spec() -> bool {
        true
    }

    open spec fn from_spec(err: PoisonError<T>) -> TryLockError<T> {
        TryLockError::Poisoned(err)
    }
}

/// A mutual exclusion primitive protecting data of type `T`: at most one
/// guard is out at any time, and only a live guard reaches the data.
pub struct Mutex<T> {
    gate: std::sync::Mutex<()>,
    cell: vstd::rwlock::RwLock<T, AnyValue>,
    poison: vstd::rwlock::RwLock<bool, AnyValue>,
}

/// The scoped handle to a mutex's data: it owns the payload while live and
/// gives the lock back through `unlock` or `unlock_poisoned`.
pub struct MutexGuard<'a, T> {
    lock: &'a Mutex<T>,
    gate_guard: std::sync::MutexGuard<'a, ()>,
    handle: vstd::rwlock::WriteHandle<'a, T, AnyValue>,
    value: T,
    poisoned: bool,
}

impl<'a, T> View for MutexGuard<'a, T> {
    type V = T;

    closed spec fn view(&self) -> T {
        self.value
    }
}

impl<'a, T> MutexGuard<'a, T> {
    /// A guard must give its payload back to the lock it came from.
    pub closed spec fn wf(self) -> bool {
        self.handle.rwlock() == self.lock.cell
    }

    /// The poison state this guard's acquisition observed.
    pub closed spec fn poisoned(self) -> bool {
        self.poisoned
    }

    /// The lock this guard scopes access to.
    pub closed spec fn mutex(self) -> Mutex<T> {
        *self.lock
    }

    /// The protected data, readable while the guard is live.
    pub fn borrow(&self) -> (r: &T)
        ensures
            *r == self@,
    {
        &self.value
    }

    /// The protected data, writable while the guard is live.
    pub fn borrow_mut(&mut self) -> (r: &mut T)
        requires
            old(self).wf(),
        ensures
            *r == old(self)@,
            final(self)@ == *final(r),
            final(self).wf(),
            final(self).poisoned() == old(self).poisoned(),
            final(self).mutex() == old(self).mutex(),
    {
        &mut self.value
    }

    /// Replaces the protected data.
    pub fn set(&mut self, value: T)
        requires
            old(self).wf(),
        ensures
            final(self)@ == value,
            final(self).wf(),
            final(self).poisoned() == old(self).poisoned(),
            final(self).mutex() == old(self).mutex(),
    {
        self.value = value;
    }

    /// Gives the lock back with the poison flag as it is; the ordinary end
    /// of a guard's life.
    pub fn unlock(self)
        requires
            self.wf(),
    {
        let MutexGuard { lock: _, gate_guard, handle, value, poisoned: _ } = self;
        handle.release_write(value);
        crate::runtime::mutex_unlock(gate_guard);
    }

    /// The release a holder performs on a failing path: marks the data
    /// suspect first, then gives the lock back, so the lock is never left
    /// held and every later acquisition reports the poisoning. The flag
    /// left behind is `poison_after_release` of the flag found and of the
    /// release being a failing one, as each release path here is.
    pub fn unlock_poisoned(self)
        requires
            self.wf(),
    {
        let MutexGuard { lock, gate_guard, handle, value, poisoned: _ } = self;
        lock.set_poison_flag();
        handle.release_write(value);
        crate::runtime::mutex_unlock(gate_guard);
    }

    /// Releases the lock and hands back the mutex itself, so a wait call
    /// can reacquire it; the two steps of a wait's release-and-reacquire
    /// transaction are built from this.
    pub(crate) fn release_for_wait(self) -> (m: &'a Mutex<T>)
        requires
            self.wf(),
        ensures
            *m == self.mutex(),
    {
        let MutexGuard { lock, gate_guard, handle, value, poisoned: _ } = self;
        handle.release_write(value);
        crate::runtime::mutex_unlock(gate_guard);
        lock
    }
}

impl<T> Mutex<T> {
    /// A new mutex in an unlocked, unpoisoned state holding `t`.
    pub fn new(t: T) -> Mutex<T> {
        Mutex {
            gate: crate::runtime::mutex_new(()),
            cell: vstd::rwlock::RwLock::new(t, Ghost(AnyValue)),
            poison: vstd::rwlock::RwLock::new(false, Ghost(AnyValue)),
        }
    }

    /// The poison flag as of this moment; advisory only, since another
    /// holder may release on a failing path right after the read.
    pub fn is_poisoned(&self) -> bool {
        let handle = self.poison.acquire_read();
        let flag: bool = *handle.borrow();
        handle.release_read();
        flag
    }

    /// Sets the poison flag; it is never cleared again.
    pub(crate) fn set_poison_flag(&self) {
        let (_, handle) = self.poison.acquire_write();
        handle.release_write(true);
    }

    /// Blocks until exclusive access is obtained. The guard comes back in
    /// both arms: `Err` wraps it exactly when the acquisition observed the
    /// poison flag set.
    pub fn lock<'a>(&'a self) -> (r: LockResult<MutexGuard<'a, T>>)
        ensures
            match r {
                Ok(g) => g.wf() && !g.poisoned() && g.mutex() == *self,
                Err(e) => e@.wf() && e@.poisoned() && e@.mutex() == *self,
            },
    {
        let gate_guard = crate::runtime::mutex_lock(&self.gate);
        let (value, handle) = self.cell.acquire_write();
        let poisoned = self.is_poisoned();
        let guard = MutexGuard { lock: self, gate_guard, handle, value, poisoned };
        if poisoned {
            Err(PoisonError::new(guard))
        } else {
            Ok(guard)
        }
    }

    /// Attempts the acquisition without blocking: `WouldBlock` when the
    /// lock is held elsewhere, otherwise exactly as `lock`.
    pub fn try_lock<'a>(&'a self) -> (r: TryLockResult<MutexGuard<'a, T>>)
        ensures
            match r {
                Ok(g) => g.wf() && !g.poisoned() && g.mutex() == *self,
                Err(TryLockError::Poisoned(e)) => e@.wf() && e@.poisoned() && e@.mutex()
                    == *self,
                Err(TryLockError::WouldBlock) => true,
            },
    {
        match crate::runtime::mutex_try_lock(&self.gate) {
            None => Err(TryLockError::WouldBlock),
            Some(gate_guard) => {
                let (value, handle) = self.cell.acquire_write();
                let poisoned = self.is_poisoned();
                let guard = MutexGuard { lock: self, gate_guard, handle, value, poisoned };
                if poisoned {
                    Err(TryLockError::Poisoned(PoisonError::new(guard)))
                } else {
                    Ok(guard)
                }
            },
        }
    }

    /// Exchanges the data behind the lock for `value`, returning the data
    /// it held. With the mutex reached through `&mut`, no guard is out and
    /// no other thread can hold it, so the exchange cannot contend: this
    /// is the exclusive, lock-free-for-the-caller accessor to the payload
    /// of an uncontended mutex. A borrowed form cannot exist, since the
    /// payload lives inside the verifier-checked cell, which hands the
    /// value out and takes it back but lends no reference. The poison
    /// state is surfaced exactly as an acquisition surfaces it, with the
    /// previous data inside the error.
    pub fn replace(&mut self, value: T) -> LockResult<T> {
        let gate_guard = crate::runtime::mutex_lock(&self.gate);
        let (old_value, handle) = self.cell.acquire_write();
        handle.release_write(value);
        crate::runtime::mutex_unlock(gate_guard);
        let poisoned = self.is_poisoned();
        if poisoned {
            Err(PoisonError::new(old_value))
        } else {
            Ok(old_value)
        }
    }

    /// Consumes the mutex, returning the data; the poison state is
    /// surfaced the same way an acquisition surfaces it.
    pub fn into_inner(self) -> LockResult<T> {
        let Mutex { gate: _, cell, poison } = self;
        let poisoned = poison.into_inner();
        let value = cell.into_inner();
        if poisoned {
            Err(PoisonError::new(value))
        } else {
            Ok(value)
        }
    }
}

/// A shared-exclusive lock: any number of concurrent readers, or exactly
/// one writer, never both; only writers can poison.
pub struct RwLock<T> {
    gate: std::sync::RwLock<()>,
    cell: vstd::rwlock::RwLock<T, AnyValue>,
    poison: vstd::rwlock::RwLock<bool, AnyValue>,
}

/// A reader's scoped handle: shared access to the data, released with
/// `unlock`; dropping shared access never poisons.
pub struct RwLockReadGuard<'a, T> {
    lock: &'a RwLock<T>,
    gate_guard: std::sync::RwLockReadGuard<'a, ()>,
    handle: vstd::rwlock::ReadHandle<'a, T, AnyValue>,
    poisoned: bool,
}

/// A writer's scoped handle: exclusive access to the data, released with
/// `unlock` or, on a failing path, `unlock_poisoned`.
pub struct RwLockWriteGuard<'a, T> {
    lock: &'a RwLock<T>,
    gate_guard: std::sync::RwLockWriteGuard<'a, ()>,
    handle: vstd::rwlock::WriteHandle<'a, T, AnyValue>,
    value: T,
    poisoned: bool,
}

impl<'a, T> View for RwLockReadGuard<'a, T> {
    type V = T;

    closed spec fn view(&self) -> T {
        self.handle.view()
    }
}

impl<'a, T> RwLockReadGuard<'a, T> {
    /// A reader's handle must come from the lock it reads.
    pub closed spec fn wf(self) -> bool {
        self.handle.rwlock() == self.lock.cell
    }

    /// The poison state this guard's acquisition observed.
    pub closed spec fn poisoned(self) -> bool {
        self.poisoned
    }

    /// The lock this guard reads.
    pub closed spec fn rwlock(self) -> RwLock<T> {
        *self.lock
    }

    /// The protected data, readable while the guard is live.
    pub fn borrow(&self) -> (r: &T)
        requires
            self.wf(),
        ensures
            *r == self@,
    {
        self.handle.borrow()
    }

    /// Gives shared access back; reading never changes the poison flag.
    pub fn unlock(self)
        requires
            self.wf(),
    {
        let RwLockReadGuard { lock: _, gate_guard, handle, poisoned: _ } = self;
        handle.release_read();
        crate::runtime::rwlock_read_unlock(gate_guard);
    }
}

impl<'a, T> View for RwLockWriteGuard<'a, T> {
    type V = T;

    closed spec fn view(&self) -> T {
        self.value
    }
}

impl<'a, T> RwLockWriteGuard<'a, T> {
    /// A writer's handle must give the payload back to its lock.
    pub closed spec fn wf(self) -> bool {
        self.handle.rwlock() == self.lock.cell
    }

    /// The poison state this guard's acquisition observed.
    pub closed spec fn poisoned(self) -> bool {
        self.poisoned
    }

    /// The lock this guard writes.
    pub closed spec fn rwlock(self) -> RwLock<T> {
        *self.lock
    }

    /// The protected data, readable while the guard is live.
    pub fn borrow(&self) -> (r: &T)
        ensures
            *r == self@,
    {
        &self.value
    }

    /// The protected data, writable while the guard is live.
    pub fn borrow_mut(&mut self) -> (r: &mut T)
        requires
            old(self).wf(),
        ensures
            *r == old(self)@,
            final(self)@ == *final(r),
            final(self).wf(),
            final(self).poisoned() == old(self).poisoned(),
            final(self).rwlock() == old(self).rwlock(),
    {
        &mut self.value
    }

    /// Replaces the protected data.
    pub fn set(&mut self, value: T)
        requires
            old(self).wf(),
        ensures
            final(self)@ == value,
            final(self).wf(),
            final(self).poisoned() == old(self).poisoned(),
            final(self).rwlock() == old(self).rwlock(),
    {
        self.value = value;
    }

    /// Gives exclusive access back with the poison flag as it is.
    pub fn unlock(self)
        requires
            self.wf(),
    {
        let RwLockWriteGuard { lock: _, gate_guard, handle, value, poisoned: _ } = self;
        handle.release_write(value);
        crate::runtime::rwlock_write_unlock(gate_guard);
    }

    /// The release a writer performs on a failing path: the flag is set
    /// first, then the lock is freed.
    pub fn unlock_poisoned(self)
        requires
            self.wf(),
    {
        let RwLockWriteGuard { lock, gate_guard, handle, value, poisoned: _ } = self;
        lock.set_poison_flag();
        handle.release_write(value);
        crate::runtime::rwlock_write_unlock(gate_guard);
    }
}

impl<T> RwLock<T> {
    /// A new lock in an unheld, unpoisoned state holding `t`.
    pub fn new(t: T) -> RwLock<T> {
        RwLock {
            gate: crate::runtime::rwlock_new(()),
            cell: vstd::rwlock::RwLock::new(t, Ghost(AnyValue)),
            poison: vstd::rwlock::RwLock::new(false, Ghost(AnyValue)),
        }
    }

    /// The poison flag as of this moment; advisory only.
    pub fn is_poisoned(&self) -> bool {
        let handle = self.poison.acquire_read();
        let flag: bool = *handle.borrow();
        handle.release_read();
        flag
    }

    /// Sets the poison flag; it is never cleared again.
    pub(crate) fn set_poison_flag(&self) {
        let (_, handle) = self.poison.acquire_write();
        handle.release_write(true);
    }

    /// Blocks until shared access is obtained; many readers may hold the
    /// lock together, never beside a writer.
    pub fn read<'a>(&'a self) -> (r: LockResult<RwLockReadGuard<'a, T>>)
        ensures
            match r {
                Ok(g) => g.wf() && !g.poisoned() && g.rwlock() == *self,
                Err(e) => e@.wf() && e@.poisoned() && e@.rwlock() == *self,
            },
    {
        let gate_guard = crate::runtime::rwlock_read(&self.gate);
        let handle = self.cell.acquire_read();
        let poisoned = self.is_poisoned();
        let guard = RwLockReadGuard { lock: self, gate_guard, handle, poisoned };
        if poisoned {
            Err(PoisonError::new(guard))
        } else {
            Ok(guard)
        }
    }

    /// Attempts shared access without blocking.
    pub fn try_read<'a>(&'a self) -> (r: TryLockResult<RwLockReadGuard<'a, T>>)
        ensures
            match r {
                Ok(g) => g.wf() && !g.poisoned() && g.rwlock() == *self,
                Err(TryLockError::Poisoned(e)) => e@.wf() && e@.poisoned() && e@.rwlock()
                    == *self,
                Err(TryLockError::WouldBlock) => true,
            },
    {
        match crate::runtime::rwlock_try_read(&self.gate) {
            None => Err(TryLockError::WouldBlock),
            Some(gate_guard) => {
                let handle = self.cell.acquire_read();
                let poisoned = self.is_poisoned();
                let guard = RwLockReadGuard { lock: self, gate_guard, handle, poisoned };
                if poisoned {
                    Err(TryLockError::Poisoned(PoisonError::new(guard)))
                } else {
                    Ok(guard)
                }
            },
        }
    }

    /// Blocks until exclusive access is obtained.
    pub fn write<'a>(&'a self) -> (r: LockResult<RwLockWriteGuard<'a, T>>)
        ensures
            match r {
                Ok(g) => g.wf() && !g.poisoned() && g.rwlock() == *self,
                Err(e) => e@.wf() && e@.poisoned() && e@.rwlock() == *self,
            },
    {
        let gate_guard = crate::runtime::rwlock_write(&self.gate);
        let (value, handle) = self.cell.acquire_write();
        let poisoned = self.is_poisoned();
        let guard = RwLockWriteGuard { lock: self, gate_guard, handle, value, poisoned };
        if poisoned {
            Err(PoisonError::new(guard))
        } else {
            Ok(guard)
        }
    }

    /// Attempts exclusive access without blocking.
    pub fn try_write<'a>(&'a self) -> (r: TryLockResult<RwLockWriteGuard<'a, T>>)
        ensures
            match r {
                Ok(g) => g.wf() && !g.poisoned() && g.rwlock() == *self,
                Err(TryLockError::Poisoned(e)) => e@.wf() && e@.poisoned() && e@.rwlock()
                    == *self,
                Err(TryLockError::WouldBlock) => true,
            },
    {
        match crate::runtime::rwlock_try_write(&self.gate) {
            None => Err(TryLockError::WouldBlock),
            Some(gate_guard) => {
                let (value, handle) = self.cell.acquire_write();
                let poisoned = self.is_poisoned();
                let guard = RwLockWriteGuard { lock: self, gate_guard, handle, value, poisoned };
                if poisoned {
                    Err(TryLockError::Poisoned(PoisonError::new(guard)))
                } else {
                    Ok(guard)
                }
            },
        }
    }
}

} // verus!
