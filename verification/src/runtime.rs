//! The capability layer underneath the crate's primitives: opaque lock,
//! condition-variable and one-shot records of the standard library, plus a
//! clock, each reached through one thin trusted wrapper per operation.
//!
//! The data that the crate's own reasoning tracks never lives behind these
//! records; they only park and wake threads, gate one-time work, and read
//! the clock. The two exceptions are the plain `bool` and `u32` cells used
//! by notes and counters, whose contents the names `flag_contents` and
//! `count_contents` stand for.

use vstd::prelude::*;

verus! {

/// std::sync::Mutex, declared so it can stand in fields and signatures.
#[verifier::external_type_specification]
#[verifier::external_body]
#[verifier::reject_recursive_types(T)]
pub struct ExMutex<T: ?Sized>(std::sync::Mutex<T>);

/// std::sync::MutexGuard, declared so a held lock can be carried around.
#[verifier::external_type_specification]
#[verifier::external_body]
#[verifier::reject_recursive_types(T)]
pub struct ExMutexGuard<'a, T: ?Sized + 'a>(std::sync::MutexGuard<'a, T>);

/// std::sync::RwLock, declared so it can stand in fields and signatures.
#[verifier::external_type_specification]
#[verifier::external_body]
#[verifier::reject_recursive_types(T)]
pub struct ExRwLock<T: ?Sized>(std::sync::RwLock<T>);

/// std::sync::RwLockReadGuard, declared so shared holds can be carried.
#[verifier::external_type_specification]
#[verifier::external_body]
#[verifier::reject_recursive_types(T)]
pub struct ExRwLockReadGuard<'a, T: ?Sized>(std::sync::RwLockReadGuard<'a, T>);

/// std::sync::RwLockWriteGuard, declared so exclusive holds can be carried.
#[verifier::external_type_specification]
#[verifier::external_body]
#[verifier::reject_recursive_types(T)]
pub struct ExRwLockWriteGuard<'a, T: ?Sized + 'a>(std::sync::RwLockWriteGuard<'a, T>);

/// std::sync::Condvar, declared so a wait queue can stand in fields.
#[verifier::external_type_specification]
#[verifier::external_body]
pub struct ExCondvar(std::sync::Condvar);

/// std::sync::Once, declared so a one-shot record can stand in fields.
#[verifier::external_type_specification]
#[verifier::external_body]
pub struct ExOnce(std::sync::Once);

/// std::time::SystemTime, declared so a clock reading can be passed on.
#[verifier::external_type_specification]
#[verifier::external_body]
pub struct ExSystemTime(std::time::SystemTime);

/// The `bool` a held guard gives access to; fixed while the guard lives and
/// changed only through `flag_write`.
pub uninterp spec fn flag_contents(g: std::sync::MutexGuard<bool>) -> bool;

/// The `u32` a held guard gives access to; fixed while the guard lives and
/// changed only through `count_write`.
pub uninterp spec fn count_contents(g: std::sync::MutexGuard<u32>) -> u32;

/// The seconds part of a standard-library duration, as `as_secs` returns it.
pub uninterp spec fn dur_secs(d: core::time::Duration) -> u64;

/// The sub-second nanoseconds of a standard-library duration, as
/// `subsec_nanos` returns it.
pub uninterp spec fn dur_nanos(d: core::time::Duration) -> u32;

/// Relies on core::time::Duration::new: with a nanosecond part below one
/// second there is nothing to carry over, and the two parts are stored as
/// given; the possible overflow panic of larger nanosecond parts is ruled
/// out the same way.
pub assume_specification[ core::time::Duration::new ](secs: u64, nanos: u32) -> (r:
    core::time::Duration)
    requires
        nanos < 1_000_000_000,
    ensures
        dur_secs(r) == secs,
        dur_nanos(r) == nanos,
;

/// Relies on core::time::Duration::as_secs: the whole-seconds part, a pure
/// function of the duration.
pub assume_specification[ core::time::Duration::as_secs ](d: &core::time::Duration) -> (r: u64)
    ensures
        r == dur_secs(*d),
;

/// Relies on core::time::Duration::subsec_nanos: the fractional part in
/// nanoseconds, always below one second, a pure function of the duration.
pub assume_specification[ core::time::Duration::subsec_nanos ](d: &core::time::Duration) -> (r:
    u32)
    ensures
        r == dur_nanos(*d),
        r < 1_000_000_000,
;

/// Relies on std::sync::Mutex::new: a fresh, unlocked lock around `value`.
#[verifier::external_body]
pub(crate) fn mutex_new<T>(value: T) -> std::sync::Mutex<T> {
    std::sync::Mutex::new(value)
}

/// Relies on std::sync::Mutex::lock: blocks until the lock is held and
/// yields its guard; a poisoned record still yields the guard. Not
/// reentrant: a second lock from the thread already holding it deadlocks
/// or panics, as the underlying call documents.
#[verifier::external_body]
pub(crate) fn mutex_lock<'a, T>(m: &'a std::sync::Mutex<T>) -> std::sync::MutexGuard<'a, T> {
    match m.lock() {
        Ok(g) => g,
        Err(e) => e.into_inner(),
    }
}

/// Relies on std::sync::Mutex::try_lock: yields the guard only when the lock
/// can be taken without blocking; `None` means it is held elsewhere.
#[verifier::external_body]
pub(crate) fn mutex_try_lock<'a, T>(m: &'a std::sync::Mutex<T>) -> Option<
    std::sync::MutexGuard<'a, T>,
> {
    match m.try_lock() {
        Ok(g) => Some(g),
        Err(std::sync::TryLockError::Poisoned(e)) => Some(e.into_inner()),
        Err(std::sync::TryLockError::WouldBlock) => None,
    }
}

/// Relies on the drop of std::sync::MutexGuard: releases the lock.
#[verifier::external_body]
pub(crate) fn mutex_unlock<T>(guard: std::sync::MutexGuard<'_, T>) {
    drop(guard);
}

/// Relies on the deref of std::sync::MutexGuard: reads the flag behind a
/// held guard.
#[verifier::external_body]
pub(crate) fn flag_read(guard: &std::sync::MutexGuard<'_, bool>) -> (r: bool)
    ensures
        r == flag_contents(*guard),
{
    **guard
}

/// Relies on the mutable deref of std::sync::MutexGuard: stores the flag
/// behind a held guard.
#[verifier::external_body]
pub(crate) fn flag_write(guard: &mut std::sync::MutexGuard<'_, bool>, value: bool)
    ensures
        flag_contents(*final(guard)) == value,
{
    **guard = value;
}

/// Relies on the deref of std::sync::MutexGuard: reads the count behind a
/// held guard.
#[verifier::external_body]
pub(crate) fn count_read(guard: &std::sync::MutexGuard<'_, u32>) -> (r: u32)
    ensures
        r == count_contents(*guard),
{
    **guard
}

/// Relies on the mutable deref of std::sync::MutexGuard: stores the count
/// behind a held guard.
#[verifier::external_body]
pub(crate) fn count_write(guard: &mut std::sync::MutexGuard<'_, u32>, value: u32)
    ensures
        count_contents(*final(guard)) == value,
{
    **guard = value;
}

/// Relies on std::sync::Condvar::new: a fresh wait queue.
#[verifier::external_body]
pub(crate) fn condvar_new() -> std::sync::Condvar {
    std::sync::Condvar::new()
}

/// Relies on std::sync::Condvar::notify_one: wakes at most one waiter; a
/// no-op when nobody waits.
#[verifier::external_body]
pub(crate) fn condvar_notify_one(cv: &std::sync::Condvar) {
    cv.notify_one();
}

/// Relies on std::sync::Condvar::notify_all: wakes every current waiter; a
/// no-op when nobody waits.
#[verifier::external_body]
pub(crate) fn condvar_notify_all(cv: &std::sync::Condvar) {
    cv.notify_all();
}

/// Relies on std::sync::Condvar::wait: atomically releases the guard's lock
/// and sleeps; returns with the lock held again. May wake spuriously.
/// Each condition variable of this crate is paired with exactly one lock
/// for its whole life, as the underlying call demands.
#[verifier::external_body]
pub(crate) fn condvar_wait<'a>(
    cv: &std::sync::Condvar,
    guard: std::sync::MutexGuard<'a, ()>,
) -> std::sync::MutexGuard<'a, ()> {
    match cv.wait(guard) {
        Ok(g) => g,
        Err(e) => e.into_inner(),
    }
}

/// Relies on std::sync::Condvar::wait_timeout: as `condvar_wait`, but gives
/// up once `dur` has elapsed; the flag reports whether the time ran out.
/// The one-lock pairing of `condvar_wait` holds here too.
#[verifier::external_body]
pub(crate) fn condvar_wait_timeout<'a>(
    cv: &std::sync::Condvar,
    guard: std::sync::MutexGuard<'a, ()>,
    dur: core::time::Duration,
) -> (std::sync::MutexGuard<'a, ()>, bool) {
    match cv.wait_timeout(guard, dur) {
        Ok((g, t)) => (g, t.timed_out()),
        Err(e) => {
            let (g, t) = e.into_inner();
            (g, t.timed_out())
        },
    }
}

/// True while a note's flag is still unset; the waiting condition handed to
/// the runtime's predicate waits.
pub(crate) fn flag_unset(v: &bool) -> (r: bool)
    ensures
        r == !*v,
{
    !*v
}

/// True while a counter's value has not reached zero; the waiting condition
/// handed to the runtime's predicate waits.
pub(crate) fn count_positive(v: &u32) -> (r: bool)
    ensures
        r == (*v != 0),
{
    *v != 0
}

/// Relies on std::sync::Condvar::wait_while: sleeps until the flag behind
/// the guard is set, re-checking after every wakeup, so it never returns
/// with the flag unset. A poisoned arm would skip that re-check, but the
/// lock behind this guard is private to the crate and only ever held by
/// its verified code, which cannot panic, so that arm is unreachable.
#[verifier::external_body]
pub(crate) fn condvar_wait_until_set<'a>(
    cv: &std::sync::Condvar,
    guard: std::sync::MutexGuard<'a, bool>,
) -> (r: std::sync::MutexGuard<'a, bool>)
    ensures
        flag_contents(r) == true,
{
    match cv.wait_while(guard, |set: &mut bool| flag_unset(set)) {
        Ok(g) => g,
        Err(e) => e.into_inner(),
    }
}

/// Relies on std::sync::Condvar::wait_timeout_while: as
/// `condvar_wait_until_set`, but gives up once `dur` has elapsed; the flag
/// reports a timeout exactly when the waited-for flag is still unset, and
/// the unreachable poisoned arm is converted like the others.
#[verifier::external_body]
pub(crate) fn condvar_wait_timeout_until_set<'a>(
    cv: &std::sync::Condvar,
    guard: std::sync::MutexGuard<'a, bool>,
    dur: core::time::Duration,
) -> (r: (std::sync::MutexGuard<'a, bool>, bool))
    ensures
        r.1 == !flag_contents(r.0),
{
    match cv.wait_timeout_while(guard, dur, |set: &mut bool| flag_unset(set)) {
        Ok((g, t)) => (g, t.timed_out()),
        Err(e) => {
            let (g, t) = e.into_inner();
            (g, t.timed_out())
        },
    }
}

/// Relies on std::sync::Condvar::wait_while: sleeps until the count behind
/// the guard reaches zero, re-checking after every wakeup. As with the
/// flag waits, only this crate's verified code ever holds the lock behind
/// the guard, so the poisoned arm, which would skip the re-check, is
/// unreachable.
#[verifier::external_body]
pub(crate) fn condvar_wait_until_zero<'a>(
    cv: &std::sync::Condvar,
    guard: std::sync::MutexGuard<'a, u32>,
) -> (r: std::sync::MutexGuard<'a, u32>)
    ensures
        count_contents(r) == 0,
{
    match cv.wait_while(guard, |v: &mut u32| count_positive(v)) {
        Ok(g) => g,
        Err(e) => e.into_inner(),
    }
}

/// Relies on std::sync::Condvar::wait_timeout_while: as
/// `condvar_wait_until_zero`, but gives up once `dur` has elapsed; the flag
/// reports a timeout exactly when the count is still nonzero, and the
/// unreachable poisoned arm is converted like the others.
#[verifier::external_body]
pub(crate) fn condvar_wait_timeout_until_zero<'a>(
    cv: &std::sync::Condvar,
    guard: std::sync::MutexGuard<'a, u32>,
    dur: core::time::Duration,
) -> (r: (std::sync::MutexGuard<'a, u32>, bool))
    ensures
        r.1 == (count_contents(r.0) != 0),
{
    match cv.wait_timeout_while(guard, dur, |v: &mut u32| count_positive(v)) {
        Ok((g, t)) => (g, t.timed_out()),
        Err(e) => {
            let (g, t) = e.into_inner();
            (g, t.timed_out())
        },
    }
}

/// Relies on std::sync::RwLock::new: a fresh, unheld shared-exclusive lock.
#[verifier::external_body]
pub(crate) fn rwlock_new<T>(value: T) -> std::sync::RwLock<T> {
    std::sync::RwLock::new(value)
}

/// Relies on std::sync::RwLock::read: blocks until shared access is held;
/// any number of shared holders may coexist, never beside a writer. Not
/// reentrant against a writer on the same thread: that deadlocks or
/// panics, as the underlying call documents.
#[verifier::external_body]
pub(crate) fn rwlock_read<'a, T>(m: &'a std::sync::RwLock<T>) -> std::sync::RwLockReadGuard<
    'a,
    T,
> {
    match m.read() {
        Ok(g) => g,
        Err(e) => e.into_inner(),
    }
}

/// Relies on std::sync::RwLock::try_read: shared access only if available
/// without blocking.
#[verifier::external_body]
pub(crate) fn rwlock_try_read<'a, T>(m: &'a std::sync::RwLock<T>) -> Option<
    std::sync::RwLockReadGuard<'a, T>,
> {
    match m.try_read() {
        Ok(g) => Some(g),
        Err(std::sync::TryLockError::Poisoned(e)) => Some(e.into_inner()),
        Err(std::sync::TryLockError::WouldBlock) => None,
    }
}

/// Relies on std::sync::RwLock::write: blocks until exclusive access is
/// held. Not reentrant: a second hold from the owning thread deadlocks or
/// panics, as the underlying call documents.
#[verifier::external_body]
pub(crate) fn rwlock_write<'a, T>(m: &'a std::sync::RwLock<T>) -> std::sync::RwLockWriteGuard<
    'a,
    T,
> {
    match m.write() {
        Ok(g) => g,
        Err(e) => e.into_inner(),
    }
}

/// Relies on std::sync::RwLock::try_write: exclusive access only if
/// available without blocking.
#[verifier::external_body]
pub(crate) fn rwlock_try_write<'a, T>(m: &'a std::sync::RwLock<T>) -> Option<
    std::sync::RwLockWriteGuard<'a, T>,
> {
    match m.try_write() {
        Ok(g) => Some(g),
        Err(std::sync::TryLockError::Poisoned(e)) => Some(e.into_inner()),
        Err(std::sync::TryLockError::WouldBlock) => None,
    }
}

/// Relies on the drop of std::sync::RwLockReadGuard: gives shared access back.
#[verifier::external_body]
pub(crate) fn rwlock_read_unlock<T>(guard: std::sync::RwLockReadGuard<'_, T>) {
    drop(guard);
}

/// Relies on the drop of std::sync::RwLockWriteGuard: gives exclusive access back.
#[verifier::external_body]
pub(crate) fn rwlock_write_unlock<T>(guard: std::sync::RwLockWriteGuard<'_, T>) {
    drop(guard);
}

/// Relies on std::sync::Once::new: a fresh gate with its work not yet run.
#[verifier::external_body]
pub(crate) fn once_new() -> std::sync::Once {
    std::sync::Once::new()
}

/// Relies on std::sync::Once::call_once: runs `work` if and only if no
/// earlier call has completed, and blocks callers until the one run ends;
/// across all callers of one gate the work runs exactly once. Should
/// `work` panic, the record is marked and every later call panics, per
/// the underlying call's documentation.
#[verifier::external_body]
pub(crate) fn once_call<F: FnOnce()>(gate: &std::sync::Once, work: F)
    requires
        work.requires(()),
{
    gate.call_once(work);
}

/// Relies on std::sync::Once::is_completed: true exactly once some
/// `call_once` run has completed.
#[verifier::external_body]
pub(crate) fn once_done(gate: &std::sync::Once) -> bool {
    gate.is_completed()
}

/// Relies on std::time::SystemTime::now: the clock's current reading.
#[verifier::external_body]
pub(crate) fn clock_now() -> std::time::SystemTime {
    std::time::SystemTime::now()
}

/// Relies on std::time::SystemTime::duration_since: the span from the epoch
/// up to `t`, or zero for a reading before the epoch.
#[verifier::external_body]
pub(crate) fn clock_since_epoch(t: &std::time::SystemTime) -> core::time::Duration {
    match t.duration_since(std::time::UNIX_EPOCH) {
        Ok(d) => d,
        Err(_) => core::time::Duration::ZERO,
    }
}

} // verus!
