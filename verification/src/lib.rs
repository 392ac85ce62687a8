//! Safe synchronization primitives: exclusive and shared-exclusive locks with
//! poisoning, condition variables, one-time initialization, cancellable
//! notification notes, countdown counters, and the clock and duration
//! arithmetic behind every bounded wait.

pub mod cache;
pub mod condvar;
pub mod mutex;
pub mod note;
pub mod once;
mod runtime;
pub mod spin;
pub mod time;

pub use cache::SimpleLruCache;
pub use condvar::Condvar;
pub use condvar::WaitTimeoutResult;
pub use mutex::LockResult;
pub use mutex::Mutex;
pub use mutex::MutexGuard;
pub use mutex::PoisonError;
pub use mutex::RwLock;
pub use mutex::RwLockReadGuard;
pub use mutex::RwLockWriteGuard;
pub use mutex::TryLockError;
pub use mutex::TryLockResult;
pub use note::Counter;
pub use note::Note;
pub use note::counter_step;
pub use once::Once;
pub use spin::SpinLock;
pub use spin::SpinLockGuard;
pub use time::Duration;
pub use time::Time;
