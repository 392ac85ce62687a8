//! Two free-standing coordination primitives: `Note`, a one-way
//! notification that can cancel waits, and `Counter`, a countdown latch
//! whose waiters unblock at zero. Both take absolute deadlines, resolved
//! against the clock into the bounded waits of the runtime layer.

use vstd::prelude::*;

use crate::mutex::AnyValue;
use crate::time::Time;
use crate::time::lemma_time_sub_total;

verus! {

/// One note's notified flag and the queue of its waiters; shared between
/// the note itself and the registries of all its ancestors, so that an
/// ancestor's notification can set the flag and wake the waiters.
struct SignalCell {
    flag: std::sync::Mutex<bool>,
    waiters: std::sync::Condvar,
}

/// The signal cells of a note's descendants, gathered as each descendant
/// is created.
type SignalRegistry = vstd::rwlock::RwLock<Vec<std::sync::Arc<SignalCell>>, AnyValue>;

/// Adds a descendant's signal cell to a registry.
fn enroll(registry: &SignalRegistry, cell: &std::sync::Arc<SignalCell>) {
    let (mut cells, handle) = registry.acquire_write();
    cells.push(cell.clone());
    handle.release_write(cells);
}

/// Sets a signal cell's flag and wakes its waiters.
fn raise(cell: &SignalCell) {
    let mut guard = crate::runtime::mutex_lock(&cell.flag);
    crate::runtime::flag_write(&mut guard, true);
    crate::runtime::mutex_unlock(guard);
    crate::runtime::condvar_notify_all(&cell.waiters);
}

/// A hierarchical notification primitive: notified at most once, never
/// un-notified, with an optional parent fixed at creation and an expiry
/// fixed for the note's whole life. Notifying a note is observable by all
/// of its descendants, present and future; waiting on a note ends on
/// notification, on the note's own expiry, or on the waiter's deadline,
/// whichever comes first.
pub struct Note {
    cell: std::sync::Arc<SignalCell>,
    registry: std::sync::Arc<SignalRegistry>,
    lineage: Vec<std::sync::Arc<SignalRegistry>>,
    expiry: Time,
}

impl Note {
    /// The expiry fixed when the note was created.
    pub closed spec fn expiry_spec(self) -> Time {
        self.expiry
    }

    /// A fresh note with an optional parent and a fixed expiry, which is
    /// the given deadline held down to the parent's own expiry: a child
    /// never outlasts its parent's time bound. The child's signal cell
    /// joins the registry of the parent and of every ancestor beyond it,
    /// so their notifications reach it from now on; one already delivered
    /// is read off the parent directly, so it is never missed.
    pub fn new(parent: Option<&Note>, deadline: Time) -> (r: Note)
        ensures
            match parent {
                None => r.expiry_spec() == deadline,
                Some(p) => r.expiry_spec() == (if deadline.total_nanos()
                    <= p.expiry_spec().total_nanos() {
                    deadline
                } else {
                    p.expiry_spec()
                }),
            },
    {
        let cell = std::sync::Arc::new(SignalCell {
            flag: crate::runtime::mutex_new(false),
            waiters: crate::runtime::condvar_new(),
        });
        let registry: std::sync::Arc<SignalRegistry> = std::sync::Arc::new(
            vstd::rwlock::RwLock::new(Vec::new(), Ghost(AnyValue)),
        );
        let mut lineage: Vec<std::sync::Arc<SignalRegistry>> = Vec::new();
        let expiry: Time = match parent {
            None => deadline,
            Some(p) => {
                let mut k: usize = 0;
                while k < p.lineage.len()
                    invariant
                        k <= p.lineage@.len(),
                    decreases p.lineage@.len() - k,
                {
                    let ancestor = &p.lineage[k];
                    enroll(ancestor, &cell);
                    lineage.push(ancestor.clone());
                    k = k + 1;
                }
                enroll(&p.registry, &cell);
                lineage.push(p.registry.clone());
                // Read the parent only after enrolling: a notification
                // from before the enrolment is seen here, one from after
                // it reaches the cell through the registries.
                if p.is_notified() {
                    raise(&cell);
                }
                if deadline.le(&p.expiry) {
                    deadline
                } else {
                    p.expiry
                }
            },
        };
        Note { cell, registry, lineage, expiry }
    }

    /// Notifies this note: sets its flag, wakes every waiter, and then
    /// does the same for every descendant enrolled so far; descendants
    /// created later read the flag off their parent instead. The state
    /// moves one way only, so notifying again changes nothing, and a
    /// child's notification never travels upward to its parent.
    pub fn notify(&self) {
        // The note's own flag first, so a descendant created while the
        // walk below runs still observes the notification.
        raise(&self.cell);
        let (cells, handle) = self.registry.acquire_write();
        let mut i: usize = 0;
        while i < cells.len()
            invariant
                i <= cells@.len(),
            decreases cells@.len() - i,
        {
            raise(&cells[i]);
            i = i + 1;
        }
        handle.release_write(cells);
    }

    /// A non-blocking snapshot of the notified state.
    pub fn is_notified(&self) -> bool {
        let guard = crate::runtime::mutex_lock(&self.cell.flag);
        let r = crate::runtime::flag_read(&guard);
        crate::runtime::mutex_unlock(guard);
        r
    }

    /// Returns the expiry time fixed at construction.
    pub fn expiry(&self) -> (r: Time)
        ensures
            r == self.expiry_spec(),
    {
        self.expiry
    }

    /// Blocks until this note is notified, until its own expiry, or until
    /// `deadline`, whichever comes first; `true` means the note was seen
    /// notified, `false` that the sooner of the two time bounds passed
    /// first. With both bounds at `no_deadline` only a notification ends
    /// the wait, so the call then always reports one.
    pub fn wait(&self, deadline: Time) -> (r: bool)
        ensures
            self.expiry_spec() == Time::no_deadline_spec() && deadline
                == Time::no_deadline_spec() ==> r == true,
    {
        let eff: Time = if deadline.le(&self.expiry) {
            deadline
        } else {
            self.expiry
        };
        let unbounded = eff == Time::no_deadline();
        if unbounded {
            let guard = crate::runtime::mutex_lock(&self.cell.flag);
            let guard = crate::runtime::condvar_wait_until_set(&self.cell.waiters, guard);
            let r = crate::runtime::flag_read(&guard);
            crate::runtime::mutex_unlock(guard);
            r
        } else {
            let now = Time::now();
            let guard = crate::runtime::mutex_lock(&self.cell.flag);
            if eff.le(&now) {
                let r = crate::runtime::flag_read(&guard);
                crate::runtime::mutex_unlock(guard);
                r
            } else {
                proof {
                    use_type_invariant(eff);
                    use_type_invariant(now);
                    crate::time::lemma_sub_representable(eff, now);
                }
                let remaining = eff - now;
                proof {
                    lemma_time_sub_total(eff, now);
                }
                let dur = remaining.to_core();
                let (guard, _timed_out) = crate::runtime::condvar_wait_timeout_until_set(
                    &self.cell.waiters,
                    guard,
                    dur,
                );
                let r = crate::runtime::flag_read(&guard);
                crate::runtime::mutex_unlock(guard);
                r
            }
        }
    }
}

/// The value a counter holds after adding `delta` to `value`: the exact
/// sum, held at the `u32` boundaries, so a step neither falls below zero
/// nor wraps past the largest count.
pub open spec fn counter_step_spec(value: u32, delta: i32) -> u32 {
    if value + delta < 0 {
        0u32
    } else if value + delta > u32::MAX {
        u32::MAX
    } else {
        (value + delta) as u32
    }
}

/// One counter step, computed: adds `delta` to `value` with the sum held
/// at the `u32` boundaries.
pub fn counter_step(value: u32, delta: i32) -> (r: u32)
    ensures
        r == counter_step_spec(value, delta),
{
    if delta >= 0 {
        let d: u32 = delta as u32;
        if value > u32::MAX - d {
            u32::MAX
        } else {
            value + d
        }
    } else {
        let magnitude: u32 = (-(delta as i64)) as u32;
        if value < magnitude {
            0
        } else {
            value - magnitude
        }
    }
}

/// The sum of a sequence of deltas.
pub open spec fn delta_sum(deltas: Seq<i32>) -> int
    decreases deltas.len(),
{
    if deltas.len() == 0 {
        0
    } else {
        deltas[0] + delta_sum(deltas.drop_first())
    }
}

/// The counter value left by applying a sequence of steps in order.
pub open spec fn counter_after(start: u32, deltas: Seq<i32>) -> u32
    decreases deltas.len(),
{
    if deltas.len() == 0 {
        start
    } else {
        counter_after(counter_step_spec(start, deltas[0]), deltas.drop_first())
    }
}

/// While every running sum stays inside the counter's range, no step is
/// held at a boundary, and the steps add up exactly.
proof fn lemma_counter_tracks(start: u32, deltas: Seq<i32>)
    requires
        forall|i: int|
            0 <= i <= deltas.len() ==> 0 <= start + delta_sum(#[trigger] deltas.take(i))
                <= u32::MAX,
    ensures
        counter_after(start, deltas) == start + delta_sum(deltas),
    decreases deltas.len(),
{
    if deltas.len() == 0 {
    } else {
        let d0 = deltas[0];
        let rest = deltas.drop_first();
        assert(deltas.take(1).len() == 1);
        assert(deltas.take(1)[0] == d0);
        assert(deltas.take(1).drop_first() =~= Seq::<i32>::empty());
        assert(delta_sum(Seq::<i32>::empty()) == 0);
        assert(delta_sum(deltas.take(1)) == deltas.take(1)[0] + delta_sum(
            deltas.take(1).drop_first(),
        ));
        assert(delta_sum(deltas.take(1)) == d0);
        assert(0 <= start + d0 <= u32::MAX);
        let start1 = counter_step_spec(start, d0);
        assert(start1 == start + d0);
        assert forall|i: int|
            0 <= i <= rest.len() implies 0 <= start1 + delta_sum(#[trigger] rest.take(i))
            <= u32::MAX by {
            assert(deltas.take(i + 1).len() == i + 1);
            assert(deltas.take(i + 1)[0] == d0);
            assert(deltas.take(i + 1).drop_first() =~= rest.take(i));
            assert(delta_sum(deltas.take(i + 1)) == deltas.take(i + 1)[0] + delta_sum(
                deltas.take(i + 1).drop_first(),
            ));
            assert(delta_sum(deltas.take(i + 1)) == d0 + delta_sum(rest.take(i)));
            assert(0 <= start + delta_sum(deltas.take(i + 1)) <= u32::MAX);
        }
        lemma_counter_tracks(start1, rest);
    }
}

/// Starting at `value`, a sequence of adds whose running sums never leave
/// the counter's range and whose total is exactly the negation of `value`
/// leaves the counter at zero, so every outstanding wait unblocks with 0.
pub proof fn lemma_countdown_reaches_zero(value: u32, deltas: Seq<i32>)
    requires
        forall|i: int|
            0 <= i <= deltas.len() ==> 0 <= value + delta_sum(#[trigger] deltas.take(i))
                <= u32::MAX,
        value + delta_sum(deltas) == 0,
    ensures
        counter_after(value, deltas) == 0,
{
    lemma_counter_tracks(value, deltas);
}

/// A countdown latch: holders move the value by signed deltas, waiters
/// block until it reaches zero or their deadline passes.
pub struct Counter {
    value: std::sync::Mutex<u32>,
    waiters: std::sync::Condvar,
}

impl Counter {
    /// A fresh counter holding `value`.
    pub fn new(value: u32) -> Counter {
        Counter {
            value: crate::runtime::mutex_new(value),
            waiters: crate::runtime::condvar_new(),
        }
    }

    /// Adds `delta` to the value, held at the `u32` boundaries, wakes
    /// every waiter when zero is reached, and returns the new value: one
    /// `counter_step_spec` applied to the value the addition observed.
    pub fn add(&self, delta: i32) -> (r: u32)
        ensures
            exists|observed: u32| r == counter_step_spec(observed, delta),
    {
        let mut guard = crate::runtime::mutex_lock(&self.value);
        let observed = crate::runtime::count_read(&guard);
        let next = counter_step(observed, delta);
        crate::runtime::count_write(&mut guard, next);
        crate::runtime::mutex_unlock(guard);
        if next == 0 {
            crate::runtime::condvar_notify_all(&self.waiters);
        }
        next
    }

    /// A non-blocking read of the current value.
    pub fn value(&self) -> u32 {
        let guard = crate::runtime::mutex_lock(&self.value);
        let r = crate::runtime::count_read(&guard);
        crate::runtime::mutex_unlock(guard);
        r
    }

    /// Blocks until the value reaches zero or `deadline` passes, and
    /// returns the value observed at wake: zero after a completed
    /// countdown, nonzero when the deadline cut the wait short. With the
    /// deadline at `no_deadline` only zero ends the wait.
    pub fn wait(&self, deadline: Time) -> (r: u32)
        ensures
            deadline == Time::no_deadline_spec() ==> r == 0,
    {
        let unbounded = deadline == Time::no_deadline();
        if unbounded {
            let guard = crate::runtime::mutex_lock(&self.value);
            let guard = crate::runtime::condvar_wait_until_zero(&self.waiters, guard);
            let r = crate::runtime::count_read(&guard);
            crate::runtime::mutex_unlock(guard);
            r
        } else {
            let now = Time::now();
            let guard = crate::runtime::mutex_lock(&self.value);
            if deadline.le(&now) {
                let r = crate::runtime::count_read(&guard);
                crate::runtime::mutex_unlock(guard);
                r
            } else {
                proof {
                    use_type_invariant(deadline);
                    use_type_invariant(now);
                    crate::time::lemma_sub_representable(deadline, now);
                }
                let remaining = deadline - now;
                proof {
                    lemma_time_sub_total(deadline, now);
                }
                let dur = remaining.to_core();
                let (guard, _timed_out) = crate::runtime::condvar_wait_timeout_until_zero(
                    &self.waiters,
                    guard,
                    dur,
                );
                let r = crate::runtime::count_read(&guard);
                crate::runtime::mutex_unlock(guard);
                r
            }
        }
    }
}

} // verus!
