use safesync::Condvar;
use safesync::Counter;
use safesync::Duration;
use safesync::Mutex;
use safesync::Note;
use safesync::Once;
use safesync::Time;
use safesync::counter_step;

#[test]
fn condvar_wait_timeout_returns_guard_over_same_lock() {
    let m = Mutex::new(0u64);
    let cv = Condvar::new();

    let g = m.lock().ok().unwrap();
    let (mut g, wtr) = cv
        .wait_timeout(g, std::time::Duration::from_millis(10))
        .ok()
        .unwrap();
    assert!(wtr.timed_out());

    // The reacquired guard scopes the very same lock: a write through it
    // is seen by the next acquisition.
    g.set(42);
    g.unlock();
    let g = m.lock().ok().unwrap();
    assert_eq!(*g.borrow(), 42);
    g.unlock();
}

#[test]
fn condvar_notify_without_waiters_is_a_no_op() {
    let cv = Condvar::new();
    cv.notify_one();
    cv.notify_all();
    let cv2 = Condvar::new();
    cv2.notify_all();
    cv2.notify_one();
}

#[test]
fn condvar_wait_timeout_carries_poisoning() {
    let m = Mutex::new(5u8);
    let cv = Condvar::new();
    let g = m.lock().ok().unwrap();
    g.unlock_poisoned();
    let e = match m.lock() {
        Ok(_) => panic!("poisoned mutex must report the flag"),
        Err(e) => e,
    };
    let g = e.into_inner();
    let e = match cv.wait_timeout(g, std::time::Duration::from_millis(5)) {
        Ok(_) => panic!("the reacquisition must report the flag too"),
        Err(e) => e,
    };
    let (g, wtr) = e.into_inner();
    assert!(wtr.timed_out());
    assert_eq!(*g.borrow(), 5);
    g.unlock();
}

#[test]
fn once_runs_exactly_once() {
    let once = Once::new();
    assert!(!once.is_completed());

    let mut runs = 0u32;
    once.call_once(|| runs += 1);
    assert!(once.is_completed());
    assert_eq!(runs, 1);

    once.call_once(|| runs += 10);
    assert_eq!(runs, 1);
    assert!(once.is_completed());
}

#[test]
fn note_notify_wins_over_no_deadline_wait() {
    let n = Note::new(None, Time::no_deadline());
    assert!(!n.is_notified());
    n.notify();
    assert!(n.is_notified());
    // A wait with no deadline on a notified note reports the notification.
    assert!(n.wait(Time::no_deadline()));
    // Notifying again changes nothing.
    n.notify();
    assert!(n.is_notified());
    assert!(n.wait(Time::zero()));
}

#[test]
fn note_past_deadline_times_out_when_not_notified() {
    let n = Note::new(None, Time::no_deadline());
    // A deadline already in the past: the wait returns at once, not notified.
    assert!(!n.wait(Time::zero()));
    // A note whose own expiry lies in the past behaves the same.
    let expired = Note::new(None, Time::zero());
    assert!(!expired.wait(Time::no_deadline()));
    // A short real wait through the clock also reports the timeout.
    let deadline = Time::now() + Duration::from_millis(20);
    assert!(!n.wait(deadline));
}

#[test]
fn note_notify_reaches_existing_children() {
    let parent = Note::new(None, Time::no_deadline());
    let child = Note::new(Some(&parent), Time::no_deadline());
    let grandchild = Note::new(Some(&child), Time::no_deadline());
    assert!(!child.is_notified());
    assert!(!grandchild.is_notified());

    parent.notify();

    // The notification travels down to every descendant created earlier.
    assert!(parent.is_notified());
    assert!(child.is_notified());
    assert!(grandchild.is_notified());
    assert!(child.wait(Time::no_deadline()));
    assert!(grandchild.wait(Time::no_deadline()));
}

#[test]
fn note_notify_of_a_child_stays_below_it() {
    let parent = Note::new(None, Time::no_deadline());
    let child = Note::new(Some(&parent), Time::no_deadline());
    let grandchild = Note::new(Some(&child), Time::no_deadline());

    child.notify();

    // Downward only: the grandchild sees it, the parent does not.
    assert!(child.is_notified());
    assert!(grandchild.is_notified());
    assert!(!parent.is_notified());
}

#[test]
fn note_child_inherits_the_earlier_expiry() {
    let soon = Time::zero() + Duration::from_millis(5);
    let parent = Note::new(None, soon);
    // A child asking for no deadline still expires with its parent.
    let child = Note::new(Some(&parent), Time::no_deadline());
    assert_eq!(child.expiry(), soon);
    // Its own deadline lies in the past, so the wait times out at once.
    assert!(!child.wait(Time::no_deadline()));

    // A child asking for less keeps its own bound.
    let strict = Time::zero() + Duration::from_millis(2);
    let early_child = Note::new(Some(&parent), strict);
    assert_eq!(early_child.expiry(), strict);
}

#[test]
fn note_child_of_notified_parent_starts_notified() {
    let parent = Note::new(None, Time::no_deadline());
    let calm = Note::new(Some(&parent), Time::no_deadline());
    assert!(!calm.is_notified());
    parent.notify();
    let child = Note::new(Some(&parent), Time::no_deadline());
    assert!(child.is_notified());
    assert!(child.wait(Time::no_deadline()));
}

#[test]
fn note_expiry_is_fixed_at_creation() {
    let deadline = Time::zero() + Duration::from_millis(1234);
    let n = Note::new(None, deadline);
    assert_eq!(n.expiry(), deadline);
    n.notify();
    assert_eq!(n.expiry(), deadline);
}

#[test]
fn counter_countdown_unblocks_at_zero() {
    let c = Counter::new(3);
    assert_eq!(c.value(), 3);
    assert_eq!(c.add(-1), 2);
    assert_eq!(c.add(-1), 1);
    assert_eq!(c.value(), 1);
    assert_eq!(c.add(-1), 0);
    assert_eq!(c.value(), 0);
    // The countdown summed to the negated start, so a wait reports zero.
    assert_eq!(c.wait(Time::no_deadline()), 0);
    assert_eq!(c.wait(Time::zero()), 0);
}

#[test]
fn counter_wait_with_past_deadline_times_out_nonzero() {
    let c = Counter::new(5);
    // The countdown has not completed: a deadline in the past reports the
    // value still standing.
    assert_eq!(c.wait(Time::zero()), 5);
    // A short real wait through the clock reports it as well.
    let deadline = Time::now() + Duration::from_millis(20);
    assert_eq!(c.wait(deadline), 5);
}

#[test]
fn counter_add_can_raise_and_is_held_at_the_boundaries() {
    let c = Counter::new(1);
    assert_eq!(c.add(2), 3);
    assert_eq!(c.add(-5), 0);
    assert_eq!(c.wait(Time::no_deadline()), 0);

    assert_eq!(counter_step(0, -5), 0);
    assert_eq!(counter_step(u32::MAX, 10), u32::MAX);
    assert_eq!(counter_step(7, -7), 0);
    assert_eq!(counter_step(7, i32::MIN), 0);
    assert_eq!(counter_step(5, 3), 8);
}
