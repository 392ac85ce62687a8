//! Points in time and spans of time, kept as whole seconds plus a
//! normalized sub-second nanosecond part, with the comparison and
//! arithmetic that every bounded wait in this crate is built on.

use vstd::prelude::*;

verus! {

/// Nanoseconds in one second; the `nsec` field of `Time` and `Duration`
/// stays strictly below this bound.
pub const NANOS_PER_SEC: u32 = 1_000_000_000;

/// A point on the clock: whole seconds since the clock's origin plus a
/// sub-second nanosecond part. Negative seconds lie before the origin.
#[derive(Clone, Copy, PartialEq, Eq, Structural, Debug)]
pub struct Time {
    sec: i64,
    nsec: u32,
}

/// A span of time in the same normalized shape as `Time`; a negative span
/// has a negative `sec` field and still a nanosecond part in `[0, 10^9)`.
#[derive(Clone, Copy, PartialEq, Eq, Structural, Debug)]
pub struct Duration {
    sec: i64,
    nsec: u32,
}

impl Time {
    /// The nanosecond field is normalized: strictly below one second.
    #[verifier::type_invariant]
    pub closed spec fn wf(self) -> bool {
        self.nsec < NANOS_PER_SEC
    }

    /// The whole value as a single count of nanoseconds.
    pub closed spec fn total_nanos(self) -> int {
        self.sec * (NANOS_PER_SEC as int) + self.nsec
    }

    pub closed spec fn sec_spec(self) -> i64 {
        self.sec
    }

    pub closed spec fn nsec_spec(self) -> u32 {
        self.nsec
    }
}

impl Duration {
    /// The nanosecond field is normalized: strictly below one second.
    #[verifier::type_invariant]
    pub closed spec fn wf(self) -> bool {
        self.nsec < NANOS_PER_SEC
    }

    /// The whole value as a single count of nanoseconds.
    pub closed spec fn total_nanos(self) -> int {
        self.sec * (NANOS_PER_SEC as int) + self.nsec
    }

    pub closed spec fn sec_spec(self) -> i64 {
        self.sec
    }

    pub closed spec fn nsec_spec(self) -> u32 {
        self.nsec
    }
}

/// The nanosecond counts representable as a normalized `Time` or `Duration`.
pub open spec fn representable_nanos(n: int) -> bool {
    i64::MIN * (NANOS_PER_SEC as int) <= n
        <= i64::MAX * (NANOS_PER_SEC as int) + (NANOS_PER_SEC - 1)
}

/// A normalized value is determined by its total nanosecond count.
pub proof fn lemma_total_nanos_injective(a: Time, b: Time)
    requires
        a.wf(),
        b.wf(),
        a.total_nanos() == b.total_nanos(),
    ensures
        a == b,
{
    assert(a.sec == b.sec) by (nonlinear_arith)
        requires
            a.sec * (NANOS_PER_SEC as int) + a.nsec == b.sec * (NANOS_PER_SEC as int) + b.nsec,
            a.nsec < NANOS_PER_SEC,
            b.nsec < NANOS_PER_SEC,
    ;
}

impl Time {
    /// The zero time: the clock's origin.
    pub fn zero() -> (r: Time)
        ensures
            r.total_nanos() == 0,
    {
        Time { sec: 0, nsec: 0 }
    }

    /// The sentinel meaning "no deadline": later than every other time, so a
    /// wait bounded by it never times out.
    pub fn no_deadline() -> (r: Time)
        ensures
            r == Time::no_deadline_spec(),
    {
        Time { sec: i64::MAX, nsec: NANOS_PER_SEC - 1 }
    }

    /// The largest normalized time value.
    pub closed spec fn no_deadline_spec() -> Time {
        Time { sec: i64::MAX, nsec: (NANOS_PER_SEC - 1) as u32 }
    }

    /// No normalized time lies beyond the "no deadline" sentinel.
    pub proof fn lemma_no_deadline_latest(t: Time)
        requires
            t.wf(),
        ensures
            t.total_nanos() <= Time::no_deadline_spec().total_nanos(),
    {
        assert(t.sec * (NANOS_PER_SEC as int) <= i64::MAX * (NANOS_PER_SEC as int))
            by (nonlinear_arith)
            requires
                t.sec <= i64::MAX,
        ;
    }
}

/// What `Time + Duration` yields: the normalized sum.
pub closed spec fn time_add(t: Time, d: Duration) -> Time {
    if t.nsec + d.nsec >= NANOS_PER_SEC {
        Time { sec: (t.sec + d.sec + 1) as i64, nsec: (t.nsec + d.nsec - NANOS_PER_SEC) as u32 }
    } else {
        Time { sec: (t.sec + d.sec) as i64, nsec: (t.nsec + d.nsec) as u32 }
    }
}

/// What `Time - Time` yields: the normalized difference.
pub closed spec fn time_sub(a: Time, b: Time) -> Duration {
    if a.nsec >= b.nsec {
        Duration { sec: (a.sec - b.sec) as i64, nsec: (a.nsec - b.nsec) as u32 }
    } else {
        Duration {
            sec: (a.sec - b.sec - 1) as i64,
            nsec: (a.nsec + NANOS_PER_SEC - b.nsec) as u32,
        }
    }
}

impl core::ops::Add<Duration> for Time {
    type Output = Time;

    /// The sum of a time and a span, normalized.
    fn add(self, rhs: Duration) -> (r: Time) {
        proof {
            use_type_invariant(self);
            use_type_invariant(rhs);
        }
        let mut sec: i128 = self.sec as i128 + rhs.sec as i128;
        let mut nsec: u32 = self.nsec + rhs.nsec;
        if nsec >= NANOS_PER_SEC {
            nsec = nsec - NANOS_PER_SEC;
            sec = sec + 1;
        }
        proof {
            lemma_sum_sec_in_range(self, rhs, sec as int, nsec as int);
        }
        Time { sec: sec as i64, nsec }
    }
}

impl vstd::std_specs::ops::AddSpecImpl<Duration> for Time {
    open spec fn obeys_add_spec() -> bool {
        true
    }

    open spec fn add_req(self, rhs: Duration) -> bool {
        self.wf() && rhs.wf() && representable_nanos(self.total_nanos() + rhs.total_nanos())
    }

    open spec fn add_spec(self, rhs: Duration) -> Time {
        time_add(self, rhs)
    }
}

impl core::ops::Sub<Time> for Time {
    type Output = Duration;

    /// The span from `rhs` up to `self`, normalized; negative when `self`
    /// lies before `rhs`.
    fn sub(self, rhs: Time) -> (r: Duration) {
        proof {
            use_type_invariant(self);
            use_type_invariant(rhs);
        }
        let mut sec: i128 = self.sec as i128 - rhs.sec as i128;
        let nsec: u32;
        if self.nsec >= rhs.nsec {
            nsec = self.nsec - rhs.nsec;
        } else {
            nsec = self.nsec + NANOS_PER_SEC - rhs.nsec;
            sec = sec - 1;
        }
        proof {
            lemma_diff_sec_in_range(self, rhs, sec as int, nsec as int);
        }
        Duration { sec: sec as i64, nsec }
    }
}

impl vstd::std_specs::ops::SubSpecImpl<Time> for Time {
    open spec fn obeys_sub_spec() -> bool {
        true
    }

    open spec fn sub_req(self, rhs: Time) -> bool {
        self.wf() && rhs.wf() && representable_nanos(self.total_nanos() - rhs.total_nanos())
    }

    open spec fn sub_spec(self, rhs: Time) -> Duration {
        time_sub(self, rhs)
    }
}

/// The seconds part of a normalized, representable sum stays within `i64`.
proof fn lemma_sum_sec_in_range(t: Time, d: Duration, sec: int, nsec: int)
    requires
        t.wf(),
        d.wf(),
        representable_nanos(t.total_nanos() + d.total_nanos()),
        sec * (NANOS_PER_SEC as int) + nsec == t.total_nanos() + d.total_nanos(),
        0 <= nsec < NANOS_PER_SEC,
    ensures
        i64::MIN <= sec <= i64::MAX,
        time_add(t, d) == (Time { sec: sec as i64, nsec: nsec as u32 }),
        time_add(t, d).wf(),
        time_add(t, d).total_nanos() == t.total_nanos() + d.total_nanos(),
{
    assert(i64::MIN <= sec <= i64::MAX) by (nonlinear_arith)
        requires
            sec * (NANOS_PER_SEC as int) + nsec == t.total_nanos() + d.total_nanos(),
            representable_nanos(t.total_nanos() + d.total_nanos()),
            0 <= nsec < NANOS_PER_SEC,
    ;
    let r = time_add(t, d);
    if t.nsec + d.nsec >= NANOS_PER_SEC {
        assert(r.total_nanos() == t.total_nanos() + d.total_nanos()) by (nonlinear_arith)
            requires
                r == (Time {
                    sec: (t.sec + d.sec + 1) as i64,
                    nsec: (t.nsec + d.nsec - NANOS_PER_SEC) as u32,
                }),
                t.wf(),
                d.wf(),
                t.nsec + d.nsec >= NANOS_PER_SEC,
                i64::MIN <= t.sec + d.sec + 1 <= i64::MAX,
        ;
    } else {
        assert(r.total_nanos() == t.total_nanos() + d.total_nanos()) by (nonlinear_arith)
            requires
                r == (Time { sec: (t.sec + d.sec) as i64, nsec: (t.nsec + d.nsec) as u32 }),
                t.wf(),
                d.wf(),
                t.nsec + d.nsec < NANOS_PER_SEC,
                i64::MIN <= t.sec + d.sec <= i64::MAX,
        ;
    }
    lemma_total_nanos_injective(r, Time { sec: sec as i64, nsec: nsec as u32 });
}

/// The seconds part of a normalized, representable difference stays within `i64`.
proof fn lemma_diff_sec_in_range(a: Time, b: Time, sec: int, nsec: int)
    requires
        a.wf(),
        b.wf(),
        representable_nanos(a.total_nanos() - b.total_nanos()),
        sec * (NANOS_PER_SEC as int) + nsec == a.total_nanos() - b.total_nanos(),
        0 <= nsec < NANOS_PER_SEC,
    ensures
        i64::MIN <= sec <= i64::MAX,
        time_sub(a, b) == (Duration { sec: sec as i64, nsec: nsec as u32 }),
        time_sub(a, b).wf(),
        time_sub(a, b).total_nanos() == a.total_nanos() - b.total_nanos(),
{
    assert(i64::MIN <= sec <= i64::MAX) by (nonlinear_arith)
        requires
            sec * (NANOS_PER_SEC as int) + nsec == a.total_nanos() - b.total_nanos(),
            representable_nanos(a.total_nanos() - b.total_nanos()),
            0 <= nsec < NANOS_PER_SEC,
    ;
    let r = time_sub(a, b);
    if a.nsec >= b.nsec {
        assert(r.total_nanos() == a.total_nanos() - b.total_nanos()) by (nonlinear_arith)
            requires
                r == (Duration { sec: (a.sec - b.sec) as i64, nsec: (a.nsec - b.nsec) as u32 }),
                a.wf(),
                b.wf(),
                a.nsec >= b.nsec,
                i64::MIN <= a.sec - b.sec <= i64::MAX,
        ;
    } else {
        assert(r.total_nanos() == a.total_nanos() - b.total_nanos()) by (nonlinear_arith)
            requires
                r == (Duration {
                    sec: (a.sec - b.sec - 1) as i64,
                    nsec: (a.nsec + NANOS_PER_SEC - b.nsec) as u32,
                }),
                a.wf(),
                b.wf(),
                a.nsec < b.nsec,
                i64::MIN <= a.sec - b.sec - 1 <= i64::MAX,
        ;
    }
    let q = Duration { sec: sec as i64, nsec: nsec as u32 };
    assert(r.sec == q.sec) by (nonlinear_arith)
        requires
            r.sec * (NANOS_PER_SEC as int) + r.nsec == q.sec * (NANOS_PER_SEC as int) + q.nsec,
            r.nsec < NANOS_PER_SEC,
            q.nsec < NANOS_PER_SEC,
    ;
}

/// Every normalized value's total nanosecond count is representable.
pub proof fn lemma_total_nanos_in_range(t: Time)
    requires
        t.wf(),
    ensures
        representable_nanos(t.total_nanos()),
{
    assert(i64::MIN * (NANOS_PER_SEC as int) <= t.sec * (NANOS_PER_SEC as int) && t.sec * (
    NANOS_PER_SEC as int) <= i64::MAX * (NANOS_PER_SEC as int)) by (nonlinear_arith)
        requires
            i64::MIN <= t.sec <= i64::MAX,
    ;
}

/// The span back to a time at or after the clock's origin is always
/// representable.
pub proof fn lemma_sub_representable(a: Time, b: Time)
    requires
        a.wf(),
        b.wf(),
        0 <= b.total_nanos() <= a.total_nanos(),
    ensures
        representable_nanos(a.total_nanos() - b.total_nanos()),
{
    lemma_total_nanos_in_range(a);
    assert(i64::MIN * (NANOS_PER_SEC as int) <= 0) by (nonlinear_arith);
}

/// A representable sum comes out normalized and exact.
pub proof fn lemma_time_add_total(t: Time, d: Duration)
    requires
        t.wf(),
        d.wf(),
        representable_nanos(t.total_nanos() + d.total_nanos()),
    ensures
        time_add(t, d).wf(),
        time_add(t, d).total_nanos() == t.total_nanos() + d.total_nanos(),
{
    if t.nsec + d.nsec >= NANOS_PER_SEC {
        assert((t.sec + d.sec + 1) * (NANOS_PER_SEC as int) + (t.nsec + d.nsec
            - NANOS_PER_SEC) == t.total_nanos() + d.total_nanos()) by (nonlinear_arith)
            requires
                t.total_nanos() == t.sec * (NANOS_PER_SEC as int) + t.nsec,
                d.total_nanos() == d.sec * (NANOS_PER_SEC as int) + d.nsec,
        ;
        lemma_sum_sec_in_range(t, d, t.sec + d.sec + 1, t.nsec + d.nsec - NANOS_PER_SEC);
    } else {
        assert((t.sec + d.sec) * (NANOS_PER_SEC as int) + (t.nsec + d.nsec) == t.total_nanos()
            + d.total_nanos()) by (nonlinear_arith)
            requires
                t.total_nanos() == t.sec * (NANOS_PER_SEC as int) + t.nsec,
                d.total_nanos() == d.sec * (NANOS_PER_SEC as int) + d.nsec,
        ;
        lemma_sum_sec_in_range(t, d, t.sec + d.sec, t.nsec + d.nsec);
    }
}

/// A representable difference comes out normalized and exact.
pub proof fn lemma_time_sub_total(a: Time, b: Time)
    requires
        a.wf(),
        b.wf(),
        representable_nanos(a.total_nanos() - b.total_nanos()),
    ensures
        time_sub(a, b).wf(),
        time_sub(a, b).total_nanos() == a.total_nanos() - b.total_nanos(),
{
    if a.nsec >= b.nsec {
        assert((a.sec - b.sec) * (NANOS_PER_SEC as int) + (a.nsec - b.nsec) == a.total_nanos()
            - b.total_nanos()) by (nonlinear_arith)
            requires
                a.total_nanos() == a.sec * (NANOS_PER_SEC as int) + a.nsec,
                b.total_nanos() == b.sec * (NANOS_PER_SEC as int) + b.nsec,
        ;
        lemma_diff_sec_in_range(a, b, a.sec - b.sec, a.nsec - b.nsec);
    } else {
        assert((a.sec - b.sec - 1) * (NANOS_PER_SEC as int) + (a.nsec + NANOS_PER_SEC
            - b.nsec) == a.total_nanos() - b.total_nanos()) by (nonlinear_arith)
            requires
                a.total_nanos() == a.sec * (NANOS_PER_SEC as int) + a.nsec,
                b.total_nanos() == b.sec * (NANOS_PER_SEC as int) + b.nsec,
        ;
        lemma_diff_sec_in_range(a, b, a.sec - b.sec - 1, a.nsec + NANOS_PER_SEC - b.nsec);
    }
}

/// Adding a span to a time and subtracting the time again recovers the
/// span exactly, whenever the sum is representable.
pub proof fn lemma_round_trip(t: Time, d: Duration)
    requires
        t.wf(),
        d.wf(),
        representable_nanos(t.total_nanos() + d.total_nanos()),
    ensures
        time_sub(time_add(t, d), t) == d,
{
    let s = time_add(t, d);
    if t.nsec + d.nsec >= NANOS_PER_SEC {
        assert(i64::MIN <= t.sec + d.sec + 1 <= i64::MAX) by (nonlinear_arith)
            requires
                t.wf(),
                d.wf(),
                t.nsec + d.nsec >= NANOS_PER_SEC,
                representable_nanos(t.total_nanos() + d.total_nanos()),
        ;
        assert(s.nsec < t.nsec);
        assert(time_sub(s, t) == d);
    } else {
        assert(i64::MIN <= t.sec + d.sec <= i64::MAX) by (nonlinear_arith)
            requires
                t.wf(),
                d.wf(),
                t.nsec + d.nsec < NANOS_PER_SEC,
                representable_nanos(t.total_nanos() + d.total_nanos()),
        ;
        assert(s.nsec >= t.nsec);
        assert(time_sub(s, t) == d);
    }
}

impl PartialOrd for Time {
    /// Total order on times: by seconds, then by the nanosecond part.
    fn partial_cmp(&self, other: &Self) -> (r: Option<core::cmp::Ordering>) {
        proof {
            use_type_invariant(*self);
            use_type_invariant(*other);
            lemma_order_matches_total_nanos(self.sec as int, self.nsec as int,
                other.sec as int, other.nsec as int);
        }
        if self.sec < other.sec {
            Some(core::cmp::Ordering::Less)
        } else if self.sec > other.sec {
            Some(core::cmp::Ordering::Greater)
        } else if self.nsec < other.nsec {
            Some(core::cmp::Ordering::Less)
        } else if self.nsec > other.nsec {
            Some(core::cmp::Ordering::Greater)
        } else {
            Some(core::cmp::Ordering::Equal)
        }
    }
}

impl vstd::std_specs::cmp::PartialOrdSpecImpl for Time {
    open spec fn obeys_partial_cmp_spec() -> bool {
        true
    }

    open spec fn partial_cmp_spec(&self, other: &Self) -> Option<core::cmp::Ordering> {
        if self.total_nanos() < other.total_nanos() {
            Some(core::cmp::Ordering::Less)
        } else if self.total_nanos() > other.total_nanos() {
            Some(core::cmp::Ordering::Greater)
        } else {
            Some(core::cmp::Ordering::Equal)
        }
    }
}

impl PartialOrd for Duration {
    /// Total order on spans: by seconds, then by the nanosecond part.
    fn partial_cmp(&self, other: &Self) -> (r: Option<core::cmp::Ordering>) {
        proof {
            use_type_invariant(*self);
            use_type_invariant(*other);
            lemma_order_matches_total_nanos(self.sec as int, self.nsec as int,
                other.sec as int, other.nsec as int);
        }
        if self.sec < other.sec {
            Some(core::cmp::Ordering::Less)
        } else if self.sec > other.sec {
            Some(core::cmp::Ordering::Greater)
        } else if self.nsec < other.nsec {
            Some(core::cmp::Ordering::Less)
        } else if self.nsec > other.nsec {
            Some(core::cmp::Ordering::Greater)
        } else {
            Some(core::cmp::Ordering::Equal)
        }
    }
}

impl vstd::std_specs::cmp::PartialOrdSpecImpl for Duration {
    open spec fn obeys_partial_cmp_spec() -> bool {
        true
    }

    open spec fn partial_cmp_spec(&self, other: &Self) -> Option<core::cmp::Ordering> {
        if self.total_nanos() < other.total_nanos() {
            Some(core::cmp::Ordering::Less)
        } else if self.total_nanos() > other.total_nanos() {
            Some(core::cmp::Ordering::Greater)
        } else {
            Some(core::cmp::Ordering::Equal)
        }
    }
}

/// On normalized values the lexicographic field order is the order of
/// total nanosecond counts.
proof fn lemma_order_matches_total_nanos(asec: int, ansec: int, bsec: int, bnsec: int)
    requires
        0 <= ansec < NANOS_PER_SEC,
        0 <= bnsec < NANOS_PER_SEC,
    ensures
        asec < bsec ==> asec * (NANOS_PER_SEC as int) + ansec < bsec * (NANOS_PER_SEC as int)
            + bnsec,
        asec == bsec && ansec < bnsec ==> asec * (NANOS_PER_SEC as int) + ansec < bsec * (
        NANOS_PER_SEC as int) + bnsec,
        asec * (NANOS_PER_SEC as int) + ansec < bsec * (NANOS_PER_SEC as int) + bnsec ==> (asec
            < bsec || (asec == bsec && ansec < bnsec)),
{
    assert(asec < bsec ==> asec * (NANOS_PER_SEC as int) + (NANOS_PER_SEC as int) <= bsec * (
    NANOS_PER_SEC as int)) by (nonlinear_arith);
    assert(bsec < asec ==> bsec * (NANOS_PER_SEC as int) + (NANOS_PER_SEC as int) <= asec * (
    NANOS_PER_SEC as int)) by (nonlinear_arith);
}

impl Duration {
    /// A span of `ms` milliseconds.
    pub fn from_millis(ms: u32) -> (r: Duration)
        ensures
            r.total_nanos() == ms * 1_000_000,
    {
        let r = Duration { sec: (ms / 1000) as i64, nsec: (ms % 1000) * 1_000_000 };
        proof {
            assert(r.total_nanos() == ms * 1_000_000) by (nonlinear_arith)
                requires
                    r.sec == ms / 1000,
                    r.nsec == (ms % 1000) * 1_000_000,
            ;
        }
        r
    }

    /// A span of `us` microseconds.
    pub fn from_micros(us: u32) -> (r: Duration)
        ensures
            r.total_nanos() == us * 1000,
    {
        let r = Duration { sec: (us / 1_000_000) as i64, nsec: (us % 1_000_000) * 1000 };
        proof {
            assert(r.total_nanos() == us * 1000) by (nonlinear_arith)
                requires
                    r.sec == us / 1_000_000,
                    r.nsec == (us % 1_000_000) * 1000,
            ;
        }
        r
    }

    /// A span of `secs` seconds plus `nanos` nanoseconds; `nanos` may exceed
    /// one second and is folded into the seconds.
    pub fn from_secs_nanos(secs: i64, nanos: u32) -> (r: Duration)
        requires
            representable_nanos(secs * (NANOS_PER_SEC as int) + nanos),
        ensures
            r.total_nanos() == secs * (NANOS_PER_SEC as int) + nanos,
    {
        let carry: u32 = nanos / NANOS_PER_SEC;
        let rest: u32 = nanos % NANOS_PER_SEC;
        proof {
            assert(i64::MIN <= secs + carry <= i64::MAX && (secs + carry) * (
            NANOS_PER_SEC as int) + rest == secs * (NANOS_PER_SEC as int) + nanos)
                by (nonlinear_arith)
                requires
                    representable_nanos(secs * (NANOS_PER_SEC as int) + nanos),
                    carry == nanos / NANOS_PER_SEC,
                    rest == nanos % NANOS_PER_SEC,
                    nanos <= u32::MAX,
            ;
        }
        let r = Duration { sec: secs + carry as i64, nsec: rest };
        proof {
            assert(r.total_nanos() == secs * (NANOS_PER_SEC as int) + nanos) by (nonlinear_arith)
                requires
                    r.sec == secs + carry,
                    r.nsec == rest,
                    (secs + carry) * (NANOS_PER_SEC as int) + rest == secs * (
                    NANOS_PER_SEC as int) + nanos,
            ;
        }
        r
    }

    /// The zero-length span.
    pub fn zero() -> (r: Duration)
        ensures
            r.total_nanos() == 0,
    {
        Duration { sec: 0, nsec: 0 }
    }

    /// This span as the standard library's duration type; only for spans
    /// that are not negative.
    pub(crate) fn to_core(self) -> (r: core::time::Duration)
        requires
            self.total_nanos() >= 0,
        ensures
            crate::runtime::dur_secs(r) == self.sec_spec() as u64,
            crate::runtime::dur_nanos(r) == self.nsec_spec(),
    {
        proof {
            use_type_invariant(self);
            assert(self.sec >= 0) by (nonlinear_arith)
                requires
                    self.sec * (NANOS_PER_SEC as int) + self.nsec >= 0,
                    self.nsec < NANOS_PER_SEC,
            ;
        }
        core::time::Duration::new(self.sec as u64, self.nsec)
    }
}

impl Time {
    /// The clock's current reading, as the span since the clock's origin;
    /// never before the origin, and never past the "no deadline" sentinel.
    pub fn now() -> (r: Time)
        ensures
            r.total_nanos() >= 0,
            r.total_nanos() <= Time::no_deadline_spec().total_nanos(),
    {
        let st = crate::runtime::clock_now();
        let d = crate::runtime::clock_since_epoch(&st);
        let secs_u: u64 = d.as_secs();
        let nanos: u32 = d.subsec_nanos();
        let secs: i64 = if secs_u > (i64::MAX as u64) {
            i64::MAX
        } else {
            secs_u as i64
        };
        let r = Time { sec: secs, nsec: nanos };
        proof {
            assert(r.total_nanos() >= 0) by (nonlinear_arith)
                requires
                    r.sec_spec() >= 0,
                    r.total_nanos() == r.sec_spec() * (NANOS_PER_SEC as int) + r.nsec_spec(),
            ;
            lemma_total_nanos_in_range(r);
        }
        r
    }

    /// True when `self` is no later than `other`.
    pub fn le(&self, other: &Time) -> (r: bool)
        ensures
            r == (self.total_nanos() <= other.total_nanos()),
    {
        proof {
            use_type_invariant(*self);
            use_type_invariant(*other);
            lemma_order_matches_total_nanos(
                self.sec as int,
                self.nsec as int,
                other.sec as int,
                other.nsec as int,
            );
            lemma_order_matches_total_nanos(
                other.sec as int,
                other.nsec as int,
                self.sec as int,
                self.nsec as int,
            );
        }
        self.sec < other.sec || (self.sec == other.sec && self.nsec <= other.nsec)
    }
}

/// What converting the standard library's duration yields: its seconds as
/// the runtime's signed count, taken as written, plus its sub-second part.
pub closed spec fn from_core_spec(d: core::time::Duration) -> Duration {
    Duration {
        sec: crate::runtime::dur_secs(d) as i64,
        nsec: crate::runtime::dur_nanos(d),
    }
}

impl From<core::time::Duration> for Duration {
    /// The standard library's duration brought into this crate's shape.
    fn from(d: core::time::Duration) -> (r: Duration) {
        let secs_u: u64 = d.as_secs();
        let nanos: u32 = d.subsec_nanos();
        let secs: i64 = #[verifier::truncate] (secs_u as i64);
        Duration { sec: secs, nsec: nanos }
    }
}

impl vstd::std_specs::convert::FromSpecImpl<core::time::Duration> for Duration {
    open spec fn obeys_from_spec() -> bool {
        true
    }

    open spec fn from_spec(d: core::time::Duration) -> Duration {
        from_core_spec(d)
    }
}

} // verus!
