use safesync::Duration;
use safesync::Time;

#[test]
fn duration_round_trip_through_time_addition() {
    // A span converted from the standard library's representation, added
    // to a time and subtracted again, comes back equal.
    let d = Duration::from(std::time::Duration::from_millis(1500));
    let t = Time::zero();
    let later = t + d;
    let back = later - t;
    assert_eq!(back, d);

    let now = Time::now();
    let d2 = Duration::from(std::time::Duration::new(3, 250_000_000));
    let later = now + d2;
    assert_eq!(later - now, d2);
}

#[test]
fn duration_constructors_agree() {
    assert_eq!(Duration::from_millis(1500), Duration::from_secs_nanos(1, 500_000_000));
    assert_eq!(Duration::from_micros(2_500_000), Duration::from_secs_nanos(2, 500_000_000));
    assert_eq!(Duration::from_millis(0), Duration::zero());
    // A nanosecond part of a second or more is folded into the seconds.
    assert_eq!(Duration::from_secs_nanos(0, 1_500_000_000), Duration::from_secs_nanos(1, 500_000_000));
    assert_eq!(
        Duration::from(std::time::Duration::from_millis(250)),
        Duration::from_millis(250)
    );
}

#[test]
fn times_are_totally_ordered() {
    let t0 = Time::zero();
    let t1 = t0 + Duration::from_millis(1);
    assert!(t0 < t1);
    assert!(t1 > t0);
    assert!(t0 <= t0);
    assert_eq!(t0, t0);

    // No deadline lies after every reading of the clock.
    let now = Time::now();
    assert!(now < Time::no_deadline());
    assert!(t0 < Time::no_deadline());
}

#[test]
fn subtraction_can_go_negative() {
    let t0 = Time::zero();
    let t1 = t0 + Duration::from_millis(500);
    let negative = t0 - t1;
    assert!(negative < Duration::zero());
    // And adding it back returns to the start.
    assert_eq!(t1 + negative, t0);
}
