use dk::time::Duration;
use dk::timer::{MAX_SECS, MICROS_IN_ONE_SEC};
use dk::Timer;

fn delays(secs: u64, nanos: u32) -> Vec<u32> {
    let mut timer = Timer::new();
    timer.wait(Duration::new(secs, nanos));
    let mut delays = Vec::new();
    while let Some(cycles) = timer.next_delay() {
        delays.push(cycles);
    }
    assert_eq!(timer.next_delay(), None);
    delays
}

#[test]
fn duration_carries_nanoseconds_over() {
    let span = Duration::new(3, 2_500_000_000);
    assert_eq!(span.as_secs(), 5);
    assert_eq!(span.subsec_nanos(), 500_000_000);
    assert_eq!(span, Duration::new(5, 500_000_000));
}

#[test]
fn duration_up_to_the_largest() {
    let span = Duration::new(u64::MAX, 999_999_999);
    assert_eq!(span.as_secs(), u64::MAX);
    assert_eq!(span.subsec_nanos(), 999_999_999);
}

#[test]
fn longest_delay_fits_and_no_longer_one_does() {
    assert_eq!(MAX_SECS, 4_294);
    assert!(MAX_SECS.checked_mul(MICROS_IN_ONE_SEC).is_some());
    assert!((MAX_SECS + 1).checked_mul(MICROS_IN_ONE_SEC).is_none());
}

#[test]
fn no_time_takes_no_delay() {
    assert!(delays(0, 0).is_empty());
}

#[test]
fn fraction_comes_before_the_seconds() {
    assert_eq!(delays(2, 500_000_000), vec![500_000, 2_000_000]);
}

#[test]
fn fraction_alone() {
    assert_eq!(delays(0, 1_000), vec![1]);
    assert_eq!(delays(0, 999_999_000), vec![999_999]);
}

#[test]
fn begun_microseconds_are_waited_out() {
    assert_eq!(delays(0, 1), vec![1]);
    assert_eq!(delays(0, 1_001), vec![2]);
    assert_eq!(delays(1, 999_999_001), vec![1_000_000, 1_000_000]);
}

#[test]
fn long_waits_are_split() {
    assert_eq!(delays(4_293, 0), vec![4_293_000_000]);
    assert_eq!(delays(4_294, 0), vec![4_294_000_000]);
    assert_eq!(delays(4_295, 0), vec![4_294_000_000, 1_000_000]);
    assert_eq!(delays(8_588, 0), vec![4_294_000_000, 4_294_000_000]);
    assert_eq!(delays(10_000, 3_000), vec![3, 4_294_000_000, 4_294_000_000, 1_412_000_000]);
}

#[test]
fn delays_cover_the_duration_and_hardly_more() {
    for (secs, nanos) in [(0u64, 1u32), (0, 999), (0, 123_456_789), (7, 1), (12_345, 678_901_234)] {
        let span = u128::from(secs) * 1_000_000_000 + u128::from(nanos);
        let total: u128 = delays(secs, nanos).iter().map(|c| u128::from(*c) * 1_000).sum();
        assert!(total >= span);
        assert!(total < span + 1_000);
    }
}

#[test]
fn delays_are_never_zero() {
    for (secs, nanos) in [(0u64, 0u32), (0, 1), (1, 0), (4_294, 0), (4_294, 1), (9_000, 500)] {
        assert!(delays(secs, nanos).iter().all(|c| *c > 0));
    }
}

#[test]
fn longest_wait_begins_with_the_longest_delay() {
    let mut timer = Timer::new();
    timer.wait(Duration::new(u64::MAX, 0));
    assert_eq!(timer.next_delay(), Some(4_294_000_000));
    assert_eq!(timer.next_delay(), Some(4_294_000_000));
}

#[test]
fn new_wait_replaces_the_old_one() {
    let mut timer = Timer::new();
    timer.wait(Duration::new(9_999, 0));
    assert_eq!(timer.next_delay(), Some(4_294_000_000));
    timer.wait(Duration::new(1, 0));
    assert_eq!(timer.next_delay(), Some(1_000_000));
    assert_eq!(timer.next_delay(), None);
}
