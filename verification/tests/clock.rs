use dk::clock::{count_overflow, elapsed, ticks, uptime, Sample};
use dk::time::Duration;

/// A sample with no overflow left to count.
fn settled(hi1: u32, low: u32, hi2: u32) -> Sample {
    Sample { hi1, pending1: false, low, pending2: false, hi2 }
}

/// A sample with an overflow left to count.
fn pending(hi1: u32, low: u32, hi2: u32) -> Sample {
    Sample { hi1, pending1: true, low, pending2: true, hi2 }
}

fn nanos(ticks: u64) -> u64 {
    let span = elapsed(ticks);
    span.as_secs() * 1_000_000_000 + u64::from(span.subsec_nanos())
}

#[test]
fn uptime_before_initialisation_is_zero() {
    let sample = settled(0, 0, 0);
    assert_eq!(uptime(sample), Some(Duration::new(0, 0)));
}

#[test]
fn torn_sample_gives_nothing() {
    let sample = settled(1, 0xff_ffff, 2);
    assert_eq!(ticks(sample), None);
    assert_eq!(uptime(sample), None);
}

#[test]
fn sample_joins_its_parts() {
    let sample = settled(0x12, 0x34_5678, 0x12);
    assert_eq!(ticks(sample), Some(0x1234_5678));
    let sample = settled(u32::MAX, 0xff_ffff, u32::MAX);
    assert_eq!(ticks(sample), Some(0xff_ffff_ffff_ffff));
}

#[test]
fn sample_gives_the_ticks_at_the_middle_reading() {
    let (t1, t2, t3) = (0x500_0001u64, 0x5a0_0002, 0x5ff_ffff);
    let sample = settled((t1 >> 24) as u32, (t2 & 0xff_ffff) as u32, (t3 >> 24) as u32);
    assert_eq!(ticks(sample), Some(t2));
}

#[test]
fn one_overflow_is_512_seconds() {
    let sample = settled(1, 0, 1);
    assert_eq!(uptime(sample), Some(Duration::new(512, 0)));
}

#[test]
fn uptime_of_one_tick_and_of_half_a_second() {
    assert_eq!(elapsed(1), Duration::new(0, 30_516));
    assert_eq!(elapsed(16_384), Duration::new(0, 500_000_000));
}

#[test]
fn uptime_just_before_a_full_second() {
    assert_eq!(elapsed(32_767), Duration::new(0, 999_969_481));
    assert_eq!(elapsed(32_768), Duration::new(1, 0));
    assert_eq!(elapsed(3 * 32_768 + 1), Duration::new(3, 30_516));
}

#[test]
fn uptime_at_the_end_of_the_counters() {
    let span = elapsed(u64::MAX);
    assert_eq!(span.as_secs(), u64::MAX / 32_768);
    assert_eq!(span.subsec_nanos(), 999_969_481);
}

#[test]
fn every_tick_advances_by_thirty_microseconds() {
    for t in 0..70_000 {
        let step = nanos(t + 1) - nanos(t);
        assert!(30_000 <= step && step < 31_000);
    }
}

#[test]
fn time_lags_the_exact_value_by_two_nanoseconds_at_most() {
    for t in 0..70_000 {
        let exact = t * 1_953_125 / 64;
        assert!(nanos(t) <= exact && exact <= nanos(t) + 2);
    }
}

#[test]
fn only_the_start_is_time_zero() {
    assert_eq!(nanos(0), 0);
    assert_ne!(nanos(1), 0);
}

#[test]
fn overflow_is_counted() {
    assert_eq!(count_overflow(0), 1);
    assert_eq!(count_overflow(u32::MAX - 1), u32::MAX);
}

#[test]
fn ticks_go_on_across_an_overflow() {
    let hi = count_overflow(6);
    let last = ticks(settled(6, 0xff_ffff, 6)).unwrap();
    let next = ticks(settled(hi, 0, hi)).unwrap();
    assert_eq!(next, last + 1);
}

#[test]
fn overflow_that_is_not_counted_yet_is_part_of_the_time() {
    assert_eq!(uptime(pending(0, 0, 0)), Some(Duration::new(512, 0)));
    assert_eq!(ticks(pending(6, 0x12_3456, 6)), Some(0x712_3456));
    assert_eq!(uptime(pending(6, 32_768, 6)), Some(Duration::new(7 * 512 + 1, 0)));
}

#[test]
fn time_does_not_go_back_while_an_overflow_waits_to_be_counted() {
    let before = ticks(settled(3, 0xff_ffff, 3)).unwrap();
    let masked = ticks(pending(3, 0, 3)).unwrap();
    let counted = ticks(settled(4, 0, 4)).unwrap();
    assert_eq!(masked, before + 1);
    assert_eq!(counted, masked);
}

#[test]
fn pending_overflow_on_top_of_the_most_that_can_be_counted() {
    assert_eq!(ticks(pending(u32::MAX, 5, u32::MAX)), Some((1 << 56) + 5));
}

#[test]
fn overflow_in_the_middle_of_a_sample_gives_nothing() {
    let came = Sample { hi1: 2, pending1: false, low: 0, pending2: true, hi2: 2 };
    assert_eq!(ticks(came), None);
    assert_eq!(uptime(came), None);
    let went = Sample { hi1: 2, pending1: true, low: 7, pending2: false, hi2: 3 };
    assert_eq!(uptime(went), None);
    let counted = Sample { hi1: 2, pending1: true, low: 7, pending2: true, hi2: 3 };
    assert_eq!(uptime(counted), None);
}

#[test]
fn whole_seconds_shift_the_time_exactly() {
    for t in [0, 1, 7, 32_767, 32_768, 1_000_003] {
        assert_eq!(nanos(t + 5 * 32_768), nanos(t) + 5_000_000_000);
    }
}
