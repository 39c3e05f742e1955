//! The time since initialisation, from a real-time counter.
//!
//! The hardware counts ticks of the low frequency clock in 24 bits. Each time that counter
//! starts over, it raises an event, and an interrupt adds one to a software counter, which
//! holds the upper bits, and clears the event. Where interrupts are masked that takes a while:
//! an overflow whose event is still there has happened, but is not counted yet.

use crate::time::Duration;
use vstd::prelude::*;

verus! {

/// What the low frequency clock is divided by, less one, to get the ticks.
pub const RTC_PRESCALER: u32 = 0;

/// Ticks in one second.
pub const TICKS_PER_SEC: u64 = 32_768;

/// Ticks after which the hardware counter starts over.
pub const TICKS_PER_OVERFLOW: u64 = 0x100_0000;

/// One reading of the counters: the overflows counted and the event of an overflow that is
/// not were read both before and after the hardware counter, in the order of the fields.
#[derive(Clone, Copy, Debug, PartialEq, Eq, Structural)]
pub struct Sample {
    /// The overflows counted, read first.
    pub hi1: u32,
    /// Whether an overflow was still to be counted.
    pub pending1: bool,
    /// The hardware counter.
    pub low: u32,
    /// Whether an overflow was still to be counted, read again.
    pub pending2: bool,
    /// The overflows counted, read again.
    pub hi2: u32,
}

/// The overflows counted once one more has happened.
pub fn count_overflow(overflows: u32) -> (counted: u32)
    requires
        overflows < u32::MAX,
    ensures
        counted == overflows + 1,
{
    overflows + 1
}

impl Sample {
    /// Whether the readings before and after the hardware counter agree.
    pub open spec fn agrees(self) -> bool {
        self.hi1 == self.hi2 && self.pending1 == self.pending2
    }

    /// The overflows that had happened before the hardware counter was read, counted or not.
    pub open spec fn overflows(self) -> nat {
        self.hi1 as nat + if self.pending1 {
            1
        } else {
            0nat
        }
    }
}

/// The ticks that `sample` gives: the hardware counter, and above its 24 bits the overflows.
pub open spec fn sample_ticks(sample: Sample) -> u64 {
    (sample.low as u64) | ((sample.overflows() as u64) << 24)
}

/// The ticks that a sample gives, or nothing if an overflow happened or was counted while it
/// was taken: its parts then may not belong together, and another sample has to be taken.
pub fn ticks(sample: Sample) -> (ticks: Option<u64>)
    ensures
        ticks == if sample.agrees() {
            Some(sample_ticks(sample))
        } else {
            None
        },
        sample.agrees() && sample.low < TICKS_PER_OVERFLOW ==> ticks == Some(
            (sample.overflows() * TICKS_PER_OVERFLOW + sample.low) as u64,
        ),
        ticks is Some <==> sample.hi1 == sample.hi2 && sample.pending1 == sample.pending2,
        ticks matches Some(t) ==> {
            &&& !sample.pending1 ==> t == (sample.low as u64) | ((sample.hi1 as u64) << 24)
            &&& sample.pending1 ==> t == (sample.low as u64) | (((sample.hi1 + 1) as u64) << 24)
            &&& !sample.pending1 && sample.low < 0x100_0000 ==> t == sample.hi1 * 0x100_0000
                + sample.low
            &&& sample.pending1 && sample.low < 0x100_0000 ==> t == (sample.hi1 + 1) * 0x100_0000
                + sample.low
        },
{
    if sample.hi1 == sample.hi2 && sample.pending1 == sample.pending2 {
        let overflows: u64 = if sample.pending1 {
            sample.hi1 as u64 + 1
        } else {
            sample.hi1 as u64
        };
        proof {
            if sample.low < TICKS_PER_OVERFLOW {
                law_sample_ticks(sample);
            }
        }
        Some(sample.low as u64 | overflows << 24)
    } else {
        None
    }
}

/// The overflows and the hardware counter are the upper and the lower part of the ticks, as
/// long as the counter keeps to its 24 bits.
pub proof fn law_sample_ticks(sample: Sample)
    requires
        sample.low < TICKS_PER_OVERFLOW,
    ensures
        sample_ticks(sample) == sample.overflows() * TICKS_PER_OVERFLOW + sample.low,
{
    let low: u64 = sample.low as u64;
    let hi: u64 = sample.overflows() as u64;
    assert(low | (hi << 24) == hi * 0x100_0000 + low) by (bit_vector)
        requires
            low < 0x100_0000,
            hi <= 0x1_0000_0000,
    ;
}

/// The nanoseconds in `ticks` ticks, of less than a second. One tick is `1953125 / 64`
/// nanoseconds, taken as `78125 * (5 / 4) * (5 / 4) * (1 / 4)` and rounded down at each
/// division.
pub open spec fn subsec_nanos(ticks: nat) -> nat {
    ticks * 78_125 / 4 * 5 / 4 * 5 / 4
}

/// The nanoseconds in `ticks` ticks.
pub open spec fn span_of(ticks: nat) -> nat {
    ticks / 32_768 * 1_000_000_000 + subsec_nanos(ticks % 32_768)
}

/// The time that `ticks` ticks take.
pub fn elapsed(ticks: u64) -> (span: Duration)
    ensures
        span@ == span_of(ticks as nat),
{
    let secs: u64 = ticks / TICKS_PER_SEC;
    // subsec ticks
    let rest: u32 = (ticks % TICKS_PER_SEC) as u32;
    // 32-bit arithmetic: the value does not overflow at any stage
    let a: u32 = rest * 78_125;
    assert(a >> 2 == a / 4) by (bit_vector);
    let b: u32 = (a >> 2) * 5;
    assert(b >> 2 == b / 4) by (bit_vector);
    let c: u32 = (b >> 2) * 5;
    assert(c >> 2 == c / 4) by (bit_vector);
    Duration::new(secs, c >> 2)
}

/// Returns the time elapsed since initialisation, as the sample of the counters gives it,
/// or nothing if the sample has to be taken anew.
///
/// An overflow that the interrupt has not come to count yet is part of that time. There can
/// be one such overflow: the hardware does not tell a second one from the first.
///
/// The clock that is read to compute this value has a resolution of 30 microseconds.
pub fn uptime(sample: Sample) -> (span: Option<Duration>)
    ensures
        match span {
            Some(s) => sample.agrees() && s@ == span_of(sample_ticks(sample) as nat),
            None => !sample.agrees(),
        },
        sample.low < TICKS_PER_OVERFLOW ==> (span matches Some(s) ==> s@ == span_of(
            sample.overflows() * TICKS_PER_OVERFLOW as nat + sample.low as nat,
        )),
        span is Some <==> sample.hi1 == sample.hi2 && sample.pending1 == sample.pending2,
        span matches Some(s) ==> {
            &&& !sample.pending1 && sample.low < 0x100_0000 ==> s@ == span_of(
                (sample.hi1 * 0x100_0000 + sample.low) as nat,
            )
            &&& sample.pending1 && sample.low < 0x100_0000 ==> s@ == span_of(
                ((sample.hi1 + 1) * 0x100_0000 + sample.low) as nat,
            )
        },
{
    match ticks(sample) {
        Some(ticks) => Some(elapsed(ticks)),
        None => None,
    }
}

/// A sample agrees exactly if its readings before the hardware counter equal those after it: no
/// sample with equal readings is refused, whatever they are, and none with different ones is
/// taken.
pub proof fn law_equal_readings_agree(sample: Sample)
    ensures
        sample.agrees() <==> sample.hi1 == sample.hi2 && sample.pending1 == sample.pending2,
{
}

/// The ticks of a sample, divided by what the hardware counter can hold, are the overflows
/// counted and the pending one, and leave the hardware counter as the rest.
pub proof fn law_sample_parts(sample: Sample)
    requires
        sample.low < 0x100_0000,
    ensures
        sample_ticks(sample) % 0x100_0000 == sample.low,
        !sample.pending1 ==> sample_ticks(sample) / 0x100_0000 == sample.hi1,
        sample.pending1 ==> sample_ticks(sample) / 0x100_0000 == sample.hi1 + 1,
{
    law_sample_ticks(sample);
}

/// The state of the counters at one moment.
pub struct Moment {
    /// The ticks since initialisation.
    pub ticks: nat,
    /// The overflows that the interrupt has counted.
    pub counted: nat,
    /// Whether the event of an overflow that is not counted yet is there.
    pub pending: bool,
}

impl Moment {
    /// Whether every overflow is accounted for: those counted and the pending one are the
    /// upper part of the ticks.
    pub open spec fn accounted(self) -> bool {
        self.ticks / 0x100_0000 == self.counted + if self.pending {
            1
        } else {
            0nat
        }
    }

    /// Whether the counters can get from this moment to `later`: none of them goes back.
    pub open spec fn leads_to(self, later: Moment) -> bool {
        self.ticks <= later.ticks && self.counted <= later.counted
    }
}

/// A sample whose readings agree is a true one. Let its parts be read at the moments `m1` to
/// `m5`, whatever time passes in between, and whether or not the interrupt comes to count
/// the overflows at once. If the readings before and after the hardware counter agree, the
/// sample gives the ticks at the moment when the hardware counter was read.
pub proof fn law_sample_is_consistent(
    sample: Sample,
    m1: Moment,
    m2: Moment,
    m3: Moment,
    m4: Moment,
    m5: Moment,
)
    requires
        m1.leads_to(m2),
        m2.leads_to(m3),
        m3.leads_to(m4),
        m4.leads_to(m5),
        m1.accounted(),
        m2.accounted(),
        m3.accounted(),
        m4.accounted(),
        m5.accounted(),
        sample.hi1 == m1.counted,
        sample.pending1 == m2.pending,
        sample.low == m3.ticks % 0x100_0000,
        sample.pending2 == m4.pending,
        sample.hi2 == m5.counted,
        sample.agrees(),
    ensures
        sample_ticks(sample) == m3.ticks,
{
    law_sample_ticks(sample);
}

/// The ticks go on across an overflow: with one overflow more and the hardware counter back
/// at zero they are one more than with the counter at its end.
pub proof fn law_overflow_carries(last: Sample, next: Sample)
    requires
        last.low == TICKS_PER_OVERFLOW - 1,
        next.low == 0,
        next.overflows() == last.overflows() + 1,
    ensures
        sample_ticks(next) == sample_ticks(last) + 1,
{
    law_sample_ticks(last);
    law_sample_ticks(next);
}

/// Counting the pending overflow does not change the ticks: it makes no difference whether
/// the interrupt has run yet.
pub proof fn law_counting_keeps_the_ticks(before: Sample, after: Sample)
    requires
        before.pending1,
        !after.pending1,
        after.hi1 == before.hi1 + 1,
        after.low == before.low,
    ensures
        sample_ticks(after) == sample_ticks(before),
{
}

/// The time is zero just as long as no tick was counted, as it is before initialisation.
pub proof fn law_no_ticks_no_time(ticks: nat)
    ensures
        span_of(ticks) == 0 <==> ticks == 0,
{
}

/// Time advances with every tick, by 30 microseconds and less than one more.
pub proof fn law_resolution(ticks: nat)
    ensures
        span_of(ticks) + 30_000 <= span_of(ticks + 1) < span_of(ticks) + 31_000,
{
}

/// The later of two readings is never the lesser one, and only readings in the same tick
/// give the same time.
pub proof fn law_uptime_is_strictly_monotonic(earlier: nat, later: nat)
    requires
        earlier < later,
    ensures
        span_of(earlier) < span_of(later),
    decreases later - earlier,
{
    law_resolution((later - 1) as nat);
    if earlier + 1 < later {
        law_uptime_is_strictly_monotonic(earlier, (later - 1) as nat);
    }
}

/// The time is that of the ticks at `1953125 / 64` nanoseconds each, rounded down, or up to
/// two nanoseconds less.
pub proof fn law_rounding_error(ticks: nat)
    ensures
        span_of(ticks) <= ticks * 1_953_125 / 64 <= span_of(ticks) + 2,
{
}

/// The nanoseconds of the ticks beyond whole seconds come of three divisions by four, each
/// rounded down: let `a` be the fourths in 78125 nanoseconds a tick, `b` the fourths in five times
/// `a`, and `c` the fourths in five times `b`.
pub proof fn law_rounding_steps(secs: nat, ticks: nat, a: nat, b: nat, c: nat)
    requires
        ticks < 32_768,
        4 * a <= 78_125 * ticks < 4 * a + 4,
        4 * b <= 5 * a < 4 * b + 4,
        4 * c <= 5 * b < 4 * c + 4,
    ensures
        span_of(secs * 32_768 + ticks) == secs * 1_000_000_000 + c,
        c < 1_000_000_000,
{
    assert(ticks * 78_125 / 4 == a);
    assert(a * 5 / 4 == b);
    assert(b * 5 / 4 == c);
    assert((secs * 32_768 + ticks) / 32_768 == secs);
    assert((secs * 32_768 + ticks) % 32_768 == ticks);
}

/// The low frequency clock of 32768 hertz, divided as it is, gives the ticks that make a second.
pub proof fn law_tick_rate()
    ensures
        TICKS_PER_SEC * (RTC_PRESCALER + 1) == 32_768,
        TICKS_PER_OVERFLOW == 512 * TICKS_PER_SEC,
{
}

/// Whole seconds are exact: so many seconds' worth of ticks more are just so many seconds more.
pub proof fn law_whole_seconds(ticks: nat, secs: nat)
    ensures
        span_of(ticks + secs * TICKS_PER_SEC as nat) == span_of(ticks) + secs * 1_000_000_000,
{
}

} // verus!
