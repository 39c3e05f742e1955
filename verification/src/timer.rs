//! Blocking delays, made of the shorter delays that the hardware timer can run.
//!
//! The hardware timer counts microseconds in 32 bits, so a long wait takes several runs of
//! it. A `Timer` holds what is left of a wait and says how long the next run has to be.

use crate::time::Duration;
use vstd::prelude::*;

verus! {

/// Timer cycles in one second: one cycle takes a microsecond.
pub const MICROS_IN_ONE_SEC: u32 = 1_000_000;

/// The most seconds whose cycles can be counted in one run of the timer.
pub const MAX_SECS: u32 = u32::MAX / MICROS_IN_ONE_SEC;

/// A timer for creating blocking delays.
///
/// Its view is the delays, in timer cycles, that the wait under way still asks for.
pub struct Timer {
    micros: u32,
    secs: u64,
}

/// The cycles for the part of a span of `span` nanoseconds that is below one second. A
/// microsecond that has begun counts in full.
pub open spec fn subsec_cycles(span: nat) -> nat {
    (span % 1_000_000_000 + 999) / 1_000
}

/// The delay for `cycles` cycles: one run of the timer, or none where nothing is to wait.
pub open spec fn subsec_delays(cycles: nat) -> Seq<u32> {
    if cycles == 0 {
        Seq::empty()
    } else {
        seq![cycles as u32]
    }
}

/// The delays for `secs` whole seconds: as many of the longest one as fit, and the rest.
pub open spec fn second_delays(secs: nat) -> Seq<u32> {
    Seq::new(
        (secs + MAX_SECS as nat - 1) as nat / (MAX_SECS as nat),
        |i: int|
            if (i + 1) * MAX_SECS <= secs {
                (MAX_SECS * MICROS_IN_ONE_SEC) as u32
            } else {
                ((secs - i * MAX_SECS) * MICROS_IN_ONE_SEC) as u32
            },
    )
}

/// The delays that a wait of `span` nanoseconds asks for, in order.
pub open spec fn wait_delays(span: nat) -> Seq<u32> {
    subsec_delays(subsec_cycles(span)) + second_delays(span / 1_000_000_000)
}

/// The cycles of all `delays` together.
pub open spec fn total_cycles(delays: Seq<u32>) -> nat
    decreases delays.len(),
{
    if delays.len() == 0 {
        0
    } else {
        delays[0] as nat + total_cycles(delays.skip(1))
    }
}

impl View for Timer {
    type V = Seq<u32>;

    closed spec fn view(&self) -> Seq<u32> {
        subsec_delays(self.micros as nat) + second_delays(self.secs as nat)
    }
}

impl Timer {
    /// A timer with no wait under way.
    pub fn new() -> (timer: Timer)
        ensures
            timer@ == Seq::<u32>::empty(),
    {
        let timer = Timer { micros: 0, secs: 0 };
        assert(timer@ =~= Seq::<u32>::empty());
        timer
    }

    /// Begins a wait for at least the specified `duration`. A wait that was still under way
    /// is given up.
    pub fn wait(&mut self, duration: Duration)
        ensures
            final(self)@ == wait_delays(duration@),
    {
        let nanos: u32 = duration.subsec_nanos();
        self.micros = (nanos + 999) / 1_000;
        self.secs = duration.as_secs();
    }

    /// The next delay that the wait asks for, in timer cycles, or nothing once the wait is
    /// over.
    pub fn next_delay(&mut self) -> (cycles: Option<u32>)
        ensures
            match cycles {
                Some(c) => {
                    &&& old(self)@.len() > 0
                    &&& c == old(self)@[0]
                    &&& final(self)@ == old(self)@.skip(1)
                },
                None => old(self)@.len() == 0 && final(self)@ == old(self)@,
            },
    {
        let ghost pending = self@;
        if self.micros != 0 {
            let cycles: u32 = self.micros;
            self.micros = 0;
            assert(self@ =~= pending.skip(1));
            Some(cycles)
        } else if self.secs == 0 {
            None
        } else if self.secs > MAX_SECS as u64 {
            proof {
                lemma_second_delays_step(self.secs as nat);
            }
            self.secs = self.secs - MAX_SECS as u64;
            assert(self@ =~= pending.skip(1));
            Some(MAX_SECS * MICROS_IN_ONE_SEC)
        } else {
            proof {
                lemma_second_delays_step(self.secs as nat);
            }
            let cycles: u32 = self.secs as u32 * MICROS_IN_ONE_SEC;
            self.secs = 0;
            assert(self@ =~= pending.skip(1));
            Some(cycles)
        }
    }
}

/// The first delay for `secs` seconds, and what remains behind it.
proof fn lemma_second_delays_step(secs: nat)
    requires
        secs > 0,
    ensures
        secs > MAX_SECS ==> {
            &&& second_delays(secs) == seq![(MAX_SECS * MICROS_IN_ONE_SEC) as u32]
                + second_delays((secs - MAX_SECS) as nat)
        },
        secs <= MAX_SECS ==> second_delays(secs) == seq![(secs * MICROS_IN_ONE_SEC) as u32],
{
    if secs > MAX_SECS {
        assert(second_delays(secs) =~= seq![(MAX_SECS * MICROS_IN_ONE_SEC) as u32]
            + second_delays((secs - MAX_SECS) as nat));
    } else {
        assert(second_delays(secs) =~= seq![(secs * MICROS_IN_ONE_SEC) as u32]);
    }
}

/// The delays for whole seconds add up to exactly those seconds.
proof fn lemma_second_delays_total(secs: nat)
    ensures
        total_cycles(second_delays(secs)) == secs * MICROS_IN_ONE_SEC,
    decreases secs,
{
    reveal_with_fuel(total_cycles, 2);
    if secs == 0 {
    } else if secs > MAX_SECS {
        lemma_second_delays_step(secs);
        lemma_second_delays_total((secs - MAX_SECS) as nat);
        assert(second_delays(secs).skip(1) =~= second_delays((secs - MAX_SECS) as nat));
    } else {
        lemma_second_delays_step(secs);
    }
}

/// The delays of a wait of `span` nanoseconds together take the least number of whole
/// microseconds that is no shorter than the span: a wait blocks for at least the time
/// asked for, and less than a microsecond more.
pub proof fn law_wait_is_long_enough(span: nat)
    ensures
        total_cycles(wait_delays(span)) * 1_000 >= span,
        total_cycles(wait_delays(span)) * 1_000 < span + 1_000,
{
    let secs = span / 1_000_000_000;
    let delays = wait_delays(span);
    lemma_second_delays_total(secs);
    if subsec_cycles(span) == 0 {
        assert(delays =~= second_delays(secs));
    } else {
        assert(delays.skip(1) =~= second_delays(secs));
    }
}

/// The delays of a wait of `secs` seconds and `nanos` nanoseconds: first the part below a second,
/// as the least whole number `cycles` of microseconds that covers it, unless there is none, then
/// as many delays of 4294 seconds as leave a rest, then the rest, which is no longer.
pub proof fn law_wait_in_parts(
    secs: nat,
    nanos: nat,
    cycles: nat,
    full: nat,
    rest: nat,
)
    requires
        nanos < 1_000_000_000,
        nanos <= cycles * 1_000 < nanos + 1_000,
        secs == full * 4_294 + rest,
        rest <= 4_294,
        rest == 0 <==> secs == 0,
    ensures
        wait_delays(secs * 1_000_000_000 + nanos) == (if cycles == 0 {
            Seq::<u32>::empty()
        } else {
            seq![cycles as u32]
        }) + Seq::new(full, |i: int| 4_294_000_000u32) + (if rest == 0 {
            Seq::<u32>::empty()
        } else {
            seq![(rest * 1_000_000) as u32]
        }),
{
    let span = secs * 1_000_000_000 + nanos;
    assert(span / 1_000_000_000 == secs);
    assert(span % 1_000_000_000 == nanos);
    assert(subsec_cycles(span) == cycles);
    let tail = if rest == 0 {
        Seq::<u32>::empty()
    } else {
        seq![(rest * 1_000_000) as u32]
    };
    assert(second_delays(secs) =~= Seq::new(full, |i: int| 4_294_000_000u32) + tail);
    assert(wait_delays(span) =~= subsec_delays(cycles) + Seq::new(full, |i: int| 4_294_000_000u32)
        + tail);
}

/// No run of the timer is asked for in vain: every delay of a wait takes at least one
/// cycle.
pub proof fn law_delays_are_positive(span: nat, i: int)
    requires
        0 <= i < wait_delays(span).len(),
    ensures
        wait_delays(span)[i] > 0,
{
}

} // verus!
