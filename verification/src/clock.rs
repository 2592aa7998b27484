//! A clock that turns frames of any length into ticks of one fixed length.

use vstd::prelude::*;
use vstd::arithmetic::div_mod::{
    lemma_fundamental_div_mod, lemma_fundamental_div_mod_converse, lemma_mod_bound,
};

verus! {

/// Ticks in a second at the rate that the simulation runs at.
pub const TICKS_PER_SECOND: u64 = 60;

/// Length of a tick of a sixtieth of a second, in units of a sixtieth of a
/// nanosecond. In this unit the step is a whole number.
pub const SIXTIETH_STEP: u64 = 1_000_000_000;

/// The length of `nanoseconds` in sixtieths of a nanosecond, or the longest
/// span that can be counted where that is shorter.
pub open spec fn sixtieths_of(nanoseconds: u64) -> u64 {
    if nanoseconds * TICKS_PER_SECOND <= u64::MAX {
        (nanoseconds * TICKS_PER_SECOND) as u64
    } else {
        u64::MAX
    }
}

/// Converts a span in nanoseconds to the unit in which `SIXTIETH_STEP` is
/// counted.
pub fn sixtieths_of_nanoseconds(nanoseconds: u64) -> (units: u64)
    ensures
        units == sixtieths_of(nanoseconds),
{
    if nanoseconds > u64::MAX / TICKS_PER_SECOND {
        u64::MAX
    } else {
        nanoseconds * TICKS_PER_SECOND
    }
}

/// The ticks that come due when `elapsed` is added to `pending`.
pub open spec fn ticks_due(pending: int, elapsed: int, step: int) -> int {
    (pending + elapsed) / step
}

/// What is left of `pending + elapsed` once the ticks that came due are
/// taken out.
pub open spec fn pending_after(pending: int, elapsed: int, step: int) -> int {
    (pending + elapsed) % step
}

/// An accumulator of elapsed time. Whatever the unit of time is, the step
/// and every elapsed span are counted in it. The time that is pending is
/// always shorter than a step.
#[derive(Clone, Copy, Debug, PartialEq, Eq)]
pub struct FixedStepClock {
    step: u64,
    pending: u64,
}

impl FixedStepClock {
    #[verifier::type_invariant]
    spec fn no_tick_pending(self) -> bool {
        self.pending < self.step
    }

    /// Length of a tick.
    pub closed spec fn step(&self) -> u64 {
        self.step
    }

    /// Time that has elapsed and has not made up a tick yet.
    pub closed spec fn pending(&self) -> u64 {
        self.pending
    }

    /// A clock with ticks of `step` and nothing pending. There is no clock
    /// with ticks of no length.
    pub fn new(step: u64) -> (clock: Option<FixedStepClock>)
        ensures
            step == 0 ==> clock is None,
            step != 0 ==> clock is Some && clock->Some_0.step() == step
                && clock->Some_0.pending() == 0,
    {
        if step == 0 {
            None
        } else {
            Some(FixedStepClock { step, pending: 0 })
        }
    }

    /// The clock of the simulation: sixty ticks in a second, counted in
    /// sixtieths of a nanosecond, with nothing pending.
    pub fn sixty_per_second() -> (clock: FixedStepClock)
        ensures
            clock.step() == SIXTIETH_STEP,
            clock.pending() == 0,
    {
        FixedStepClock { step: SIXTIETH_STEP, pending: 0 }
    }

    pub fn step_len(&self) -> (step: u64)
        ensures
            step == self.step(),
            step > 0,
    {
        proof {
            use_type_invariant(self);
        }
        self.step
    }

    pub fn pending_time(&self) -> (pending: u64)
        ensures
            pending == self.pending(),
            pending < self.step(),
    {
        proof {
            use_type_invariant(self);
        }
        self.pending
    }

    /// Adds the length of a frame and returns the number of ticks to run
    /// for it: as many whole steps as the pending time now holds. What is
    /// left stays pending.
    pub fn advance(&mut self, elapsed: u64) -> (ticks: u64)
        ensures
            ticks == ticks_due(old(self).pending() as int, elapsed as int, old(self).step() as int),
            final(self).pending() == pending_after(
                old(self).pending() as int,
                elapsed as int,
                old(self).step() as int,
            ),
            final(self).step() == old(self).step(),
            final(self).pending() < final(self).step(),
    {
        proof {
            use_type_invariant(&*self);
        }
        let step = self.step;
        let whole = elapsed / step;
        let rest = elapsed % step;
        let room = step - self.pending;
        proof {
            lemma_fundamental_div_mod(elapsed as int, step as int);
            lemma_mod_bound(elapsed as int, step as int);
        }
        if rest >= room {
            assert(whole < u64::MAX) by (nonlinear_arith)
                requires
                    elapsed == step * whole + rest,
                    rest >= 1,
                    step >= 2,
                    elapsed <= u64::MAX,
                    whole >= 0,
            ;
            let left = rest - room;
            proof {
                assert(step * (whole + 1) == step * whole + step) by (nonlinear_arith);
                lemma_fundamental_div_mod_converse(
                    self.pending + elapsed,
                    step as int,
                    whole + 1,
                    left as int,
                );
            }
            self.pending = left;
            whole + 1
        } else {
            let left = self.pending + rest;
            proof {
                lemma_fundamental_div_mod_converse(
                    self.pending + elapsed,
                    step as int,
                    whole as int,
                    left as int,
                );
            }
            self.pending = left;
            whole
        }
    }
}

/// The clock neither loses time nor makes any: the ticks that came due and
/// what stays pending add up to what was pending and what elapsed. Less
/// than a step stays pending.
pub proof fn lemma_time_is_kept(pending: int, elapsed: int, step: int)
    requires
        0 <= pending,
        0 <= elapsed,
        0 < step,
    ensures
        ticks_due(pending, elapsed, step) * step + pending_after(pending, elapsed, step) == pending
            + elapsed,
        0 <= pending_after(pending, elapsed, step) < step,
        0 <= ticks_due(pending, elapsed, step),
{
    lemma_fundamental_div_mod(pending + elapsed, step);
    lemma_mod_bound(pending + elapsed, step);
    let t = ticks_due(pending, elapsed, step);
    assert(step * t == t * step) by (nonlinear_arith);
    assert(0 <= t) by (nonlinear_arith)
        requires
            t * step + pending_after(pending, elapsed, step) >= 0,
            pending_after(pending, elapsed, step) < step,
            0 < step,
    ;
}

/// Two and a half steps on a clock with nothing pending give two ticks and
/// leave half a step.
pub proof fn lemma_two_and_a_half_steps(half: int)
    requires
        0 < half,
    ensures
        ticks_due(0, 5 * half, 2 * half) == 2,
        pending_after(0, 5 * half, 2 * half) == half,
{
    assert((2 * half) * 2 + half == 5 * half);
    lemma_fundamental_div_mod_converse(5 * half, 2 * half, 2, half);
}

/// How the time is cut into frames does not matter: two frames give the
/// ticks of one frame of their joint length, and leave the same pending.
pub proof fn lemma_frames_add_up(pending: int, first: int, second: int, step: int)
    requires
        0 <= pending,
        0 <= first,
        0 <= second,
        0 < step,
    ensures
        ticks_due(pending, first, step) + ticks_due(
            pending_after(pending, first, step),
            second,
            step,
        ) == ticks_due(pending, first + second, step),
        pending_after(pending_after(pending, first, step), second, step) == pending_after(
            pending,
            first + second,
            step,
        ),
{
    let ticks_first = ticks_due(pending, first, step);
    let left_first = pending_after(pending, first, step);
    let ticks_second = ticks_due(left_first, second, step);
    let left_second = pending_after(left_first, second, step);
    lemma_time_is_kept(pending, first, step);
    lemma_time_is_kept(left_first, second, step);
    assert(step * (ticks_first + ticks_second) + left_second == pending + first + second)
        by (nonlinear_arith)
        requires
            ticks_first * step + left_first == pending + first,
            ticks_second * step + left_second == left_first + second,
    ;
    lemma_fundamental_div_mod_converse(
        pending + first + second,
        step,
        ticks_first + ticks_second,
        left_second,
    );
}

} // verus!
