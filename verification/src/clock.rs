//! Turning elapsed time into ticks of whole milliseconds.
//!
//! The simulation counts time in milliseconds, while frames end at arbitrary
//! microseconds. The clock hands out the whole milliseconds that have passed
//! and carries the rest over to the next frame, so that no time is lost or
//! made up over a run of frames.

use vstd::prelude::*;

verus! {

/// Microseconds in one millisecond.
pub const MICROS_PER_MILLI: u32 = 1_000;

/// The part of a millisecond that has passed but has not been handed out.
#[derive(Debug, Clone, Copy, PartialEq, Eq, Structural)]
pub struct Clock {
    pub carry_micros: u32,
}

impl Default for Clock {
    fn default() -> (clock: Clock)
        ensures
            clock.carry_micros == 0,
            clock.wf(),
    {
        Clock { carry_micros: 0 }
    }
}

impl Clock {
    /// Less than a millisecond is carried.
    pub open spec fn wf(self) -> bool {
        self.carry_micros < MICROS_PER_MILLI
    }

    /// The whole milliseconds that are due after `elapsed_micros` more
    /// microseconds.
    pub open spec fn due(self, elapsed_micros: int) -> int {
        (self.carry_micros + elapsed_micros) / (MICROS_PER_MILLI as int)
    }

    /// The microseconds that are carried on after `elapsed_micros` more.
    pub open spec fn carried(self, elapsed_micros: int) -> int {
        (self.carry_micros + elapsed_micros) % (MICROS_PER_MILLI as int)
    }

    /// Accounts for a frame of `elapsed_micros` microseconds and hands back
    /// the length of the tick to run, in milliseconds. The tick and the new
    /// carry together are exactly the old carry and the frame.
    pub fn advance(&mut self, elapsed_micros: u32) -> (dt: u32)
        ensures
            dt == old(self).due(elapsed_micros as int),
            final(self).carry_micros == old(self).carried(elapsed_micros as int),
            dt * MICROS_PER_MILLI + final(self).carry_micros == old(self).carry_micros
                + elapsed_micros,
            final(self).wf(),
    {
        let total: u64 = self.carry_micros as u64 + elapsed_micros as u64;
        self.carry_micros = (total % 1_000) as u32;
        (total / 1_000) as u32
    }
}

/// Over a run of frames the ticks add up to the time that has passed, short
/// of what is still carried: nothing is lost and nothing is made up.
pub proof fn lemma_clock_keeps_time(clock: Clock, first: int, second: int)
    requires
        first >= 0,
        second >= 0,
        fits_u32(clock.carried(first)),
    ensures
        clock.due(first) + (Clock { carry_micros: clock.carried(first) as u32 }).due(second)
            == clock.due(first + second),
        (Clock { carry_micros: clock.carried(first) as u32 }).carried(second) == clock.carried(
            first + second,
        ),
{
    let a = clock.carry_micros + first;
    assert(a == 1_000 * (a / 1_000) + a % 1_000) by (nonlinear_arith);
    let b = a % 1_000 + second;
    assert(b == 1_000 * (b / 1_000) + b % 1_000) by (nonlinear_arith);
    let c = a + second;
    assert(c == 1_000 * (a / 1_000 + b / 1_000) + b % 1_000);
    assert(c / 1_000 == a / 1_000 + b / 1_000 && c % 1_000 == b % 1_000) by (nonlinear_arith)
        requires
            c == 1_000 * (a / 1_000 + b / 1_000) + b % 1_000,
            0 <= b % 1_000 < 1_000,
    ;
}

/// `v` can be held in a `u32`.
pub open spec fn fits_u32(v: int) -> bool {
    0 <= v <= u32::MAX
}

} // verus!
