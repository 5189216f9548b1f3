//! The launch meter: a fraction that sweeps from zero to one once a second
//! while the player waits to launch, and decides the coin's starting speed.

use vstd::prelude::*;
use crate::math::UNIT;

verus! {

/// How far the launch meter has swept, as a fraction in millionths.
#[derive(Debug, Clone, Copy, PartialEq, Eq, Structural)]
pub struct CoinLaunchSpeedPercentage(pub i64);

/// Milliseconds are thousandths of a second; the meter counts millionths.
pub const METER_STEP_PER_MILLI: i64 = 1_000;

impl CoinLaunchSpeedPercentage {
    /// The meter `dt` milliseconds later: it advances by `dt` seconds' worth
    /// and, once past one, keeps only its fractional part. A meter that lands
    /// exactly on one stays there for that tick.
    pub open spec fn advanced(self, dt: int) -> int {
        let swept = self.0 + dt * METER_STEP_PER_MILLI;
        if swept > UNIT { swept % (UNIT as int) } else { swept }
    }

    /// The meter shows a fraction between zero and one.
    pub open spec fn wf(self) -> bool {
        0 <= self.0 <= UNIT
    }
}

/// Puts the meter back to zero.
pub fn reset_launch_speed(speed: &mut CoinLaunchSpeedPercentage)
    ensures
        final(speed).0 == 0,
{
    speed.0 = 0;
}

/// Advances the meter by `dt` milliseconds.
pub fn update_speed(speed: &mut CoinLaunchSpeedPercentage, dt: u32)
    ensures
        final(speed).0 == old(speed).advanced(dt as int),
        old(speed).wf() ==> final(speed).wf(),
{
    assert(0 <= dt * METER_STEP_PER_MILLI <= 0xffff_ffff * 1_000) by (nonlinear_arith)
        requires METER_STEP_PER_MILLI == 1_000, 0 <= dt <= 0xffff_ffff;
    let swept: i128 = (speed.0 as i128) + (dt as i128) * (METER_STEP_PER_MILLI as i128);
    if swept > UNIT as i128 {
        speed.0 = (swept % (UNIT as i128)) as i64;
    } else {
        speed.0 = swept as i64;
    }
}

} // verus!
