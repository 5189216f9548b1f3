//! A gentle pulse in size for pickups and for the glow around a fairy.

use vstd::prelude::*;
use crate::math::UNIT;

verus! {

/// The smallest scale of the pulse, in millionths: four fifths.
pub const ANIM_SCALE_MIN: i64 = 800_000;

/// The largest scale of the pulse, in millionths: six fifths.
pub const ANIM_SCALE_MAX: i64 = 1_200_000;

/// The scale changes by one whole per second: this much per millisecond.
pub const ANIM_SCALE_STEP_PER_MILLI: i64 = 1_000;

/// A scale that swings between [`ANIM_SCALE_MIN`] and [`ANIM_SCALE_MAX`];
/// `direction` is the sign of its motion.
#[derive(Debug, Clone, Copy, PartialEq, Eq, Structural)]
pub struct AnimScale {
    pub scale: i64,
    pub direction: i64,
}

impl Default for AnimScale {
    fn default() -> (anim: AnimScale)
        ensures
            anim == (AnimScale { scale: UNIT, direction: 1 }),
            anim.wf(),
    {
        AnimScale { scale: UNIT, direction: 1 }
    }
}

impl AnimScale {
    /// The scale lies within the swing and the direction is a sign.
    pub open spec fn wf(self) -> bool {
        &&& ANIM_SCALE_MIN <= self.scale <= ANIM_SCALE_MAX
        &&& (self.direction == 1 || self.direction == -1)
    }

    /// The pulse `dt` milliseconds later: the scale moves on in its
    /// direction; where it would pass the end of its swing it stops there and
    /// turns round.
    pub open spec fn animated(self, dt: int) -> AnimScale {
        if self.direction < 0 {
            let moved = self.scale - dt * ANIM_SCALE_STEP_PER_MILLI;
            if moved < ANIM_SCALE_MIN {
                AnimScale { scale: ANIM_SCALE_MIN, direction: 1 }
            } else {
                AnimScale { scale: moved as i64, direction: self.direction }
            }
        } else {
            let moved = self.scale + dt * ANIM_SCALE_STEP_PER_MILLI;
            if moved > ANIM_SCALE_MAX {
                AnimScale { scale: ANIM_SCALE_MAX, direction: (-1) as i64 }
            } else {
                AnimScale { scale: moved as i64, direction: self.direction }
            }
        }
    }
}

/// Advances the pulse by `dt` milliseconds and hands back the scale at which
/// to draw, the same along both axes.
pub fn animate_scale(anim: &mut AnimScale, dt: u32) -> (scale: i64)
    ensures
        *final(anim) == old(anim).animated(dt as int),
        scale == final(anim).scale,
        old(anim).wf() ==> final(anim).wf(),
{
    assert(0 <= dt * ANIM_SCALE_STEP_PER_MILLI <= 0xffff_ffff * 1_000) by (nonlinear_arith)
        requires ANIM_SCALE_STEP_PER_MILLI == 1_000, 0 <= dt <= 0xffff_ffff;
    let travel: i128 = (dt as i128) * (ANIM_SCALE_STEP_PER_MILLI as i128);
    if anim.direction < 0 {
        let moved: i128 = (anim.scale as i128) - travel;
        if moved < ANIM_SCALE_MIN as i128 {
            anim.scale = ANIM_SCALE_MIN;
            anim.direction = 1;
        } else {
            anim.scale = moved as i64;
        }
    } else {
        let moved: i128 = (anim.scale as i128) + travel;
        if moved > ANIM_SCALE_MAX as i128 {
            anim.scale = ANIM_SCALE_MAX;
            anim.direction = -1;
        } else {
            anim.scale = moved as i64;
        }
    }
    anim.scale
}

} // verus!
