//! The camera that follows the coin: a smoothed vertical pan driven by the
//! coin's fall, and a sky that darkens with altitude. Both only observe the
//! coin.

use vstd::prelude::*;
use crate::coin::Coin;
use crate::math::{
    div_floor, fits_i64, lemma_div_floor_bounds, lerp, lerp_spec, min_int, mul_div, mul_div_spec,
    MILLIS_PER_SECOND, UNIT,
};

verus! {

/// The coin may steer this far to either side of the centre: 200 units.
pub const COIN_SCREEN_BOUNDS_X: i64 = 200_000_000;

/// Half the height of the visible world: 350 units.
pub const COIN_SCREEN_BOUNDS_Y: i64 = 350_000_000;

/// Where the camera rests while the coin is not falling: 150 units up.
pub const CAMERA_PAN_Y_DIST: i64 = 150_000_000;

/// A falling speed of one unit per second pulls the camera target one unit up.
pub const LENGTH_PER_SPEED: i64 = 1_000;

/// The altitude at which the sky has turned black: 20000 units.
pub const SKY_CEILING: i64 = 20_000_000_000;

/// The red part of the sky at ground level, in millionths of full intensity:
/// 145 of 255.
pub const SKY_RED: i64 = 568_627;

/// The green part of the sky at ground level: 142 of 255.
pub const SKY_GREEN: i64 = 556_863;

/// The blue part of the sky at ground level: 229 of 255.
pub const SKY_BLUE: i64 = 898_039;

/// A colour; each channel is a fraction of full intensity in millionths.
#[derive(Debug, Clone, Copy, PartialEq, Eq, Structural)]
pub struct Color {
    pub r: i64,
    pub g: i64,
    pub b: i64,
}

/// The height the camera is drawn toward: its rest height, raised by the
/// coin's falling speed. A rising coin does not move the target.
pub open spec fn camera_target(speed: int) -> int {
    CAMERA_PAN_Y_DIST - min_int(speed, 0) * LENGTH_PER_SPEED
}

/// The camera height after `dt` milliseconds: the camera closes the fraction
/// `dt / 1 s` of its distance to the target, rounded toward negative
/// infinity. It does so on every tick, however near the target is.
pub open spec fn camera_step(y: int, speed: int, dt: int) -> int {
    y + ((camera_target(speed) - y) * dt) / (MILLIS_PER_SECOND as int)
}

/// How far the sky has faded at `altitude`, as a fraction in millionths: the
/// altitude's share of the ceiling, capped at one. Below ground it is negative.
pub open spec fn sky_fade(altitude: int) -> int {
    min_int(mul_div_spec(altitude, UNIT as int, SKY_CEILING as int), UNIT as int)
}

/// The colour of the sky at `altitude`: every channel moves from its ground
/// value toward black by the fade.
pub open spec fn sky_color(altitude: int) -> Color {
    Color {
        r: lerp_spec(SKY_RED as int, 0, sky_fade(altitude)) as i64,
        g: lerp_spec(SKY_GREEN as int, 0, sky_fade(altitude)) as i64,
        b: lerp_spec(SKY_BLUE as int, 0, sky_fade(altitude)) as i64,
    }
}

/// A channel that starts between zero and one stays non-negative however far
/// the sky fades, reaches zero at full fade, and can be held in 64 bits.
pub proof fn lemma_channel_bounds(channel: int, altitude: int)
    requires
        0 <= channel <= UNIT,
        fits_i64(altitude),
    ensures
        0 <= lerp_spec(channel, 0, sky_fade(altitude)),
        fits_i64(lerp_spec(channel, 0, sky_fade(altitude))),
        altitude >= 0 ==> lerp_spec(channel, 0, sky_fade(altitude)) <= channel,
        altitude >= SKY_CEILING ==> lerp_spec(channel, 0, sky_fade(altitude)) == 0,
        fits_i64(mul_div_spec(altitude, UNIT as int, SKY_CEILING as int)),
{
    let share = mul_div_spec(altitude, UNIT as int, SKY_CEILING as int);
    assert(share == altitude / 20_000) by (nonlinear_arith)
        requires share == (altitude * 1_000_000) / 20_000_000_000;
    let fade = sky_fade(altitude);
    assert(-0x2_0000_0000_0000 <= fade <= UNIT);
    let product = (0 - channel) * fade;
    assert(-channel * 1_000_000 <= product <= 1_000_000 * 0x2_0000_0000_0000) by (nonlinear_arith)
        requires
            product == (0 - channel) * fade,
            0 <= channel <= 1_000_000,
            -0x2_0000_0000_0000 <= fade <= 1_000_000,
    ;
    assert(-channel <= product / 1_000_000 <= 0x2_0000_0000_0000) by (nonlinear_arith)
        requires
            -channel * 1_000_000 <= product <= 1_000_000 * 0x2_0000_0000_0000,
    ;
    if altitude >= 0 {
        assert(fade >= 0);
        assert(product <= 0) by (nonlinear_arith)
            requires product == (0 - channel) * fade, channel >= 0, fade >= 0;
        lemma_div_floor_bounds(product, 1_000_000);
    }
    if altitude >= SKY_CEILING {
        assert(fade == UNIT);
        assert(product / 1_000_000 == -channel) by (nonlinear_arith)
            requires product == (0 - channel) * 1_000_000;
    }
}

/// With ticks of at most a second the camera never passes its target: it
/// stays on the side of the target on which it was, and comes no further
/// from it. A camera on its target stays there, a tick of no length moves
/// nothing, and a tick of a whole second lands on the target.
pub proof fn lemma_camera_approaches_target(y: int, speed: int, dt: int)
    requires
        0 <= dt <= MILLIS_PER_SECOND,
    ensures
        y <= camera_target(speed) ==> y <= camera_step(y, speed, dt) <= camera_target(speed),
        y >= camera_target(speed) ==> y >= camera_step(y, speed, dt) >= camera_target(speed),
        y == camera_target(speed) ==> camera_step(y, speed, dt) == y,
        dt == 0 ==> camera_step(y, speed, dt) == y,
        dt == MILLIS_PER_SECOND ==> camera_step(y, speed, dt) == camera_target(speed),
{
    let dist = camera_target(speed) - y;
    if dist >= 0 {
        assert(0 <= (dist * dt) / 1_000 <= dist) by (nonlinear_arith)
            requires dist >= 0, 0 <= dt <= 1_000;
    } else {
        assert(dist <= (dist * dt) / 1_000 <= 0) by (nonlinear_arith)
            requires dist < 0, 0 <= dt <= 1_000;
    }
    if dt == MILLIS_PER_SECOND {
        assert((dist * 1_000) / 1_000 == dist) by (nonlinear_arith);
    }
    if dt == 0 {
        assert(dist * 0 == 0) by (nonlinear_arith);
    }
}

/// Pans the camera toward its target for one tick of `dt` milliseconds: the
/// camera moves by its distance to the target times the length of the tick
/// in seconds, rounded toward negative infinity.
pub fn pan_camera_with_coin_speed(coin: &Coin, camera_y: &mut i64, dt: u32)
    requires
        fits_i64(camera_step(*old(camera_y) as int, coin.speed as int, dt as int)),
    ensures
        *final(camera_y) == camera_step(*old(camera_y) as int, coin.speed as int, dt as int),
        *final(camera_y) == *old(camera_y) + ((camera_target(coin.speed as int) - *old(camera_y))
            * dt) / (MILLIS_PER_SECOND as int),
{
    let fall: i128 = if coin.speed < 0 { coin.speed as i128 } else { 0 };
    let target: i128 = (CAMERA_PAN_Y_DIST as i128) - fall * (LENGTH_PER_SPEED as i128);
    let dist: i128 = target - (*camera_y as i128);
    assert(-0x1_0000_0000_0000_0000_0000 * 0x1_0000_0000 <= dist * dt
        <= 0x1_0000_0000_0000_0000_0000 * 0x1_0000_0000) by (nonlinear_arith)
        requires
            -0x1_0000_0000_0000_0000_0000 <= dist <= 0x1_0000_0000_0000_0000_0000,
            0 <= dt <= 0x1_0000_0000,
    ;
    let step: i128 = div_floor(dist * (dt as i128), MILLIS_PER_SECOND as i128);
    proof {
        lemma_div_floor_bounds(dist * dt, MILLIS_PER_SECOND as int);
    }
    *camera_y = ((*camera_y as i128) + step) as i64;
}

/// The colour to clear the screen with while the coin is at its present
/// altitude.
pub fn set_sky_color(coin: &Coin) -> (color: Color)
    ensures
        color == sky_color(coin.altitude as int),
        color.r == lerp_spec(SKY_RED as int, 0, sky_fade(coin.altitude as int)),
        color.g == lerp_spec(SKY_GREEN as int, 0, sky_fade(coin.altitude as int)),
        color.b == lerp_spec(SKY_BLUE as int, 0, sky_fade(coin.altitude as int)),
        0 <= color.r && 0 <= color.g && 0 <= color.b,
{
    proof {
        lemma_channel_bounds(SKY_RED as int, coin.altitude as int);
        lemma_channel_bounds(SKY_GREEN as int, coin.altitude as int);
        lemma_channel_bounds(SKY_BLUE as int, coin.altitude as int);
    }
    let share = mul_div(coin.altitude, UNIT, SKY_CEILING);
    let fade = if share < UNIT { share } else { UNIT };
    Color { r: lerp(SKY_RED, 0, fade), g: lerp(SKY_GREEN, 0, fade), b: lerp(SKY_BLUE, 0, fade) }
}

} // verus!
