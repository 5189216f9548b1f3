//! The coin: gravity, steering, boosts, altitude, and the end of a flight.
//!
//! A tick of the coin runs in a fixed order: gravity, the flip animation,
//! steering, the manual boost, altitude integration, and the loss check.

use vstd::prelude::*;
use crate::app_state::Signal;
use crate::coin_camera::COIN_SCREEN_BOUNDS_X;
use crate::coin_launch_ui::CoinLaunchSpeedPercentage;
use crate::math::{
    abs_int, clamp_int, fits_i32, fits_i64, isqrt, lemma_div_floor_bounds, lerp, lerp_spec,
    max_int, min_int, sqrt_floor, UNIT,
};
use crate::rect::{Point, Rect};
use crate::scores::Scores;

verus! {

/// The downward acceleration: 98 units per second squared, which takes 98
/// thousandths of a unit per second off the speed in every millisecond.
pub const GRAVITY: i64 = 98;

/// Half the side of the coin's square bounding box: 25 units.
pub const COIN_HALF_SIZE: i64 = 25_000_000;

/// The side of the coin's square bounding box: 50 units.
pub const COIN_FULL_SIZE: i64 = 50_000_000;

/// The launch speed with the meter at zero: 400 units per second.
pub const COIN_MIN_START_SPEED: i64 = 400_000;

/// The launch speed with the meter at one: 1400 units per second.
pub const COIN_MAX_START_SPEED: i64 = 1_400_000;

/// The boosts a coin is launched with.
pub const COIN_START_BOOSTS: i32 = 3;

/// Above this speed, 2400 units per second, the coin spins no faster.
pub const COIN_ANIM_MAX_COIN_SPEED_CAP: i64 = 2_400_000;

/// Below this speed, 100 units per second, the coin spins no slower.
pub const COIN_ANIM_MIN_COIN_SPEED_CAP: i64 = 100_000;

/// The fastest spin: the face swings by 15 wholes per second, counted in
/// thousandths.
pub const COIN_ANIM_MAX_SPIN_SPEED: i64 = 15_000;

/// A coin no faster than this, a hundredth of a unit per second, does not
/// spin at all.
pub const COIN_ANIM_REST_SPEED: i64 = 10;

/// The sideways speed while steering: 200 units per second.
pub const COIN_ADJUSTMENT_X_SPEED: i64 = 200_000;

/// The upward speed that steering costs: 90 units per second in every
/// second of steering.
pub const COIN_ADJUSTMENT_Y_SPEED_PENALTY: i64 = 90;

/// The speed a manual boost adds: 200 units per second.
pub const COIN_MANUAL_BOOST_SPEED_GAIN: i64 = 200_000;

/// A coin falling faster than this, 400 units per second, has lost.
pub const COIN_LOSE_SPEED: i64 = -400_000;

/// Altitude units per point of score.
pub const SCORE_DIVISOR: i32 = 10;

/// The coin's state of motion.
#[derive(Debug, Clone, Copy, PartialEq, Eq, Structural)]
pub struct Coin {
    /// Upward speed; negative while falling.
    pub speed: i64,
    /// Manual boosts left; never negative.
    pub additional_boosts: i32,
    /// Height climbed: the sum of `speed * dt` over the flight so far.
    pub altitude: i64,
    /// The greatest altitude reached so far.
    pub highest_altitude_recorded: i64,
}

/// The flip of the coin's face: `orientation` swings between minus one and
/// one (in millionths), `direction` is the sign of its motion. It only
/// decides how the coin is drawn.
#[derive(Debug, Clone, Copy, PartialEq, Eq, Structural)]
pub struct CoinAnimation {
    pub orientation: i64,
    pub direction: i64,
}

/// What the player is doing during one tick.
#[derive(Debug, Clone, Copy, PartialEq, Eq, Structural)]
pub struct Controls {
    /// "Steer left" is held.
    pub left: bool,
    /// "Steer right" is held.
    pub right: bool,
    /// The boost key went down in this tick.
    pub boost: bool,
}

/// A coin over the unbounded integers: what the contracts and laws of this
/// module speak of.
pub struct CoinModel {
    pub speed: int,
    pub additional_boosts: int,
    pub altitude: int,
    pub highest_altitude_recorded: int,
}

impl View for Coin {
    type V = CoinModel;

    open spec fn view(&self) -> CoinModel {
        CoinModel {
            speed: self.speed as int,
            additional_boosts: self.additional_boosts as int,
            altitude: self.altitude as int,
            highest_altitude_recorded: self.highest_altitude_recorded as int,
        }
    }
}

impl CoinModel {
    /// Every field can be held by a [`Coin`].
    pub open spec fn representable(self) -> bool {
        &&& fits_i64(self.speed)
        &&& fits_i32(self.additional_boosts)
        &&& fits_i64(self.altitude)
        &&& fits_i64(self.highest_altitude_recorded)
    }

    /// The coin as it must be kept: boosts are not negative.
    pub open spec fn wf(self) -> bool {
        self.additional_boosts >= 0
    }

    /// Gravity acting for `dt` milliseconds.
    pub open spec fn fallen(self, dt: int) -> CoinModel {
        CoinModel { speed: self.speed - GRAVITY * dt, ..self }
    }

    /// Steering for `dt` milliseconds: while exactly one of the two keys is
    /// held, the coin pays the steering penalty.
    pub open spec fn steered(self, left: bool, right: bool, dt: int) -> CoinModel {
        if left == right {
            self
        } else {
            CoinModel { speed: self.speed - COIN_ADJUSTMENT_Y_SPEED_PENALTY * dt, ..self }
        }
    }

    /// A press of the boost key: with a boost left, one is spent and the coin
    /// gains speed at once; without, nothing happens.
    pub open spec fn boosted(self, pressed: bool) -> CoinModel {
        if pressed && self.additional_boosts > 0 {
            CoinModel {
                speed: self.speed + COIN_MANUAL_BOOST_SPEED_GAIN,
                additional_boosts: self.additional_boosts - 1,
                ..self
            }
        } else {
            self
        }
    }

    /// Altitude integration over `dt` milliseconds at the present speed.
    pub open spec fn risen(self, dt: int) -> CoinModel {
        let altitude = self.altitude + self.speed * dt;
        CoinModel {
            altitude,
            highest_altitude_recorded: max_int(self.highest_altitude_recorded, altitude),
            ..self
        }
    }

    /// One tick of the coin's own motion, in the fixed order: gravity,
    /// steering, boost, altitude.
    pub open spec fn ticked(self, controls: Controls, dt: int) -> CoinModel {
        self.fallen(dt).steered(controls.left, controls.right, dt).boosted(controls.boost).risen(dt)
    }

    /// The coin falls faster than the loss threshold.
    pub open spec fn lost(self) -> bool {
        self.speed < COIN_LOSE_SPEED
    }

    /// The score of the flight: the highest altitude in whole units, rounded
    /// down, divided by ten without remainder. A height too large for a score
    /// counts as the largest height a score can express.
    pub open spec fn score(self) -> int {
        let whole = clamp_int(
            self.highest_altitude_recorded / (UNIT as int),
            i32::MIN as int,
            i32::MAX as int,
        );
        if whole >= 0 {
            whole / (SCORE_DIVISOR as int)
        } else {
            -((-whole) / (SCORE_DIVISOR as int))
        }
    }
}

/// The x coordinate of the coin after steering for `dt` milliseconds: it moves
/// left or right at the steering speed and is kept on the screen; with both
/// keys or neither held it stays where it is.
pub open spec fn steered_x(x: int, left: bool, right: bool, dt: int) -> int {
    if left == right {
        x
    } else {
        let moved = if left { x - COIN_ADJUSTMENT_X_SPEED * dt } else { x + COIN_ADJUSTMENT_X_SPEED * dt };
        min_int(max_int(moved, -COIN_SCREEN_BOUNDS_X), COIN_SCREEN_BOUNDS_X as int)
    }
}

/// How fast the coin's face turns at a given speed, in thousandths per
/// second: the top spin times the square root of the speed's share of the
/// cap, the speed's magnitude first being held between the two caps.
pub open spec fn spin_speed(speed: int) -> int {
    let capped = max_int(
        min_int(abs_int(speed), COIN_ANIM_MAX_COIN_SPEED_CAP as int),
        COIN_ANIM_MIN_COIN_SPEED_CAP as int,
    );
    sqrt_floor(
        (COIN_ANIM_MAX_SPIN_SPEED * COIN_ANIM_MAX_SPIN_SPEED * capped) / (
        COIN_ANIM_MAX_COIN_SPEED_CAP as int),
    )
}

impl CoinAnimation {
    /// The orientation is a fraction between minus one and one, and the
    /// direction is a sign.
    pub open spec fn wf(self) -> bool {
        &&& -UNIT <= self.orientation <= UNIT
        &&& (self.direction == 1 || self.direction == -1)
    }

    /// The animation after turning at `spin` for `dt` milliseconds: the face
    /// moves on by `spin * dt` in its direction; where it would pass the end
    /// of its swing it stops there and turns round.
    pub open spec fn flipped(self, spin: int, dt: int) -> CoinAnimation {
        if self.direction < 0 {
            let moved = self.orientation - spin * dt;
            if moved < -UNIT {
                CoinAnimation { orientation: (-UNIT) as i64, direction: 1 }
            } else {
                CoinAnimation { orientation: moved as i64, direction: self.direction }
            }
        } else {
            let moved = self.orientation + spin * dt;
            if moved > UNIT {
                CoinAnimation { orientation: UNIT, direction: (-1) as i64 }
            } else {
                CoinAnimation { orientation: moved as i64, direction: self.direction }
            }
        }
    }

    /// The size at which the coin is drawn: full width, and a height that
    /// follows the orientation (negative while the back is showing).
    pub open spec fn sprite_size(self) -> Point {
        Point {
            x: COIN_FULL_SIZE,
            y: ((COIN_FULL_SIZE * self.orientation) / (UNIT as int)) as i64,
        }
    }
}

impl CoinAnimation {
    /// The size at which to draw the coin.
    pub fn drawn_size(&self) -> (size: Point)
        requires
            self.wf(),
        ensures
            size == self.sprite_size(),
    {
        assert(-50_000_000 * 1_000_000 <= COIN_FULL_SIZE * self.orientation <= 50_000_000
            * 1_000_000) by (nonlinear_arith)
            requires COIN_FULL_SIZE == 50_000_000, -1_000_000 <= self.orientation <= 1_000_000;
        proof {
            lemma_div_floor_bounds(COIN_FULL_SIZE * self.orientation, UNIT as int);
        }
        let height: i64 = match (COIN_FULL_SIZE * self.orientation).checked_div_euclid(UNIT) {
            Some(h) => h,
            None => 0,
        };
        Point { x: COIN_FULL_SIZE, y: height }
    }
}

impl Default for Coin {
    fn default() -> (coin: Coin)
        ensures
            coin == (Coin {
                speed: 0,
                additional_boosts: COIN_START_BOOSTS,
                altitude: 0,
                highest_altitude_recorded: 0,
            }),
    {
        Coin { speed: 0, additional_boosts: COIN_START_BOOSTS, altitude: 0, highest_altitude_recorded: 0 }
    }
}

impl Default for CoinAnimation {
    fn default() -> (anim: CoinAnimation)
        ensures
            anim == (CoinAnimation { orientation: UNIT, direction: (-1) as i64 }),
            anim.wf(),
    {
        CoinAnimation { orientation: UNIT, direction: -1 }
    }
}

impl Coin {
    /// The score that the flight would get if it ended now.
    pub fn score(&self) -> (score: i32)
        ensures
            score == self@.score(),
    {
        let whole: i64 = match self.highest_altitude_recorded.checked_div_euclid(UNIT) {
            Some(w) => w,
            None => 0,
        };
        let held: i32 = if whole > i32::MAX as i64 {
            i32::MAX
        } else if whole < i32::MIN as i64 {
            i32::MIN
        } else {
            whole as i32
        };
        held / SCORE_DIVISOR
    }

    /// The coin's bounding box when its centre is at `position`.
    pub fn get_bounds(position: &Point) -> (bounds: Rect)
        requires
            Rect::representable(*position, COIN_HALF_SIZE, COIN_HALF_SIZE),
        ensures
            bounds == Rect::centered(*position, COIN_HALF_SIZE, COIN_HALF_SIZE),
            !bounds.empty(),
    {
        Rect::from_center_half_size(*position, COIN_HALF_SIZE, COIN_HALF_SIZE)
    }
}

/// The coin at the moment of launch: its speed lies between the two start
/// speeds as far as the launch meter had swept; it carries three boosts and
/// has climbed nothing yet.
pub fn setup_coin(launch_speed_percentage: &CoinLaunchSpeedPercentage) -> (coin: Coin)
    requires
        fits_i64(
            lerp_spec(
                COIN_MIN_START_SPEED as int,
                COIN_MAX_START_SPEED as int,
                launch_speed_percentage.0 as int,
            ),
        ),
    ensures
        coin.speed == lerp_spec(
            COIN_MIN_START_SPEED as int,
            COIN_MAX_START_SPEED as int,
            launch_speed_percentage.0 as int,
        ),
        coin.additional_boosts == COIN_START_BOOSTS,
        coin.altitude == 0,
        coin.highest_altitude_recorded == 0,
{
    Coin {
        speed: lerp(COIN_MIN_START_SPEED, COIN_MAX_START_SPEED, launch_speed_percentage.0),
        additional_boosts: COIN_START_BOOSTS,
        altitude: 0,
        highest_altitude_recorded: 0,
    }
}

/// Applies gravity for `dt` milliseconds.
pub fn handle_coin_gravity(coin: &mut Coin, dt: u32)
    requires
        fits_i64(old(coin)@.fallen(dt as int).speed),
    ensures
        final(coin)@ == old(coin)@.fallen(dt as int),
{
    coin.speed = coin.speed - GRAVITY * (dt as i64);
}

/// Turns the coin's face for `dt` milliseconds at the spin that belongs to
/// the coin's speed, and says at which size to draw it. A coin at rest is
/// left alone, and nothing is to be redrawn.
pub fn do_coin_flip_animation(anim: &mut CoinAnimation, coin: &Coin, dt: u32) -> (size: Option<Point>)
    requires
        old(anim).wf(),
    ensures
        final(anim).wf(),
        abs_int(coin.speed as int) <= COIN_ANIM_REST_SPEED ==> *final(anim) == *old(anim)
            && size is None,
        abs_int(coin.speed as int) > COIN_ANIM_REST_SPEED ==> *final(anim) == old(anim).flipped(
            spin_speed(coin.speed as int),
            dt as int,
        ) && size == Some(final(anim).sprite_size()),
{
    if -COIN_ANIM_REST_SPEED <= coin.speed && coin.speed <= COIN_ANIM_REST_SPEED {
        return None;
    }
    let magnitude: i64 = if coin.speed >= COIN_ANIM_MAX_COIN_SPEED_CAP || coin.speed
        <= -COIN_ANIM_MAX_COIN_SPEED_CAP {
        COIN_ANIM_MAX_COIN_SPEED_CAP
    } else if coin.speed >= 0 {
        coin.speed
    } else {
        -coin.speed
    };
    let capped: i64 = if magnitude < COIN_ANIM_MIN_COIN_SPEED_CAP {
        COIN_ANIM_MIN_COIN_SPEED_CAP
    } else {
        magnitude
    };
    assert(COIN_ANIM_MAX_SPIN_SPEED * COIN_ANIM_MAX_SPIN_SPEED * capped == 225_000_000 * capped)
        by (nonlinear_arith)
        requires COIN_ANIM_MAX_SPIN_SPEED == 15_000;
    let squared: i64 = (COIN_ANIM_MAX_SPIN_SPEED * COIN_ANIM_MAX_SPIN_SPEED * capped)
        / COIN_ANIM_MAX_COIN_SPEED_CAP;
    assert(0 <= squared <= 225_000_000);
    let root: u64 = isqrt(squared as u64);
    assert(root <= COIN_ANIM_MAX_SPIN_SPEED) by {
        if root > 15_000 {
            assert(root * root >= 15_001 * 15_001) by (nonlinear_arith)
                requires root >= 15_001;
        }
    }
    let spin: i64 = root as i64;
    assert(spin == spin_speed(coin.speed as int));
    assert(0 <= spin * dt <= 15_000 * 0xffff_ffff) by (nonlinear_arith)
        requires 0 <= spin <= 15_000, 0 <= dt <= 0xffff_ffff;
    let travel: i64 = spin * (dt as i64);
    if anim.direction < 0 {
        let moved: i64 = anim.orientation - travel;
        if moved < -UNIT {
            anim.orientation = -UNIT;
            anim.direction = 1;
        } else {
            anim.orientation = moved;
        }
    } else {
        let moved: i64 = anim.orientation + travel;
        if moved > UNIT {
            anim.orientation = UNIT;
            anim.direction = -1;
        } else {
            anim.orientation = moved;
        }
    }
    Some(anim.drawn_size())
}

/// Steers the coin for `dt` milliseconds. With exactly one of the two keys
/// held the coin moves sideways, stays on the screen, and pays the steering
/// penalty; with both or neither held neither its place nor its speed change.
pub fn handle_coin_adjustments(
    coin: &mut Coin,
    position: &mut Point,
    left_pressed: bool,
    right_pressed: bool,
    dt: u32,
)
    requires
        fits_i64(old(coin)@.steered(left_pressed, right_pressed, dt as int).speed),
    ensures
        final(coin)@ == old(coin)@.steered(left_pressed, right_pressed, dt as int),
        final(position).x == steered_x(old(position).x as int, left_pressed, right_pressed, dt as int),
        final(position).y == old(position).y,
        left_pressed == right_pressed ==> *final(coin) == *old(coin) && *final(position) == *old(
            position,
        ),
{
    if left_pressed == right_pressed {
        return;
    }
    assert(0 <= COIN_ADJUSTMENT_X_SPEED * dt <= 200_000 * 0xffff_ffff) by (nonlinear_arith)
        requires COIN_ADJUSTMENT_X_SPEED == 200_000, 0 <= dt <= 0xffff_ffff;
    let travel: i128 = (COIN_ADJUSTMENT_X_SPEED as i128) * (dt as i128);
    let moved: i128 = if left_pressed {
        (position.x as i128) - travel
    } else {
        (position.x as i128) + travel
    };
    let kept: i128 = if moved < -(COIN_SCREEN_BOUNDS_X as i128) {
        -(COIN_SCREEN_BOUNDS_X as i128)
    } else {
        moved
    };
    position.x = if kept > COIN_SCREEN_BOUNDS_X as i128 { COIN_SCREEN_BOUNDS_X } else { kept as i64 };
    coin.speed = coin.speed - COIN_ADJUSTMENT_Y_SPEED_PENALTY * (dt as i64);
}

/// Handles the boost key: a press with a boost left spends it and adds the
/// boost's speed at once.
pub fn handle_coin_use_boost(coin: &mut Coin, boost_pressed: bool)
    requires
        fits_i64(old(coin)@.boosted(boost_pressed).speed),
    ensures
        final(coin)@ == old(coin)@.boosted(boost_pressed),
        final(coin).additional_boosts <= old(coin).additional_boosts,
        old(coin).additional_boosts >= 0 ==> final(coin).additional_boosts >= 0,
        boost_pressed && old(coin).additional_boosts > 0 ==> final(coin).additional_boosts == old(
            coin,
        ).additional_boosts - 1 && final(coin).speed == old(coin).speed
            + COIN_MANUAL_BOOST_SPEED_GAIN,
        !(boost_pressed && old(coin).additional_boosts > 0) ==> *final(coin) == *old(coin),
        final(coin).altitude == old(coin).altitude,
        final(coin).highest_altitude_recorded == old(coin).highest_altitude_recorded,
{
    if !boost_pressed {
        return;
    }
    if coin.additional_boosts <= 0 {
        return;
    }
    coin.additional_boosts = coin.additional_boosts - 1;
    coin.speed = coin.speed + COIN_MANUAL_BOOST_SPEED_GAIN;
}

/// Integrates the altitude over `dt` milliseconds: the coin climbs by exactly
/// `speed * dt`, and the highest altitude follows where the new one exceeds it.
pub fn calculate_altitude(coin: &mut Coin, dt: u32)
    requires
        fits_i64(old(coin).altitude + old(coin).speed * dt),
    ensures
        final(coin)@ == old(coin)@.risen(dt as int),
        final(coin).altitude == old(coin).altitude + old(coin).speed * dt,
        final(coin).highest_altitude_recorded == max_int(
            old(coin).highest_altitude_recorded as int,
            old(coin).altitude + old(coin).speed * dt,
        ),
        final(coin).highest_altitude_recorded >= old(coin).highest_altitude_recorded,
        final(coin).highest_altitude_recorded >= final(coin).altitude,
        final(coin).speed == old(coin).speed,
        final(coin).additional_boosts == old(coin).additional_boosts,
{
    proof {
        crate::math::lemma_product_fits_i128(coin.speed as int, dt as int);
    }
    let climbed: i128 = (coin.speed as i128) * (dt as i128);
    coin.altitude = ((coin.altitude as i128) + climbed) as i64;
    if coin.altitude > coin.highest_altitude_recorded {
        coin.highest_altitude_recorded = coin.altitude;
    }
}

/// Ends the flight of a coin that falls faster than the loss threshold: its
/// score is registered and the game is told that the coin is lost. Any other
/// coin flies on and the scores stay as they are.
pub fn check_game_over(coin: &Coin, scores: &mut Scores) -> (signal: Option<Signal>)
    ensures
        coin@.lost() ==> signal == Some(Signal::CoinLost) && *final(scores) == old(scores).registered(
            coin@.score() as i32,
        ),
        !coin@.lost() ==> signal is None && *final(scores) == *old(scores),
        fits_i32(coin@.score()),
{
    let score = coin.score();
    if coin.speed < COIN_LOSE_SPEED {
        scores.register_score(score);
        Some(Signal::CoinLost)
    } else {
        None
    }
}

impl CoinModel {
    /// The coin after a sequence of ticks of its own motion; each tick comes
    /// with the controls held during it and its length in milliseconds.
    pub open spec fn flown(self, ticks: Seq<(Controls, nat)>) -> CoinModel
        decreases ticks.len(),
    {
        if ticks.len() == 0 {
            self
        } else {
            self.flown(ticks.drop_last()).ticked(ticks.last().0, ticks.last().1 as int)
        }
    }

    /// The coin after a sequence of boost-key events; each says whether the
    /// key went down.
    pub open spec fn boosted_all(self, presses: Seq<bool>) -> CoinModel
        decreases presses.len(),
    {
        if presses.len() == 0 {
            self
        } else {
            self.boosted_all(presses.drop_last()).boosted(presses.last())
        }
    }
}

/// Altitude integration is exact: over a tick of any length the coin climbs
/// by `speed * dt`, no more and no less. The highest altitude follows the
/// altitude up and never comes down.
pub proof fn lemma_altitude_integration(coin: CoinModel, dt: int)
    requires
        dt > 0,
    ensures
        coin.risen(dt).altitude == coin.altitude + coin.speed * dt,
        coin.risen(dt).highest_altitude_recorded >= coin.highest_altitude_recorded,
        coin.risen(dt).highest_altitude_recorded >= coin.risen(dt).altitude,
        coin.risen(dt).highest_altitude_recorded == coin.highest_altitude_recorded
            || coin.risen(dt).highest_altitude_recorded == coin.risen(dt).altitude,
        coin.risen(dt).speed == coin.speed,
        coin.risen(dt).additional_boosts == coin.additional_boosts,
{
}

/// Within a tick the stages act in their fixed order: the altitude is
/// integrated at the speed that gravity, steering and the boost of the same
/// tick have left.
pub proof fn lemma_tick_order(coin: CoinModel, controls: Controls, dt: int)
    ensures
        coin.ticked(controls, dt).speed == coin.fallen(dt).steered(
            controls.left,
            controls.right,
            dt,
        ).boosted(controls.boost).speed,
        coin.ticked(controls, dt).altitude == coin.altitude + coin.ticked(controls, dt).speed * dt,
        coin.ticked(controls, dt).highest_altitude_recorded >= coin.highest_altitude_recorded,
        coin.wf() ==> coin.ticked(controls, dt).wf(),
{
}

/// Through any sequence of ticks the highest altitude never decreases, it
/// stays at or above the altitude if it started there, and the stock of
/// boosts never becomes negative.
pub proof fn lemma_flight_invariants(coin: CoinModel, ticks: Seq<(Controls, nat)>)
    ensures
        coin.flown(ticks).highest_altitude_recorded >= coin.highest_altitude_recorded,
        coin.highest_altitude_recorded >= coin.altitude ==> coin.flown(
            ticks,
        ).highest_altitude_recorded >= coin.flown(ticks).altitude,
        coin.wf() ==> coin.flown(ticks).wf(),
        coin.flown(ticks).additional_boosts <= coin.additional_boosts,
    decreases ticks.len(),
{
    if ticks.len() > 0 {
        lemma_flight_invariants(coin, ticks.drop_last());
        lemma_tick_order(coin.flown(ticks.drop_last()), ticks.last().0, ticks.last().1 as int);
    }
}

/// The time that a sequence of ticks takes, in milliseconds.
pub open spec fn total_time(ticks: Seq<(Controls, nat)>) -> int
    decreases ticks.len(),
{
    if ticks.len() == 0 {
        0
    } else {
        total_time(ticks.drop_last()) + ticks.last().1
    }
}

/// In none of the ticks does the player steer or boost.
pub open spec fn hands_off(ticks: Seq<(Controls, nat)>) -> bool {
    forall|i: int|
        0 <= i < ticks.len() ==> !(#[trigger] ticks[i]).0.boost && ticks[i].0.left
            == ticks[i].0.right
}

/// In free flight only gravity acts: however the time is cut into ticks, the
/// coin loses the speed that gravity takes in that time, and keeps its
/// boosts. From 1400 units per second, one second leaves 1302.
pub proof fn lemma_free_flight(coin: CoinModel, ticks: Seq<(Controls, nat)>)
    requires
        hands_off(ticks),
    ensures
        coin.flown(ticks).speed == coin.speed - GRAVITY * total_time(ticks),
        coin.flown(ticks).additional_boosts == coin.additional_boosts,
        coin.speed == COIN_MAX_START_SPEED && total_time(ticks) == 1_000 ==> coin.flown(ticks).speed
            == 1_302_000,
    decreases ticks.len(),
{
    if ticks.len() > 0 {
        let earlier = ticks.drop_last();
        assert(hands_off(earlier)) by {
            assert forall|i: int| 0 <= i < earlier.len() implies !(#[trigger] earlier[i]).0.boost
                && earlier[i].0.left == earlier[i].0.right by {
                assert(earlier[i] == ticks[i]);
            }
        }
        lemma_free_flight(coin, earlier);
        let last = ticks[ticks.len() - 1];
        assert(!last.0.boost && last.0.left == last.0.right);
        assert(GRAVITY * (total_time(earlier) + last.1) == GRAVITY * total_time(earlier) + GRAVITY
            * last.1) by (nonlinear_arith);
    }
}

/// After any sequence of boost-key events the stock of boosts is not
/// negative, and no more boosts were spent than there were presses.
pub proof fn lemma_boosts_never_negative(coin: CoinModel, presses: Seq<bool>)
    requires
        coin.wf(),
    ensures
        coin.boosted_all(presses).wf(),
        coin.boosted_all(presses).additional_boosts >= 0,
        coin.additional_boosts - presses.len() <= coin.boosted_all(presses).additional_boosts
            <= coin.additional_boosts,
    decreases presses.len(),
{
    if presses.len() > 0 {
        lemma_boosts_never_negative(coin, presses.drop_last());
    }
}

/// With both steering keys held, or neither, the coin neither moves sideways
/// nor pays the steering penalty.
pub proof fn lemma_opposite_keys_cancel(coin: CoinModel, x: int, dt: int)
    ensures
        coin.steered(true, true, dt) == coin,
        coin.steered(false, false, dt) == coin,
        steered_x(x, true, true, dt) == x,
        steered_x(x, false, false, dt) == x,
{
}

/// Steering keeps the coin on the screen.
pub proof fn lemma_steering_stays_on_screen(x: int, left: bool, right: bool, dt: int)
    requires
        left != right,
    ensures
        -COIN_SCREEN_BOUNDS_X <= steered_x(x, left, right, dt) <= COIN_SCREEN_BOUNDS_X,
{
}

/// The coin's face turns no faster than the top spin and never backwards.
pub proof fn lemma_spin_speed_bounds(speed: int)
    ensures
        0 <= spin_speed(speed) <= COIN_ANIM_MAX_SPIN_SPEED,
{
    let capped = max_int(
        min_int(abs_int(speed), COIN_ANIM_MAX_COIN_SPEED_CAP as int),
        COIN_ANIM_MIN_COIN_SPEED_CAP as int,
    );
    let squared = (COIN_ANIM_MAX_SPIN_SPEED * COIN_ANIM_MAX_SPIN_SPEED * capped) / (
    COIN_ANIM_MAX_COIN_SPEED_CAP as int);
    assert(COIN_ANIM_MAX_SPIN_SPEED * COIN_ANIM_MAX_SPIN_SPEED * capped == 225_000_000 * capped)
        by (nonlinear_arith)
        requires COIN_ANIM_MAX_SPIN_SPEED == 15_000;
    assert(0 <= squared <= 225_000_000);
    crate::math::lemma_sqrt_floor_monotone(squared, 225_000_000);
    assert(crate::math::is_isqrt(225_000_000, 15_000)) by (nonlinear_arith);
    crate::math::lemma_sqrt_floor_unique(225_000_000, 15_000);
}

/// Turning the face keeps the animation well formed: the orientation stays
/// between minus one and one, and the direction stays a sign.
pub proof fn lemma_flipped_wf(anim: CoinAnimation, spin: int, dt: int)
    requires
        anim.wf(),
        spin >= 0,
        dt >= 0,
    ensures
        anim.flipped(spin, dt).wf(),
{
    assert(spin * dt >= 0) by (nonlinear_arith)
        requires spin >= 0, dt >= 0;
}

} // verus!
