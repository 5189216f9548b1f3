//! The world of a flight and its scheduler.
//!
//! A tick runs every system to completion in a fixed order: gravity, the flip
//! animation, steering, the manual boost, altitude integration together with
//! the scrolling of the world, the loss check, the camera, the collisions
//! with clouds, boost items and fairies, and last the level generator. A
//! system sees what the systems before it have written in the same tick.

use vstd::prelude::*;
use rand::rngs::StdRng;
use crate::app_state::Signal;
use crate::boost_item::{
    boost_item_touched, boost_item_untouched, check_boost_item_coin_collision, init_boost_items,
    BoostItem,
};
use crate::cloud::{
    check_cloud_coin_collision, cloud_active, cloud_after_collision, cloud_hit, init_clouds,
    lemma_only_active_clouds_hit, Cloud, CLOUD_SLOW_DOWN_PENALTY, CLOUD_SPRITE_TOTAL,
};
use crate::coin::{
    calculate_altitude, check_game_over, do_coin_flip_animation, handle_coin_adjustments,
    handle_coin_gravity, handle_coin_use_boost, lemma_flipped_wf, lemma_spin_speed_bounds,
    setup_coin, spin_speed, steered_x, Coin, CoinAnimation, CoinModel, Controls,
    COIN_ANIM_REST_SPEED, COIN_HALF_SIZE, COIN_MAX_START_SPEED, COIN_MIN_START_SPEED,
};
use crate::coin_camera::{camera_step, camera_target, pan_camera_with_coin_speed};
use crate::coin_launch_ui::CoinLaunchSpeedPercentage;
use crate::fairy::{
    check_fairy_coin_collision, fairy_touched, fairy_untouched, init_fairies, Fairy,
    FAIRY_SPEED_BOOST,
};
use crate::level::{
    in_spawn_band, spawn_boost, spawn_clouds, spawn_fairy, tier, LevelMetadata, BOOST_COUNT_HIGH,
    BOOST_COUNT_LOW, BOOST_SPACING, CLOUD_BASE_SPACING, CLOUD_COUNT_HIGH, CLOUD_COUNT_LOW,
    CLOUD_EXTRA_SPACING, FAIRY_COUNT_HIGH, FAIRY_COUNT_LOW, FAIRY_SPACING,
};
use crate::math::{abs_int, fits_i64, lerp_spec};
use crate::physics::{
    despawn_out_of_bounds_things, scroll_by, scrolled, update_y_pos_relative_to_coin, within_range,
    RelativeCoinY,
};
use crate::rect::{Point, Rect};
use crate::scores::Scores;

verus! {

/// Everything that exists while a flight lasts. There is exactly one coin.
#[derive(Debug)]
pub struct World {
    pub coin: Coin,
    /// Where the coin is on the screen; only its x coordinate ever changes.
    pub coin_position: Point,
    pub animation: CoinAnimation,
    /// The height of the camera.
    pub camera_y: i64,
    pub level: LevelMetadata,
    pub clouds: Vec<Cloud>,
    pub boost_items: Vec<BoostItem>,
    pub fairies: Vec<Fairy>,
    /// What only scrolls past and touches nothing: the launcher that the
    /// coin leaves behind.
    pub scenery: Vec<Point>,
}

/// A [`World`] as a mathematical value.
pub struct WorldModel {
    pub coin: CoinModel,
    pub coin_position: Point,
    pub animation: CoinAnimation,
    pub camera_y: int,
    pub level: LevelMetadata,
    pub clouds: Seq<Cloud>,
    pub boost_items: Seq<BoostItem>,
    pub fairies: Seq<Fairy>,
    pub scenery: Seq<Point>,
}

impl View for World {
    type V = WorldModel;

    open spec fn view(&self) -> WorldModel {
        WorldModel {
            coin: self.coin@,
            coin_position: self.coin_position,
            animation: self.animation,
            camera_y: self.camera_y as int,
            level: self.level,
            clouds: self.clouds@,
            boost_items: self.boost_items@,
            fairies: self.fairies@,
            scenery: self.scenery@,
        }
    }
}

impl WorldModel {
    /// The coin's bounding box.
    pub open spec fn coin_bounds(self) -> Rect {
        Rect::centered(self.coin_position, COIN_HALF_SIZE, COIN_HALF_SIZE)
    }

    /// The speed at which the altitude is integrated in a tick: the coin's
    /// speed after gravity, steering and the boost of that tick.
    pub open spec fn integration_speed(self, controls: Controls, dt: int) -> int {
        self.coin.fallen(dt).steered(controls.left, controls.right, dt).boosted(controls.boost).speed
    }

    /// The world after the coin has moved for a tick: gravity has acted, the
    /// face has turned at the spin of the speed that gravity left, the coin
    /// has been steered and boosted, the altitude has been integrated, and
    /// everything else has scrolled down by what the coin climbed and has
    /// been dropped where it left the tracked range.
    pub open spec fn moved(self, controls: Controls, dt: int) -> WorldModel {
        let fallen = self.coin.fallen(dt);
        let speed = self.integration_speed(controls, dt);
        WorldModel {
            coin: self.coin.ticked(controls, dt),
            coin_position: Point {
                x: steered_x(self.coin_position.x as int, controls.left, controls.right, dt) as i64,
                y: self.coin_position.y,
            },
            animation: if abs_int(fallen.speed) > COIN_ANIM_REST_SPEED {
                self.animation.flipped(spin_speed(fallen.speed), dt)
            } else {
                self.animation
            },
            clouds: self.clouds.map_values(scroll_by::<Cloud>(speed, dt)).filter(
                within_range::<Cloud>(),
            ),
            boost_items: self.boost_items.map_values(scroll_by::<BoostItem>(speed, dt)).filter(
                within_range::<BoostItem>(),
            ),
            fairies: self.fairies.map_values(scroll_by::<Fairy>(speed, dt)).filter(
                within_range::<Fairy>(),
            ),
            scenery: self.scenery.map_values(scroll_by::<Point>(speed, dt)).filter(
                within_range::<Point>(),
            ),
            ..self
        }
    }

    /// The world after the camera has panned for a tick.
    pub open spec fn panned(self, dt: int) -> WorldModel {
        WorldModel { camera_y: camera_step(self.camera_y, self.coin.speed, dt), ..self }
    }

    /// The number of clouds that stop the coin where it is.
    pub open spec fn cloud_hits(self) -> int {
        self.clouds.filter(cloud_hit(self.coin.speed, self.coin_bounds())).len() as int
    }

    /// The number of boost items that the coin touches where it is.
    pub open spec fn boost_items_touched(self) -> int {
        self.boost_items.filter(boost_item_touched(self.coin_bounds())).len() as int
    }

    /// The number of fairies that the coin touches where it is.
    pub open spec fn fairies_touched(self) -> int {
        self.fairies.filter(fairy_touched(self.coin_bounds())).len() as int
    }

    /// The world after the collisions have been resolved, class by class:
    /// clouds first, then boost items, then fairies. Within a class every
    /// overlap counts.
    pub open spec fn collided(self) -> WorldModel {
        WorldModel {
            coin: self.coin.slowed(self.cloud_hits()).picked_up(self.boost_items_touched()).lifted(
                self.fairies_touched(),
            ),
            clouds: self.clouds.map_values(
                cloud_after_collision(self.coin.speed, self.coin_bounds()),
            ),
            boost_items: self.boost_items.filter(boost_item_untouched(self.coin_bounds())),
            fairies: self.fairies.filter(fairy_untouched(self.coin_bounds())),
            ..self
        }
    }

    /// The world after every system of a tick but the level generator has
    /// run.
    pub open spec fn stepped(self, controls: Controls, dt: int) -> WorldModel {
        self.moved(controls, dt).panned(dt).collided()
    }

    /// The coin is lost in this tick: after it has moved, it falls faster
    /// than the loss threshold.
    pub open spec fn lost(self, controls: Controls, dt: int) -> bool {
        self.coin.ticked(controls, dt).lost()
    }

    /// A batch of some class is due at the coin's altitude.
    pub open spec fn batch_due(self) -> bool {
        ||| self.coin.altitude >= self.level.next_cloud_spawn_altitude
        ||| self.coin.altitude >= self.level.next_boost_spawn_altitude
        ||| self.coin.altitude >= self.level.next_fairy_spawn_altitude
    }

    /// What the level generator may have made of the world `before`, for a
    /// coin at this world's altitude.
    ///
    /// Nothing but the generator's own state and the three lists changes, and
    /// the lists only grow at their ends. A class whose batch is not due is
    /// left alone. A class whose batch is due gets a batch of a size within
    /// the range of the altitude's tier, placed in the spawn band, and its
    /// next batch is due later by the spacing of the class.
    pub open spec fn grown_from(self, before: WorldModel) -> bool {
        let altitude = before.coin.altitude;
        let new_clouds = self.clouds.len() - before.clouds.len();
        let new_boost_items = self.boost_items.len() - before.boost_items.len();
        let new_fairies = self.fairies.len() - before.fairies.len();
        &&& self.coin == before.coin
        &&& self.coin_position == before.coin_position
        &&& self.animation == before.animation
        &&& self.camera_y == before.camera_y
        &&& self.scenery == before.scenery
        &&& before.clouds.is_prefix_of(self.clouds)
        &&& before.boost_items.is_prefix_of(self.boost_items)
        &&& before.fairies.is_prefix_of(self.fairies)
        &&& forall|i: int|
            before.clouds.len() <= i < self.clouds.len() ==> {
                &&& (#[trigger] self.clouds[i]).active
                &&& 0 <= self.clouds[i].sprite < CLOUD_SPRITE_TOTAL
                &&& in_spawn_band(self.clouds[i].position)
            }
        &&& forall|i: int|
            before.boost_items.len() <= i < self.boost_items.len() ==> in_spawn_band(
                (#[trigger] self.boost_items[i]).position,
            )
        &&& forall|i: int|
            before.fairies.len() <= i < self.fairies.len() ==> in_spawn_band(
                (#[trigger] self.fairies[i]).position,
            )
        &&& if altitude >= before.level.next_cloud_spawn_altitude {
            &&& CLOUD_COUNT_LOW[tier(altitude)] <= new_clouds <= CLOUD_COUNT_HIGH[tier(altitude)]
            &&& before.level.next_cloud_spawn_altitude + CLOUD_BASE_SPACING
                <= self.level.next_cloud_spawn_altitude <= before.level.next_cloud_spawn_altitude
                + CLOUD_BASE_SPACING + CLOUD_EXTRA_SPACING[tier(altitude)]
        } else {
            &&& new_clouds == 0
            &&& self.level.next_cloud_spawn_altitude == before.level.next_cloud_spawn_altitude
        }
        &&& if altitude >= before.level.next_boost_spawn_altitude {
            &&& BOOST_COUNT_LOW <= new_boost_items <= BOOST_COUNT_HIGH[tier(altitude)]
            &&& self.level.next_boost_spawn_altitude == before.level.next_boost_spawn_altitude
                + BOOST_SPACING
        } else {
            &&& new_boost_items == 0
            &&& self.level.next_boost_spawn_altitude == before.level.next_boost_spawn_altitude
        }
        &&& if altitude >= before.level.next_fairy_spawn_altitude {
            &&& FAIRY_COUNT_LOW[tier(altitude)] <= new_fairies <= FAIRY_COUNT_HIGH[tier(altitude)]
            &&& self.level.next_fairy_spawn_altitude == before.level.next_fairy_spawn_altitude
                + FAIRY_SPACING
        } else {
            &&& new_fairies == 0
            &&& self.level.next_fairy_spawn_altitude == before.level.next_fairy_spawn_altitude
        }
    }

    /// Every number that a tick computes on the way can be held in the
    /// machine type that has to hold it. This is what a tick asks of the
    /// world: nothing more than room for its own results.
    pub open spec fn tickable(self, controls: Controls, dt: int) -> bool {
        let fallen = self.coin.fallen(dt);
        let steered = fallen.steered(controls.left, controls.right, dt);
        let boosted = steered.boosted(controls.boost);
        let moved = self.moved(controls, dt);
        let panned = moved.panned(dt);
        let slowed = moved.coin.slowed(moved.cloud_hits());
        let picked_up = slowed.picked_up(moved.boost_items_touched());
        let altitude = moved.coin.altitude;
        &&& self.animation.wf()
        &&& fallen.representable()
        &&& steered.representable()
        &&& boosted.representable()
        &&& moved.coin.representable()
        &&& forall|i: int|
            0 <= i < self.clouds.len() ==> fits_i64(
                (#[trigger] self.clouds[i]).position.y - boosted.speed * dt,
            )
        &&& forall|i: int|
            0 <= i < self.boost_items.len() ==> fits_i64(
                (#[trigger] self.boost_items[i]).position.y - boosted.speed * dt,
            )
        &&& forall|i: int|
            0 <= i < self.fairies.len() ==> fits_i64(
                (#[trigger] self.fairies[i]).position.y - boosted.speed * dt,
            )
        &&& forall|i: int|
            0 <= i < self.scenery.len() ==> fits_i64((#[trigger] self.scenery[i]).y - boosted.speed * dt)
        &&& fits_i64(panned.camera_y)
        &&& Rect::representable(moved.coin_position, COIN_HALF_SIZE, COIN_HALF_SIZE)
        &&& forall|i: int| 0 <= i < moved.clouds.len() ==> (#[trigger] moved.clouds[i]).representable()
        &&& forall|i: int|
            0 <= i < moved.boost_items.len() ==> (#[trigger] moved.boost_items[i]).representable()
        &&& forall|i: int|
            0 <= i < moved.fairies.len() ==> (#[trigger] moved.fairies[i]).representable()
        &&& picked_up.representable()
        &&& picked_up.lifted(moved.fairies_touched()).representable()
        &&& altitude >= self.level.next_cloud_spawn_altitude ==> fits_i64(
            self.level.next_cloud_spawn_altitude + CLOUD_BASE_SPACING
                + CLOUD_EXTRA_SPACING[tier(altitude)],
        )
        &&& altitude >= self.level.next_boost_spawn_altitude ==> fits_i64(
            self.level.next_boost_spawn_altitude + BOOST_SPACING,
        )
        &&& altitude >= self.level.next_fairy_spawn_altitude ==> fits_i64(
            self.level.next_fairy_spawn_altitude + FAIRY_SPACING,
        )
    }
}

/// The height at which the launcher stands when the coin leaves it: 240
/// units below the coin.
pub const LAUNCHER_Y: i64 = -240_000_000;

/// The longest tick that [`World::within_limits`] vouches for, in
/// milliseconds.
pub const TICK_LIMIT: u32 = 10_000;

/// The greatest speed, either way, that [`World::within_limits`] vouches for.
pub const SPEED_LIMIT: i64 = 1_000_000_000_000;

/// The greatest length, either way, that [`World::within_limits`] vouches
/// for: altitudes, coordinates and the heights at which batches are due.
pub const LENGTH_LIMIT: i64 = 100_000_000_000_000_000;

/// The largest stock of boosts and the longest list that
/// [`World::within_limits`] vouches for.
pub const COUNT_LIMIT: i32 = 1_000_000;

/// A coordinate pair lies within the length limit.
pub open spec fn point_limited(position: Point) -> bool {
    &&& -LENGTH_LIMIT <= position.x <= LENGTH_LIMIT
    &&& -LENGTH_LIMIT <= position.y <= LENGTH_LIMIT
}

impl WorldModel {
    /// The world is far enough from the ends of the machine types that a
    /// tick of `dt` milliseconds cannot reach them: speeds, lengths, counts
    /// and the tick itself are within their limits, and the flip animation is
    /// well formed.
    pub open spec fn limited(self, dt: int) -> bool {
        &&& 0 <= dt <= TICK_LIMIT
        &&& self.animation.wf()
        &&& -SPEED_LIMIT <= self.coin.speed <= SPEED_LIMIT
        &&& -LENGTH_LIMIT <= self.coin.altitude <= LENGTH_LIMIT
        &&& -LENGTH_LIMIT <= self.coin.highest_altitude_recorded <= LENGTH_LIMIT
        &&& -COUNT_LIMIT <= self.coin.additional_boosts <= COUNT_LIMIT
        &&& point_limited(self.coin_position)
        &&& -LENGTH_LIMIT <= self.camera_y <= LENGTH_LIMIT
        &&& -LENGTH_LIMIT <= self.level.next_cloud_spawn_altitude <= LENGTH_LIMIT
        &&& -LENGTH_LIMIT <= self.level.next_boost_spawn_altitude <= LENGTH_LIMIT
        &&& -LENGTH_LIMIT <= self.level.next_fairy_spawn_altitude <= LENGTH_LIMIT
        &&& things_limited(self.clouds)
        &&& things_limited(self.boost_items)
        &&& things_limited(self.fairies)
        &&& things_limited(self.scenery)
    }
}

impl World {
    /// The world at the moment of launch, as a mathematical value: a coin
    /// launched at the speed the meter gives, at the centre of the screen
    /// with its face up, the camera at the origin, the level generator at its
    /// start, an empty sky, and the launcher below the coin.
    pub open spec fn launched(launch_speed_percentage: CoinLaunchSpeedPercentage) -> WorldModel {
        WorldModel {
            coin: CoinModel {
                speed: lerp_spec(
                    COIN_MIN_START_SPEED as int,
                    COIN_MAX_START_SPEED as int,
                    launch_speed_percentage.0 as int,
                ),
                additional_boosts: 3,
                altitude: 0,
                highest_altitude_recorded: 0,
            },
            coin_position: Point { x: 0, y: 0 },
            animation: CoinAnimation { orientation: 1_000_000, direction: (-1) as i64 },
            camera_y: 0,
            level: LevelMetadata::initial(),
            clouds: Seq::empty(),
            boost_items: Seq::empty(),
            fairies: Seq::empty(),
            scenery: seq![Point { x: 0, y: LAUNCHER_Y }],
        }
    }

    /// Sets up the world of a flight that is launched with the meter as it
    /// stands.
    pub fn new(launch_speed_percentage: &CoinLaunchSpeedPercentage) -> (world: World)
        requires
            fits_i64(
                lerp_spec(
                    COIN_MIN_START_SPEED as int,
                    COIN_MAX_START_SPEED as int,
                    launch_speed_percentage.0 as int,
                ),
            ),
        ensures
            world@ == World::launched(*launch_speed_percentage),
    {
        let mut scenery: Vec<Point> = Vec::new();
        scenery.push(Point { x: 0, y: LAUNCHER_Y });
        let world = World {
            coin: setup_coin(launch_speed_percentage),
            coin_position: Point { x: 0, y: 0 },
            animation: CoinAnimation::default(),
            camera_y: 0,
            level: LevelMetadata::default(),
            clouds: Vec::new(),
            boost_items: Vec::new(),
            fairies: Vec::new(),
            scenery,
        };
        proof {
            assert(world@.scenery =~= seq![Point { x: 0, y: LAUNCHER_Y }]);
            assert(world@.clouds =~= Seq::<Cloud>::empty());
            assert(world@.boost_items =~= Seq::<BoostItem>::empty());
            assert(world@.fairies =~= Seq::<Fairy>::empty());
        }
        world
    }
}

/// Everything of a list lies within the length limit, and the list is no
/// longer than the count limit.
pub open spec fn things_limited<T: RelativeCoinY>(things: Seq<T>) -> bool {
    &&& things.len() <= COUNT_LIMIT
    &&& forall|i: int| 0 <= i < things.len() ==> point_limited((#[trigger] things[i]).position())
}

/// Tells whether a list is within the limits.
fn all_within_limits<T: RelativeCoinY>(things: &Vec<T>) -> (ok: bool)
    ensures
        ok == things_limited(things@),
{
    if things.len() > COUNT_LIMIT as usize {
        return false;
    }
    let mut i: usize = 0;
    while i < things.len()
        invariant
            i <= things.len(),
            things.len() <= COUNT_LIMIT,
            forall|j: int| 0 <= j < i ==> point_limited((#[trigger] things@[j]).position()),
        decreases things.len() - i,
    {
        let position = things[i].get_position();
        if position.x < -LENGTH_LIMIT || position.x > LENGTH_LIMIT || position.y < -LENGTH_LIMIT
            || position.y > LENGTH_LIMIT {
            assert(!point_limited(things@[i as int].position()));
            return false;
        }
        i += 1;
    }
    true
}

impl World {
    /// Tells whether the world is within the limits inside which a tick of
    /// `dt` milliseconds is sure to have room for its results, whatever the
    /// player does.
    pub fn within_limits(&self, dt: u32) -> (ok: bool)
        ensures
            ok == self@.limited(dt as int),
            ok ==> forall|controls: Controls| #[trigger] self@.tickable(controls, dt as int),
    {
        let scalars = dt <= TICK_LIMIT && (self.animation.direction == 1 || self.animation.direction
            == -1) && -1_000_000 <= self.animation.orientation && self.animation.orientation
            <= 1_000_000 && -SPEED_LIMIT <= self.coin.speed && self.coin.speed <= SPEED_LIMIT
            && -LENGTH_LIMIT <= self.coin.altitude && self.coin.altitude <= LENGTH_LIMIT
            && -LENGTH_LIMIT <= self.coin.highest_altitude_recorded
            && self.coin.highest_altitude_recorded <= LENGTH_LIMIT && -COUNT_LIMIT
            <= self.coin.additional_boosts && self.coin.additional_boosts <= COUNT_LIMIT
            && -LENGTH_LIMIT <= self.coin_position.x && self.coin_position.x <= LENGTH_LIMIT
            && -LENGTH_LIMIT <= self.coin_position.y && self.coin_position.y <= LENGTH_LIMIT
            && -LENGTH_LIMIT <= self.camera_y && self.camera_y <= LENGTH_LIMIT && -LENGTH_LIMIT
            <= self.level.next_cloud_spawn_altitude && self.level.next_cloud_spawn_altitude
            <= LENGTH_LIMIT && -LENGTH_LIMIT <= self.level.next_boost_spawn_altitude
            && self.level.next_boost_spawn_altitude <= LENGTH_LIMIT && -LENGTH_LIMIT
            <= self.level.next_fairy_spawn_altitude && self.level.next_fairy_spawn_altitude
            <= LENGTH_LIMIT;
        let ok = scalars && all_within_limits(&self.clouds) && all_within_limits(&self.boost_items)
            && all_within_limits(&self.fairies) && all_within_limits(&self.scenery);
        proof {
            if ok {
                assert forall|controls: Controls| #[trigger]
                    self@.tickable(controls, dt as int) by {
                    lemma_limited_is_tickable(self@, controls, dt as int);
                }
            }
        }
        ok
    }
}

/// Whatever is left of a list after it has scrolled and been cut to the
/// tracked range was in the list before, in the place it scrolled from.
pub proof fn lemma_scrolled_thing_origin<T: RelativeCoinY>(things: Seq<T>, speed: int, dt: int, j: int)
    requires
        0 <= j < things.map_values(scroll_by::<T>(speed, dt)).filter(within_range::<T>()).len(),
    ensures
        things.map_values(scroll_by::<T>(speed, dt)).filter(within_range::<T>()).len() <= things.len(),
        exists|i: int|
            0 <= i < things.len() && things.map_values(scroll_by::<T>(speed, dt)).filter(
                within_range::<T>(),
            )[j] == (#[trigger] things[i]).moved_to(scrolled(things[i].position(), speed, dt)),
{
    let scrolled_things = things.map_values(scroll_by::<T>(speed, dt));
    let kept = scrolled_things.filter(within_range::<T>());
    scrolled_things.lemma_filter_len(within_range::<T>());
    assert(kept.contains(kept[j]));
    scrolled_things.lemma_filter_contains_rev(within_range::<T>(), kept[j]);
    let i = choose|i: int| 0 <= i < scrolled_things.len() && scrolled_things[i] == kept[j];
    assert(kept[j] == things[i].moved_to(scrolled(things[i].position(), speed, dt)));
}

/// A world within the limits has room for every result of a tick, whatever
/// the controls.
pub proof fn lemma_limited_is_tickable(world: WorldModel, controls: Controls, dt: int)
    requires
        world.limited(dt),
    ensures
        world.tickable(controls, dt),
{
    let fallen = world.coin.fallen(dt);
    let steered = fallen.steered(controls.left, controls.right, dt);
    let boosted = steered.boosted(controls.boost);
    let moved = world.moved(controls, dt);
    let speed = boosted.speed;
    assert(speed == world.integration_speed(controls, dt));
    assert(-1_000_002_000_000 <= speed <= 1_000_002_000_000);
    let climbed = speed * dt;
    assert(-10_000_020_000_000_000 <= climbed <= 10_000_020_000_000_000) by (nonlinear_arith)
        requires
            climbed == speed * dt,
            -1_000_002_000_000 <= speed <= 1_000_002_000_000,
            0 <= dt <= 10_000,
    ;
    assert(moved.coin.altitude == world.coin.altitude + climbed);
    assert(moved.coin.representable());

    assert forall|i: int| 0 <= i < world.clouds.len() implies fits_i64(
        (#[trigger] world.clouds[i]).position.y - boosted.speed * dt,
    ) by {
        assert(point_limited(world.clouds[i].position));
    }
    assert forall|i: int| 0 <= i < world.boost_items.len() implies fits_i64(
        (#[trigger] world.boost_items[i]).position.y - boosted.speed * dt,
    ) by {
        assert(point_limited(world.boost_items[i].position));
    }
    assert forall|i: int| 0 <= i < world.fairies.len() implies fits_i64(
        (#[trigger] world.fairies[i]).position.y - boosted.speed * dt,
    ) by {
        assert(point_limited(world.fairies[i].position));
    }

    assert forall|i: int| 0 <= i < world.scenery.len() implies fits_i64(
        (#[trigger] world.scenery[i]).y - boosted.speed * dt,
    ) by {
        assert(point_limited(world.scenery[i].position()));
    }

    assert forall|j: int| 0 <= j < moved.clouds.len() implies (#[trigger] moved.clouds[j]).representable() by {
        lemma_scrolled_thing_origin::<Cloud>(world.clouds, speed, dt, j);
        let i = choose|i: int|
            0 <= i < world.clouds.len() && moved.clouds[j] == (#[trigger] world.clouds[i]).moved_to(
                scrolled(world.clouds[i].position(), speed, dt),
            );
        assert(point_limited(world.clouds[i].position));
    }
    assert forall|j: int| 0 <= j < moved.boost_items.len() implies (
    #[trigger] moved.boost_items[j]).representable() by {
        lemma_scrolled_thing_origin::<BoostItem>(world.boost_items, speed, dt, j);
        let i = choose|i: int|
            0 <= i < world.boost_items.len() && moved.boost_items[j] == (
            #[trigger] world.boost_items[i]).moved_to(
                scrolled(world.boost_items[i].position(), speed, dt),
            );
        assert(point_limited(world.boost_items[i].position));
    }
    assert forall|j: int| 0 <= j < moved.fairies.len() implies (#[trigger] moved.fairies[j]).representable() by {
        lemma_scrolled_thing_origin::<Fairy>(world.fairies, speed, dt, j);
        let i = choose|i: int|
            0 <= i < world.fairies.len() && moved.fairies[j] == (#[trigger] world.fairies[i]).moved_to(
                scrolled(world.fairies[i].position(), speed, dt),
            );
        assert(point_limited(world.fairies[i].position));
    }

    let target = camera_target(speed);
    let dist = target - world.camera_y;
    assert(-101_100_000_000_000_000 <= dist <= 101_100_000_000_000_000);
    assert(-1_011_000_000_000_000_000_000 <= dist * dt <= 1_011_000_000_000_000_000_000)
        by (nonlinear_arith)
        requires
            -101_100_000_000_000_000 <= dist <= 101_100_000_000_000_000,
            0 <= dt <= 10_000,
    ;
    assert(-1_011_000_000_000_000_000 <= (dist * dt) / 1_000 <= 1_011_000_000_000_000_000)
        by (nonlinear_arith)
        requires
            -1_011_000_000_000_000_000_000 <= dist * dt <= 1_011_000_000_000_000_000_000,
    ;
    assert(fits_i64(moved.panned(dt).camera_y));

    let bounds = moved.coin_bounds();
    moved.clouds.lemma_filter_len(cloud_hit(moved.coin.speed, bounds));
    moved.boost_items.lemma_filter_len(boost_item_touched(bounds));
    moved.fairies.lemma_filter_len(fairy_touched(bounds));
    world.clouds.map_values(scroll_by::<Cloud>(speed, dt)).lemma_filter_len(within_range::<Cloud>());
    world.boost_items.map_values(scroll_by::<BoostItem>(speed, dt)).lemma_filter_len(
        within_range::<BoostItem>(),
    );
    world.fairies.map_values(scroll_by::<Fairy>(speed, dt)).lemma_filter_len(within_range::<Fairy>());
    let hits = moved.cloud_hits();
    let slowed = moved.coin.slowed(hits);
    assert(CLOUD_SLOW_DOWN_PENALTY * hits >= 0) by (nonlinear_arith)
        requires hits >= 0, CLOUD_SLOW_DOWN_PENALTY == 200_000;
    assert(slowed.representable());
    let picked_up = slowed.picked_up(moved.boost_items_touched());
    assert(picked_up.representable());
    let met = moved.fairies_touched();
    assert(0 <= FAIRY_SPEED_BOOST * met <= 400_000 * 1_000_000) by (nonlinear_arith)
        requires 0 <= met <= 1_000_000, FAIRY_SPEED_BOOST == 400_000;
    assert(picked_up.lifted(met).representable());
}

/// Runs one tick of `dt` milliseconds on the world of a flight.
///
/// Every system but the level generator is a function of the world and the
/// controls, and leaves the world as [`WorldModel::stepped`] says. The level
/// generator then adds to it as [`WorldModel::grown_from`] allows; in a tick
/// in which no batch is due it does not consult the random source. If the
/// coin is lost in this tick, its score is registered and the loss is
/// signalled; the rest of the tick still runs.
pub fn tick(
    world: &mut World,
    scores: &mut Scores,
    controls: &Controls,
    dt: u32,
    rng: &mut StdRng,
) -> (signal: Option<Signal>)
    requires
        old(world)@.tickable(*controls, dt as int),
    ensures
        final(world)@.grown_from(old(world)@.stepped(*controls, dt as int)),
        old(world)@.lost(*controls, dt as int) ==> signal == Some(Signal::CoinLost) && *final(scores)
            == old(scores).registered(
            old(world)@.coin.ticked(*controls, dt as int).score() as i32,
        ),
        !old(world)@.lost(*controls, dt as int) ==> signal is None && *final(scores) == *old(scores),
        !old(world)@.stepped(*controls, dt as int).batch_due() ==> *final(rng) == *old(rng),
{
    let ghost start = world@;
    let ghost moved = start.moved(*controls, dt as int);
    let ghost speed = start.integration_speed(*controls, dt as int);

    handle_coin_gravity(&mut world.coin, dt);
    do_coin_flip_animation(&mut world.animation, &world.coin, dt);
    handle_coin_adjustments(
        &mut world.coin,
        &mut world.coin_position,
        controls.left,
        controls.right,
        dt,
    );
    handle_coin_use_boost(&mut world.coin, controls.boost);
    assert(world.coin.speed == speed);
    update_y_pos_relative_to_coin(&world.coin, dt, &mut world.clouds);
    update_y_pos_relative_to_coin(&world.coin, dt, &mut world.boost_items);
    update_y_pos_relative_to_coin(&world.coin, dt, &mut world.fairies);
    update_y_pos_relative_to_coin(&world.coin, dt, &mut world.scenery);
    calculate_altitude(&mut world.coin, dt);
    despawn_out_of_bounds_things(&mut world.clouds);
    despawn_out_of_bounds_things(&mut world.boost_items);
    despawn_out_of_bounds_things(&mut world.fairies);
    despawn_out_of_bounds_things(&mut world.scenery);
    assert(world@ == moved);

    let signal = check_game_over(&world.coin, scores);
    pan_camera_with_coin_speed(&world.coin, &mut world.camera_y, dt);
    assert(world@ == moved.panned(dt as int));

    check_cloud_coin_collision(&mut world.coin, &world.coin_position, &mut world.clouds);
    check_boost_item_coin_collision(&mut world.coin, &world.coin_position, &mut world.boost_items);
    check_fairy_coin_collision(&mut world.coin, &world.coin_position, &mut world.fairies);
    let ghost stepped = start.stepped(*controls, dt as int);
    assert(world@ == stepped);

    let altitude = world.coin.altitude;
    let cloud_requests = spawn_clouds(&mut world.level, altitude, rng);
    let mut clouds = init_clouds(&cloud_requests, rng);
    world.clouds.append(&mut clouds);
    let boost_requests = spawn_boost(&mut world.level, altitude, rng);
    let mut boost_items = init_boost_items(&boost_requests);
    world.boost_items.append(&mut boost_items);
    let fairy_requests = spawn_fairy(&mut world.level, altitude, rng);
    let mut fairies = init_fairies(&fairy_requests);
    world.fairies.append(&mut fairies);
    signal
}

impl WorldModel {
    /// What holds of the world of a flight at every moment: the coin's stock
    /// of boosts is not negative, its highest altitude is not below its
    /// altitude, and the flip animation is well formed.
    pub open spec fn wf(self) -> bool {
        &&& self.coin.wf()
        &&& self.coin.highest_altitude_recorded >= self.coin.altitude
        &&& self.animation.wf()
    }
}

/// What a tick does to the coin, whatever the level generator adds: the
/// altitude advances by exactly the speed of this tick times its length, the
/// highest altitude never decreases, and the world stays well formed, so that
/// the stock of boosts is never negative.
pub proof fn lemma_tick_keeps_invariants(before: WorldModel, controls: Controls, dt: int, after: WorldModel)
    requires
        before.wf(),
        dt > 0,
        after.grown_from(before.stepped(controls, dt)),
    ensures
        after.wf(),
        after.coin.altitude == before.coin.altitude + before.integration_speed(controls, dt) * dt,
        after.coin.highest_altitude_recorded >= before.coin.highest_altitude_recorded,
        after.coin.additional_boosts >= 0,
{
    let moved = before.moved(controls, dt);
    lemma_spin_speed_bounds(before.coin.fallen(dt).speed);
    lemma_flipped_wf(before.animation, spin_speed(before.coin.fallen(dt).speed), dt);
    let panned = moved.panned(dt);
    panned.clouds.lemma_filter_len(cloud_hit(panned.coin.speed, panned.coin_bounds()));
    panned.boost_items.lemma_filter_len(boost_item_touched(panned.coin_bounds()));
    panned.fairies.lemma_filter_len(fairy_touched(panned.coin_bounds()));
}

/// Through a tick no cloud becomes active: every cloud that is in the world
/// after the systems have run was there before, with the same picture, and
/// if it is active now it was active then.
pub proof fn lemma_clouds_never_reactivate(world: WorldModel, controls: Controls, dt: int, j: int)
    requires
        0 <= j < world.stepped(controls, dt).clouds.len(),
    ensures
        exists|i: int|
            0 <= i < world.clouds.len() && {
                let was = #[trigger] world.clouds[i];
                let now = world.stepped(controls, dt).clouds[j];
                &&& now.active ==> was.active
                &&& now.sprite == was.sprite
                &&& now.position == scrolled(was.position, world.integration_speed(controls, dt), dt)
            },
{
    let speed = world.integration_speed(controls, dt);
    let panned = world.moved(controls, dt).panned(dt);
    lemma_scrolled_thing_origin::<Cloud>(world.clouds, speed, dt, j);
    let i = choose|i: int|
        0 <= i < world.clouds.len() && panned.clouds[j] == (#[trigger] world.clouds[i]).moved_to(
            scrolled(world.clouds[i].position(), speed, dt),
        );
    assert(world.clouds[i].position() == world.clouds[i].position);
}

/// Spent clouds cost the coin nothing in a collision: the number of clouds
/// that stop the coin is the number among the active clouds alone.
pub proof fn lemma_spent_clouds_cost_nothing(world: WorldModel)
    ensures
        world.cloud_hits() == world.clouds.filter(cloud_active()).filter(
            cloud_hit(world.coin.speed, world.coin_bounds()),
        ).len(),
        world.clouds.filter(cloud_active()).len() == 0 ==> world.cloud_hits() == 0
            && world.coin.slowed(world.cloud_hits()) == world.coin,
{
    lemma_only_active_clouds_hit(world.clouds, world.coin.speed, world.coin_bounds());
    world.clouds.filter(cloud_active()).lemma_filter_len(
        cloud_hit(world.coin.speed, world.coin_bounds()),
    );
}

} // verus!
