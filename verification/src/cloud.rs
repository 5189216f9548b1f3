//! Clouds: hazards that slow a rising coin, once each.

use vstd::prelude::*;
use rand::rngs::StdRng;
use crate::coin::{Coin, CoinModel, COIN_HALF_SIZE};
use crate::math::max_int;
use crate::physics::RelativeCoinY;
use crate::random::gen_range_inclusive;
use crate::rect::{Point, Rect};

verus! {

/// Half the width of a cloud's bounding box: 50 units.
pub const CLOUD_HALF_WIDTH: i64 = 50_000_000;

/// Half the height of a cloud's bounding box: 15 units.
pub const CLOUD_HALF_HEIGHT: i64 = 15_000_000;

/// The number of cloud pictures on the sprite sheet.
pub const CLOUD_SPRITE_TOTAL: i64 = 8;

/// The number of cloud pictures in one row of the sprite sheet.
pub const CLOUD_SPRITE_PER_ROW_COUNT: i64 = 2;

/// The width of one cloud picture, in pixels of the sheet.
pub const CLOUD_SPRITE_WIDTH: i64 = 128;

/// The height of one cloud picture, in pixels of the sheet.
pub const CLOUD_SPRITE_HEIGHT: i64 = 64;

/// The speed that hitting a cloud costs: 200 units per second.
pub const CLOUD_SLOW_DOWN_PENALTY: i64 = 200_000;

/// A request to place a cloud at a position.
#[derive(Debug, Clone, Copy, PartialEq, Eq, Structural)]
pub struct InitCloud(pub Point);

/// A cloud. An active cloud slows the coin that runs into it and is spent by
/// that; a spent cloud stays in the sky for show and never becomes active
/// again.
#[derive(Debug, Clone, Copy, PartialEq, Eq, Structural)]
pub struct Cloud {
    pub active: bool,
    /// Which picture of the sprite sheet shows this cloud.
    pub sprite: i64,
    pub position: Point,
}

impl Default for Cloud {
    fn default() -> (cloud: Cloud)
        ensures
            cloud == (Cloud { active: true, sprite: 0, position: Point { x: 0, y: 0 } }),
    {
        Cloud { active: true, sprite: 0, position: Point { x: 0, y: 0 } }
    }
}

impl Cloud {
    /// The cloud's bounding box.
    pub open spec fn bounds(self) -> Rect {
        Rect::centered(self.position, CLOUD_HALF_WIDTH, CLOUD_HALF_HEIGHT)
    }

    /// The corners of the cloud's bounding box can be held in 64 bits.
    pub open spec fn representable(self) -> bool {
        Rect::representable(self.position, CLOUD_HALF_WIDTH, CLOUD_HALF_HEIGHT)
    }

    /// The cloud stops a coin of the given speed and bounding box: the coin
    /// is not falling, the cloud is active, and the two boxes overlap.
    pub open spec fn hit(self, coin_speed: int, coin_bounds: Rect) -> bool {
        coin_speed >= 0 && self.active && self.bounds().overlaps(coin_bounds)
    }

    /// The cloud after the collision check against such a coin: a cloud that
    /// was hit is spent; nothing else about it changes.
    pub open spec fn after_collision(self, coin_speed: int, coin_bounds: Rect) -> Cloud {
        Cloud { active: self.active && !self.hit(coin_speed, coin_bounds), ..self }
    }

    /// The part of the sprite sheet that holds picture number `sprite`, in
    /// pixels: the pictures lie in rows of two, row after row.
    pub open spec fn sprite_area(sprite: int) -> Rect {
        let left = (sprite % (CLOUD_SPRITE_PER_ROW_COUNT as int)) * CLOUD_SPRITE_WIDTH;
        let top = (sprite / (CLOUD_SPRITE_PER_ROW_COUNT as int)) * CLOUD_SPRITE_HEIGHT;
        Rect {
            min: Point { x: left as i64, y: top as i64 },
            max: Point { x: (left + CLOUD_SPRITE_WIDTH) as i64, y: (top + CLOUD_SPRITE_HEIGHT) as i64 },
        }
    }

    /// The bounding box of a cloud whose centre is at `position`.
    pub fn get_bounds(position: &Point) -> (bounds: Rect)
        requires
            Rect::representable(*position, CLOUD_HALF_WIDTH, CLOUD_HALF_HEIGHT),
        ensures
            bounds == Rect::centered(*position, CLOUD_HALF_WIDTH, CLOUD_HALF_HEIGHT),
            !bounds.empty(),
    {
        Rect::from_center_half_size(*position, CLOUD_HALF_WIDTH, CLOUD_HALF_HEIGHT)
    }

    /// The part of the sprite sheet to draw this cloud from.
    pub fn sprite_rect(sprite: i64) -> (area: Rect)
        requires
            0 <= sprite < CLOUD_SPRITE_TOTAL,
        ensures
            area == Cloud::sprite_area(sprite as int),
            area.max.x - area.min.x == CLOUD_SPRITE_WIDTH,
            area.max.y - area.min.y == CLOUD_SPRITE_HEIGHT,
    {
        let left: i64 = (sprite % CLOUD_SPRITE_PER_ROW_COUNT) * CLOUD_SPRITE_WIDTH;
        let top: i64 = (sprite / CLOUD_SPRITE_PER_ROW_COUNT) * CLOUD_SPRITE_HEIGHT;
        Rect {
            min: Point { x: left, y: top },
            max: Point { x: left + CLOUD_SPRITE_WIDTH, y: top + CLOUD_SPRITE_HEIGHT },
        }
    }
}

impl RelativeCoinY for Cloud {
    open spec fn position(self) -> Point {
        self.position
    }

    open spec fn moved_to(self, position: Point) -> Cloud {
        Cloud { position, ..self }
    }

    fn get_position(&self) -> (position: Point) {
        self.position
    }

    fn with_position(&self, position: Point) -> (moved: Cloud) {
        Cloud { active: self.active, sprite: self.sprite, position }
    }
}

impl CoinModel {
    /// The coin after running into `hits` clouds at once. Each cloud takes the
    /// penalty off the speed and leaves at least zero, so together they take
    /// `hits` penalties off and leave at least zero.
    pub open spec fn slowed(self, hits: int) -> CoinModel {
        if hits > 0 {
            CoinModel { speed: max_int(self.speed - CLOUD_SLOW_DOWN_PENALTY * hits, 0), ..self }
        } else {
            self
        }
    }
}

/// The predicate "stops a coin of this speed and bounding box".
pub open spec fn cloud_hit(coin_speed: int, coin_bounds: Rect) -> spec_fn(Cloud) -> bool {
    |cloud: Cloud| cloud.hit(coin_speed, coin_bounds)
}

/// The map "as it is after the collision check against such a coin".
pub open spec fn cloud_after_collision(coin_speed: int, coin_bounds: Rect) -> spec_fn(Cloud) -> Cloud {
    |cloud: Cloud| cloud.after_collision(coin_speed, coin_bounds)
}

/// Turns every placement request into an active cloud at the requested
/// position, each with a picture of the sprite sheet drawn at random. One
/// draw is made for each request, so without requests the random source is
/// left as it was.
pub fn init_clouds(requests: &Vec<InitCloud>, rng: &mut StdRng) -> (clouds: Vec<Cloud>)
    ensures
        requests@.len() == 0 ==> *final(rng) == *old(rng),
        clouds@.len() == requests@.len(),
        forall|i: int|
            0 <= i < clouds@.len() ==> {
                &&& (#[trigger] clouds@[i]).active
                &&& clouds@[i].position == requests@[i].0
                &&& 0 <= clouds@[i].sprite < CLOUD_SPRITE_TOTAL
            },
{
    let mut clouds: Vec<Cloud> = Vec::new();
    let mut i: usize = 0;
    let ghost untouched = *rng;
    while i < requests.len()
        invariant
            i <= requests.len(),
            i == 0 ==> *rng == untouched,
            clouds@.len() == i,
            forall|j: int|
                0 <= j < i ==> {
                    &&& (#[trigger] clouds@[j]).active
                    &&& clouds@[j].position == requests@[j].0
                    &&& 0 <= clouds@[j].sprite < CLOUD_SPRITE_TOTAL
                },
        decreases requests.len() - i,
    {
        let sprite = gen_range_inclusive(rng, 0, CLOUD_SPRITE_TOTAL - 1);
        clouds.push(Cloud { active: true, sprite, position: requests[i].0 });
        i += 1;
    }
    clouds
}

/// Resolves the collisions of the coin with the clouds.
///
/// Only a coin that is not falling is stopped, and only by active clouds
/// whose box overlaps its own. Every such cloud is spent for good, and each
/// takes the penalty off the coin's speed, which does not go below zero.
/// Spent clouds and clouds out of reach are left exactly as they were.
pub fn check_cloud_coin_collision(coin: &mut Coin, coin_position: &Point, clouds: &mut Vec<Cloud>)
    requires
        Rect::representable(*coin_position, COIN_HALF_SIZE, COIN_HALF_SIZE),
        forall|i: int| 0 <= i < old(clouds)@.len() ==> (#[trigger] old(clouds)@[i]).representable(),
    ensures
        final(clouds)@.len() == old(clouds)@.len(),
        forall|i: int|
            0 <= i < old(clouds)@.len() ==> #[trigger] final(clouds)@[i] == old(clouds)@[i].after_collision(
                old(coin).speed as int,
                Rect::centered(*coin_position, COIN_HALF_SIZE, COIN_HALF_SIZE),
            ),
        final(clouds)@ == old(clouds)@.map_values(
            cloud_after_collision(
                old(coin).speed as int,
                Rect::centered(*coin_position, COIN_HALF_SIZE, COIN_HALF_SIZE),
            ),
        ),
        final(coin)@ == old(coin)@.slowed(
            old(clouds)@.filter(
                cloud_hit(
                    old(coin).speed as int,
                    Rect::centered(*coin_position, COIN_HALF_SIZE, COIN_HALF_SIZE),
                ),
            ).len() as int,
        ),
{
    let ghost before = clouds@;
    let ghost speed = coin.speed as int;
    let ghost coin_bounds = Rect::centered(*coin_position, COIN_HALF_SIZE, COIN_HALF_SIZE);
    let ghost start = coin@;
    if coin.speed < 0 {
        proof {
            lemma_no_hits(before, speed, coin_bounds);
            assert(clouds@ =~= before.map_values(cloud_after_collision(speed, coin_bounds)));
        }
        return;
    }
    let coin_rect = Coin::get_bounds(coin_position);
    let mut i: usize = 0;
    proof {
        assert(before.take(0) =~= Seq::<Cloud>::empty());
        before.take(0).lemma_filter_len(cloud_hit(speed, coin_bounds));
    }
    while i < clouds.len()
        invariant
            i <= clouds.len(),
            clouds@.len() == before.len(),
            speed >= 0,
            coin_rect == coin_bounds,
            forall|j: int| 0 <= j < before.len() ==> (#[trigger] before[j]).representable(),
            forall|j: int| i <= j < before.len() ==> clouds@[j] == before[j],
            forall|j: int|
                0 <= j < i ==> #[trigger] clouds@[j] == before[j].after_collision(speed, coin_bounds),
            coin@ == start.slowed(before.take(i as int).filter(cloud_hit(speed, coin_bounds)).len() as int),
            start.speed == speed,
        decreases clouds.len() - i,
    {
        let cloud = clouds[i];
        let ghost seen = before.take(i as int);
        let ghost hits = seen.filter(cloud_hit(speed, coin_bounds)).len() as int;
        proof {
            assert(cloud == before[i as int]);
            assert(before[i as int].representable());
            assert(before.take(i + 1) =~= seen.push(cloud));
            seen.lemma_filter_push(cloud, cloud_hit(speed, coin_bounds));
        }
        if cloud.active {
            let cloud_rect = Cloud::get_bounds(&cloud.position);
            if cloud_rect.collides(&coin_rect) {
                clouds.set(i, Cloud { active: false, sprite: cloud.sprite, position: cloud.position });
                assert(CLOUD_SLOW_DOWN_PENALTY * (hits + 1) == CLOUD_SLOW_DOWN_PENALTY * hits
                    + CLOUD_SLOW_DOWN_PENALTY) by (nonlinear_arith);
                assert(CLOUD_SLOW_DOWN_PENALTY * hits >= 0) by (nonlinear_arith)
                    requires hits >= 0, CLOUD_SLOW_DOWN_PENALTY == 200_000;
                coin.speed = coin.speed - CLOUD_SLOW_DOWN_PENALTY;
                if coin.speed < 0 {
                    coin.speed = 0;
                }
            }
        }
        i += 1;
    }
    proof {
        assert(before.take(i as int) =~= before);
        assert(clouds@ =~= before.map_values(cloud_after_collision(speed, coin_bounds)));
    }
}

/// A falling coin is stopped by no cloud.
pub proof fn lemma_no_hits(clouds: Seq<Cloud>, coin_speed: int, coin_bounds: Rect)
    requires
        coin_speed < 0,
    ensures
        clouds.filter(cloud_hit(coin_speed, coin_bounds)).len() == 0,
        forall|i: int|
            0 <= i < clouds.len() ==> (#[trigger] clouds[i]).after_collision(coin_speed, coin_bounds)
                == clouds[i],
{
    let hit = cloud_hit(coin_speed, coin_bounds);
    let hits = clouds.filter(hit);
    if hits.len() > 0 {
        clouds.lemma_filter_pred(hit, 0);
        assert(hit(hits[0]));
    }
}

/// A spent cloud is never hit, whatever the coin does: it stays spent, and it
/// takes nothing off the coin's speed.
pub proof fn lemma_spent_cloud_stays_spent(cloud: Cloud, coin: CoinModel, coin_bounds: Rect)
    requires
        !cloud.active,
    ensures
        !cloud.hit(coin.speed, coin_bounds),
        cloud.after_collision(coin.speed, coin_bounds) == cloud,
        seq![cloud].filter(cloud_hit(coin.speed, coin_bounds)).len() == 0,
        coin.slowed(seq![cloud].filter(cloud_hit(coin.speed, coin_bounds)).len() as int) == coin,
{
    let hit = cloud_hit(coin.speed, coin_bounds);
    let hits = seq![cloud].filter(hit);
    seq![cloud].lemma_filter_len(hit);
    if hits.len() > 0 {
        seq![cloud].lemma_filter_pred(hit, 0);
        seq![cloud].lemma_filter_contains_rev(hit, hits[0]);
        assert(hits[0] == cloud);
        assert(hit(cloud));
    }
}

/// No collision check ever makes a cloud active: a cloud that is active
/// afterwards was active before.
pub proof fn lemma_cloud_never_reactivates(cloud: Cloud, coin_speed: int, coin_bounds: Rect)
    ensures
        cloud.after_collision(coin_speed, coin_bounds).active ==> cloud.active,
        cloud.after_collision(coin_speed, coin_bounds).position == cloud.position,
        cloud.after_collision(coin_speed, coin_bounds).sprite == cloud.sprite,
{
}

/// Clouds never push the coin: its speed stays between zero and what it was,
/// and nothing else about the coin changes.
pub proof fn lemma_slowed_bounds(coin: CoinModel, hits: int)
    requires
        coin.speed >= 0,
        hits >= 0,
    ensures
        0 <= coin.slowed(hits).speed <= coin.speed,
        coin.slowed(hits).additional_boosts == coin.additional_boosts,
        coin.slowed(hits).altitude == coin.altitude,
        coin.slowed(hits).highest_altitude_recorded == coin.highest_altitude_recorded,
        coin.slowed(hits + 1).speed == max_int(coin.slowed(hits).speed - CLOUD_SLOW_DOWN_PENALTY, 0),
{
    assert(CLOUD_SLOW_DOWN_PENALTY * hits >= 0) by (nonlinear_arith)
        requires hits >= 0, CLOUD_SLOW_DOWN_PENALTY == 200_000;
    assert(CLOUD_SLOW_DOWN_PENALTY * (hits + 1) == CLOUD_SLOW_DOWN_PENALTY * hits
        + CLOUD_SLOW_DOWN_PENALTY) by (nonlinear_arith);
}

/// The predicate "is active".
pub open spec fn cloud_active() -> spec_fn(Cloud) -> bool {
    |cloud: Cloud| cloud.active
}

/// Spent clouds take no part in a collision: the clouds that stop the coin
/// are the same whether or not the spent clouds are looked at, so a spent
/// cloud never costs the coin speed again.
pub proof fn lemma_only_active_clouds_hit(clouds: Seq<Cloud>, coin_speed: int, coin_bounds: Rect)
    ensures
        clouds.filter(cloud_hit(coin_speed, coin_bounds)) == clouds.filter(cloud_active()).filter(
            cloud_hit(coin_speed, coin_bounds),
        ),
    decreases clouds.len(),
{
    let hit = cloud_hit(coin_speed, coin_bounds);
    if clouds.len() == 0 {
        clouds.lemma_filter_len(hit);
        clouds.lemma_filter_len(cloud_active());
        clouds.filter(cloud_active()).lemma_filter_len(hit);
        assert(clouds.filter(hit) =~= clouds.filter(cloud_active()).filter(hit));
    } else {
        let earlier = clouds.drop_last();
        let last = clouds.last();
        lemma_only_active_clouds_hit(earlier, coin_speed, coin_bounds);
        assert(clouds =~= earlier.push(last));
        earlier.lemma_filter_push(last, hit);
        earlier.lemma_filter_push(last, cloud_active());
        if last.active {
            earlier.filter(cloud_active()).lemma_filter_push(last, hit);
        }
    }
}

} // verus!
