//! The level generator: clouds, boost items and fairies are spawned in
//! batches ahead of the coin as it climbs, more hazards and fewer helpers the
//! higher it gets.
//!
//! The generator is driven by the coin's altitude alone. For each class it
//! keeps the altitude at which the next batch is due; when the coin reaches
//! it, a batch of random size is placed at random in a band above the screen
//! and the due altitude moves on.

use vstd::prelude::*;
use rand::rngs::StdRng;
use crate::boost_item::InitBoostItem;
use crate::cloud::InitCloud;
use crate::coin_camera::COIN_SCREEN_BOUNDS_X;
use crate::fairy::InitFairy;
use crate::math::fits_i64;
use crate::random::{count_of_draw, draw_count, gen_range_inclusive};
use crate::rect::Point;

verus! {

/// The lower edge of the band in which batches are placed: one screen
/// height, 700 units, above the coin.
pub const SPAWN_Y_POS: i64 = 700_000_000;

/// The upper edge of the band in which batches are placed: three screen
/// heights above the coin.
pub const SPAWN_Y_MAX: i64 = 2_100_000_000;

/// The altitudes at which the tiers change, in ascending order: 2500, 5000,
/// 10000 and 20000 units. An altitude below the first belongs to tier 0, one
/// below the second to tier 1, and so on; from the last on, every altitude
/// belongs to the last tier.
pub const LEVELS: [i64; 4] = [2_500_000_000, 5_000_000_000, 10_000_000_000, 20_000_000_000];

/// The fewest clouds of a batch, by tier.
pub const CLOUD_COUNT_LOW: [i64; 5] = [1, 2, 4, 5, 6];

/// The most clouds of a batch, by tier.
pub const CLOUD_COUNT_HIGH: [i64; 5] = [3, 6, 10, 15, 20];

/// The least altitude between two batches of clouds: a screen height, 700
/// units.
pub const CLOUD_BASE_SPACING: i64 = 700_000_000;

/// The most that is added at random to the spacing of clouds, by tier: three
/// half screens at first, half of a half screen in the end.
pub const CLOUD_EXTRA_SPACING: [i64; 5] = [
    1_050_000_000,
    1_050_000_000,
    700_000_000,
    350_000_000,
    175_000_000,
];

/// The fewest boost items of a batch, at every tier.
pub const BOOST_COUNT_LOW: i64 = 1;

/// The most boost items of a batch, by tier.
pub const BOOST_COUNT_HIGH: [i64; 5] = [4, 4, 3, 2, 1];

/// The altitude between two batches of boost items: 700 units.
pub const BOOST_SPACING: i64 = 700_000_000;

/// The fewest fairies of a batch, by tier.
pub const FAIRY_COUNT_LOW: [i64; 5] = [1, 1, 1, 0, 0];

/// The most fairies of a batch, by tier.
pub const FAIRY_COUNT_HIGH: [i64; 5] = [3, 3, 2, 2, 1];

/// The altitude between two batches of fairies: 700 units.
pub const FAIRY_SPACING: i64 = 700_000_000;

/// The altitudes at which the next batch of each class is due.
#[derive(Debug, Clone, Copy, PartialEq, Eq, Structural)]
pub struct LevelMetadata {
    pub next_cloud_spawn_altitude: i64,
    pub next_boost_spawn_altitude: i64,
    pub next_fairy_spawn_altitude: i64,
}

impl LevelMetadata {
    /// The generator at the start of a flight: fairies come first, half a
    /// screen up; then clouds, a screen up; then boost items.
    pub open spec fn initial() -> LevelMetadata {
        LevelMetadata {
            next_cloud_spawn_altitude: 700_000_000,
            next_boost_spawn_altitude: 1_050_000_000,
            next_fairy_spawn_altitude: 350_000_000,
        }
    }
}

impl Default for LevelMetadata {
    fn default() -> (level: LevelMetadata)
        ensures
            level == LevelMetadata::initial(),
    {
        LevelMetadata {
            next_cloud_spawn_altitude: 700_000_000,
            next_boost_spawn_altitude: 1_050_000_000,
            next_fairy_spawn_altitude: 350_000_000,
        }
    }
}

/// The tier of an altitude: the index of the first breakpoint that lies
/// strictly above it, or the last tier once the altitude has reached every
/// breakpoint.
pub open spec fn tier(altitude: int) -> int {
    if altitude < LEVELS[0] {
        0
    } else if altitude < LEVELS[1] {
        1
    } else if altitude < LEVELS[2] {
        2
    } else if altitude < LEVELS[3] {
        3
    } else {
        4
    }
}

/// A position lies in the band in which batches are placed: within the
/// horizontal bounds of the screen and between the two edges of the band.
pub open spec fn in_spawn_band(position: Point) -> bool {
    &&& -COIN_SCREEN_BOUNDS_X <= position.x <= COIN_SCREEN_BOUNDS_X
    &&& SPAWN_Y_POS <= position.y <= SPAWN_Y_MAX
}

/// Puts the generator back to the start of a flight.
pub fn reset_level_metadata(level: &mut LevelMetadata)
    ensures
        *final(level) == LevelMetadata::initial(),
{
    *level = LevelMetadata::default();
}

/// Looks an altitude up in a table that holds one value for each tier.
pub fn lvl(altitude: i64, values: &[i64; 5]) -> (value: i64)
    ensures
        value == values[tier(altitude as int)],
{
    let mut i: usize = 0;
    while i < 4
        invariant
            i <= 4,
            forall|j: int| 0 <= j < i ==> altitude >= LEVELS[j],
        decreases 4 - i,
    {
        if altitude < LEVELS[i] {
            return values[i];
        }
        i += 1;
    }
    values[4]
}

/// Draws `count` positions in the spawn band: two draws for each position,
/// so for no position the random source is left as it was.
pub fn spawn_positions(rng: &mut StdRng, count: i64) -> (positions: Vec<Point>)
    ensures
        count <= 0 ==> *final(rng) == *old(rng),
        positions@.len() == count_of_draw(count as int),
        forall|i: int| 0 <= i < positions@.len() ==> in_spawn_band(#[trigger] positions@[i]),
{
    let mut positions: Vec<Point> = Vec::new();
    let mut i: i64 = 0;
    let ghost untouched = *rng;
    while i < count
        invariant
            0 <= i <= count_of_draw(count as int),
            i == 0 ==> *rng == untouched,
            positions@.len() == i,
            forall|j: int| 0 <= j < positions@.len() ==> in_spawn_band(#[trigger] positions@[j]),
        decreases count - i,
    {
        let x = gen_range_inclusive(rng, -COIN_SCREEN_BOUNDS_X, COIN_SCREEN_BOUNDS_X);
        let y = gen_range_inclusive(rng, SPAWN_Y_POS, SPAWN_Y_MAX);
        positions.push(Point { x, y });
        i += 1;
    }
    positions
}

/// Places a batch of clouds at the given positions and moves the altitude at
/// which the next batch is due on by the base spacing and `extra`.
pub fn cloud_batch(level: &mut LevelMetadata, positions: &Vec<Point>, extra: i64) -> (spawned: Vec<
    InitCloud,
>)
    requires
        fits_i64(old(level).next_cloud_spawn_altitude + CLOUD_BASE_SPACING + extra),
    ensures
        spawned@ == positions@.map_values(|p: Point| InitCloud(p)),
        *final(level) == (LevelMetadata {
            next_cloud_spawn_altitude: (old(level).next_cloud_spawn_altitude + CLOUD_BASE_SPACING
                + extra) as i64,
            ..*old(level)
        }),
{
    let mut spawned: Vec<InitCloud> = Vec::new();
    let mut i: usize = 0;
    while i < positions.len()
        invariant
            i <= positions.len(),
            spawned@ == positions@.take(i as int).map_values(|p: Point| InitCloud(p)),
        decreases positions.len() - i,
    {
        proof {
            assert(positions@.take(i + 1) =~= positions@.take(i as int).push(positions@[i as int]));
            positions@.take(i as int).lemma_push_map_commute(|p: Point| InitCloud(p), positions@[i as int]);
        }
        spawned.push(InitCloud(positions[i]));
        i += 1;
    }
    proof {
        assert(positions@.take(i as int) =~= positions@);
    }
    let next: i128 = (level.next_cloud_spawn_altitude as i128) + (CLOUD_BASE_SPACING as i128) + (
    extra as i128);
    level.next_cloud_spawn_altitude = next as i64;
    spawned
}

/// Places a batch of boost items at the given positions and moves the
/// altitude at which the next batch is due on by the spacing of boost items.
pub fn boost_batch(level: &mut LevelMetadata, positions: &Vec<Point>) -> (spawned: Vec<InitBoostItem>)
    requires
        fits_i64(old(level).next_boost_spawn_altitude + BOOST_SPACING),
    ensures
        spawned@ == positions@.map_values(|p: Point| InitBoostItem(p)),
        *final(level) == (LevelMetadata {
            next_boost_spawn_altitude: (old(level).next_boost_spawn_altitude + BOOST_SPACING) as i64,
            ..*old(level)
        }),
{
    let mut spawned: Vec<InitBoostItem> = Vec::new();
    let mut i: usize = 0;
    while i < positions.len()
        invariant
            i <= positions.len(),
            spawned@ == positions@.take(i as int).map_values(|p: Point| InitBoostItem(p)),
        decreases positions.len() - i,
    {
        proof {
            assert(positions@.take(i + 1) =~= positions@.take(i as int).push(positions@[i as int]));
            positions@.take(i as int).lemma_push_map_commute(
                |p: Point| InitBoostItem(p),
                positions@[i as int],
            );
        }
        spawned.push(InitBoostItem(positions[i]));
        i += 1;
    }
    proof {
        assert(positions@.take(i as int) =~= positions@);
    }
    level.next_boost_spawn_altitude = level.next_boost_spawn_altitude + BOOST_SPACING;
    spawned
}

/// Places a batch of fairies at the given positions and moves the altitude
/// at which the next batch is due on by the spacing of fairies.
pub fn fairy_batch(level: &mut LevelMetadata, positions: &Vec<Point>) -> (spawned: Vec<InitFairy>)
    requires
        fits_i64(old(level).next_fairy_spawn_altitude + FAIRY_SPACING),
    ensures
        spawned@ == positions@.map_values(|p: Point| InitFairy(p)),
        *final(level) == (LevelMetadata {
            next_fairy_spawn_altitude: (old(level).next_fairy_spawn_altitude + FAIRY_SPACING) as i64,
            ..*old(level)
        }),
{
    let mut spawned: Vec<InitFairy> = Vec::new();
    let mut i: usize = 0;
    while i < positions.len()
        invariant
            i <= positions.len(),
            spawned@ == positions@.take(i as int).map_values(|p: Point| InitFairy(p)),
        decreases positions.len() - i,
    {
        proof {
            assert(positions@.take(i + 1) =~= positions@.take(i as int).push(positions@[i as int]));
            positions@.take(i as int).lemma_push_map_commute(|p: Point| InitFairy(p), positions@[i as int]);
        }
        spawned.push(InitFairy(positions[i]));
        i += 1;
    }
    proof {
        assert(positions@.take(i as int) =~= positions@);
    }
    level.next_fairy_spawn_altitude = level.next_fairy_spawn_altitude + FAIRY_SPACING;
    spawned
}

/// Spawns clouds if a batch is due at the coin's altitude.
///
/// Before the due altitude nothing happens, and the random source is not
/// consulted. From it on, a batch is placed in the spawn band: its size is
/// drawn from the range of the altitude's tier, and the next batch is due
/// after the base spacing and a random extra of at most the tier's extra
/// spacing. The other classes are left alone.
pub fn spawn_clouds(level: &mut LevelMetadata, altitude: i64, rng: &mut StdRng) -> (spawned: Vec<
    InitCloud,
>)
    requires
        altitude >= old(level).next_cloud_spawn_altitude ==> fits_i64(
            old(level).next_cloud_spawn_altitude + CLOUD_BASE_SPACING
                + CLOUD_EXTRA_SPACING[tier(altitude as int)],
        ),
    ensures
        altitude < old(level).next_cloud_spawn_altitude ==> spawned@.len() == 0 && *final(level)
            == *old(level) && *final(rng) == *old(rng),
        altitude >= old(level).next_cloud_spawn_altitude ==> {
            &&& CLOUD_COUNT_LOW[tier(altitude as int)] <= spawned@.len()
                <= CLOUD_COUNT_HIGH[tier(altitude as int)]
            &&& forall|i: int| 0 <= i < spawned@.len() ==> in_spawn_band((#[trigger] spawned@[i]).0)
            &&& old(level).next_cloud_spawn_altitude + CLOUD_BASE_SPACING
                <= final(level).next_cloud_spawn_altitude <= old(level).next_cloud_spawn_altitude
                + CLOUD_BASE_SPACING + CLOUD_EXTRA_SPACING[tier(altitude as int)]
            &&& final(level).next_boost_spawn_altitude == old(level).next_boost_spawn_altitude
            &&& final(level).next_fairy_spawn_altitude == old(level).next_fairy_spawn_altitude
        },
{
    if altitude < level.next_cloud_spawn_altitude {
        return Vec::new();
    }
    let low = lvl(altitude, &CLOUD_COUNT_LOW);
    let high = lvl(altitude, &CLOUD_COUNT_HIGH);
    let count = draw_count(rng, low, high);
    let positions = spawn_positions(rng, count);
    let extra = gen_range_inclusive(rng, 0, lvl(altitude, &CLOUD_EXTRA_SPACING));
    cloud_batch(level, &positions, extra)
}

/// Spawns boost items if a batch is due at the coin's altitude.
///
/// Before the due altitude nothing happens, and the random source is not
/// consulted. From it on, a batch is placed in the spawn band: its size is
/// drawn between one and the most that the altitude's tier allows, and the
/// next batch is due one spacing later. The other classes are left alone.
pub fn spawn_boost(level: &mut LevelMetadata, altitude: i64, rng: &mut StdRng) -> (spawned: Vec<
    InitBoostItem,
>)
    requires
        altitude >= old(level).next_boost_spawn_altitude ==> fits_i64(
            old(level).next_boost_spawn_altitude + BOOST_SPACING,
        ),
    ensures
        altitude < old(level).next_boost_spawn_altitude ==> spawned@.len() == 0 && *final(level)
            == *old(level) && *final(rng) == *old(rng),
        altitude >= old(level).next_boost_spawn_altitude ==> {
            &&& BOOST_COUNT_LOW <= spawned@.len() <= BOOST_COUNT_HIGH[tier(altitude as int)]
            &&& forall|i: int| 0 <= i < spawned@.len() ==> in_spawn_band((#[trigger] spawned@[i]).0)
            &&& *final(level) == (LevelMetadata {
                next_boost_spawn_altitude: (old(level).next_boost_spawn_altitude + BOOST_SPACING) as i64,
                ..*old(level)
            })
        },
{
    if altitude < level.next_boost_spawn_altitude {
        return Vec::new();
    }
    let high = lvl(altitude, &BOOST_COUNT_HIGH);
    let count = draw_count(rng, BOOST_COUNT_LOW, high);
    let positions = spawn_positions(rng, count);
    boost_batch(level, &positions)
}

/// Spawns fairies if a batch is due at the coin's altitude.
///
/// Before the due altitude nothing happens, and the random source is not
/// consulted. From it on, a batch is placed in the spawn band: its size is
/// drawn from the range of the altitude's tier, which may come out as no
/// fairy at all, and the next batch is due one spacing later either way. The
/// other classes are left alone.
pub fn spawn_fairy(level: &mut LevelMetadata, altitude: i64, rng: &mut StdRng) -> (spawned: Vec<
    InitFairy,
>)
    requires
        altitude >= old(level).next_fairy_spawn_altitude ==> fits_i64(
            old(level).next_fairy_spawn_altitude + FAIRY_SPACING,
        ),
    ensures
        altitude < old(level).next_fairy_spawn_altitude ==> spawned@.len() == 0 && *final(level)
            == *old(level) && *final(rng) == *old(rng),
        altitude >= old(level).next_fairy_spawn_altitude ==> {
            &&& FAIRY_COUNT_LOW[tier(altitude as int)] <= spawned@.len()
                <= FAIRY_COUNT_HIGH[tier(altitude as int)]
            &&& forall|i: int| 0 <= i < spawned@.len() ==> in_spawn_band((#[trigger] spawned@[i]).0)
            &&& *final(level) == (LevelMetadata {
                next_fairy_spawn_altitude: (old(level).next_fairy_spawn_altitude + FAIRY_SPACING) as i64,
                ..*old(level)
            })
        },
{
    if altitude < level.next_fairy_spawn_altitude {
        return Vec::new();
    }
    let low = lvl(altitude, &FAIRY_COUNT_LOW);
    let high = lvl(altitude, &FAIRY_COUNT_HIGH);
    let count = draw_count(rng, low, high);
    let positions = spawn_positions(rng, count);
    fairy_batch(level, &positions)
}

/// The tiers rise with the altitude, and each tier is one of the five rows of
/// the tables.
pub proof fn lemma_tier_monotone(lower: int, higher: int)
    requires
        lower <= higher,
    ensures
        0 <= tier(lower) <= tier(higher) <= 4,
{
}

/// The higher the coin, the harder the level: clouds come in batches that
/// are no smaller and no further apart, and boost items and fairies in
/// batches that are no larger.
pub proof fn lemma_difficulty_rises(lower: int, higher: int)
    requires
        lower <= higher,
    ensures
        CLOUD_COUNT_LOW[tier(lower)] <= CLOUD_COUNT_LOW[tier(higher)],
        CLOUD_COUNT_HIGH[tier(lower)] <= CLOUD_COUNT_HIGH[tier(higher)],
        CLOUD_EXTRA_SPACING[tier(lower)] >= CLOUD_EXTRA_SPACING[tier(higher)],
        BOOST_COUNT_HIGH[tier(lower)] >= BOOST_COUNT_HIGH[tier(higher)],
        FAIRY_COUNT_LOW[tier(lower)] >= FAIRY_COUNT_LOW[tier(higher)],
        FAIRY_COUNT_HIGH[tier(lower)] >= FAIRY_COUNT_HIGH[tier(higher)],
{
}

/// At every tier the count ranges are proper: the fewest is not above the
/// most, and no count is negative.
pub proof fn lemma_count_ranges_proper(altitude: int)
    ensures
        0 <= CLOUD_COUNT_LOW[tier(altitude)] <= CLOUD_COUNT_HIGH[tier(altitude)],
        0 <= BOOST_COUNT_LOW <= BOOST_COUNT_HIGH[tier(altitude)],
        0 <= FAIRY_COUNT_LOW[tier(altitude)] <= FAIRY_COUNT_HIGH[tier(altitude)],
        0 <= CLOUD_EXTRA_SPACING[tier(altitude)] <= CLOUD_EXTRA_SPACING[0],
{
}

} // verus!
