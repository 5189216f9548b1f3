//! The world scrolls past the coin: the coin stays at height zero on the
//! screen, and everything placed relative to it moves down by what the coin
//! climbs. What has fallen far enough below is dropped.

use vstd::prelude::*;
use crate::coin::Coin;
use crate::math::fits_i64;
use crate::rect::Point;

verus! {

/// Things lower than this, 10000 units below the coin, are out of the
/// tracked range.
pub const OUT_OF_BOUNDS_Y: i64 = -10_000_000_000;

/// Something that is placed relative to the coin and scrolls with the world.
pub trait RelativeCoinY: Copy {
    /// Where the thing is.
    spec fn position(self) -> Point;

    /// The same thing at another place.
    spec fn moved_to(self, position: Point) -> Self;

    /// Where the thing is.
    fn get_position(&self) -> (position: Point)
        ensures
            position == self.position(),
    ;

    /// The same thing at another place.
    fn with_position(&self, position: Point) -> (moved: Self)
        ensures
            moved == self.moved_to(position),
    ;
}

impl RelativeCoinY for Point {
    open spec fn position(self) -> Point {
        self
    }

    open spec fn moved_to(self, position: Point) -> Point {
        position
    }

    fn get_position(&self) -> (position: Point) {
        *self
    }

    fn with_position(&self, position: Point) -> (moved: Point) {
        position
    }
}

/// Where a point ends up after the coin has moved at `speed` for `dt`
/// milliseconds: lower by exactly `speed * dt`, and no further left or right.
pub open spec fn scrolled(position: Point, speed: int, dt: int) -> Point {
    Point { x: position.x, y: (position.y - speed * dt) as i64 }
}

/// The map "scroll by what a coin of this speed climbs in `dt` milliseconds".
pub open spec fn scroll_by<T: RelativeCoinY>(speed: int, dt: int) -> spec_fn(T) -> T {
    |thing: T| thing.moved_to(scrolled(thing.position(), speed, dt))
}

/// The predicate "is still within the tracked range".
pub open spec fn within_range<T: RelativeCoinY>() -> spec_fn(T) -> bool {
    |thing: T| thing.position().y >= OUT_OF_BOUNDS_Y
}

/// Scrolls everything that is placed relative to the coin by what the coin
/// climbs in `dt` milliseconds.
pub fn update_y_pos_relative_to_coin<T: RelativeCoinY>(coin: &Coin, dt: u32, things: &mut Vec<T>)
    requires
        forall|i: int|
            0 <= i < old(things)@.len() ==> fits_i64(
                (#[trigger] old(things)@[i]).position().y - coin.speed * dt,
            ),
    ensures
        final(things)@.len() == old(things)@.len(),
        forall|i: int|
            0 <= i < old(things)@.len() ==> #[trigger] final(things)@[i] == old(things)@[i].moved_to(
                scrolled(old(things)@[i].position(), coin.speed as int, dt as int),
            ),
        final(things)@ == old(things)@.map_values(scroll_by::<T>(coin.speed as int, dt as int)),
{
    proof {
        crate::math::lemma_product_fits_i128(coin.speed as int, dt as int);
    }
    let adjustment: i128 = (coin.speed as i128) * (dt as i128);
    let ghost before = things@;
    let mut i: usize = 0;
    while i < things.len()
        invariant
            i <= things.len(),
            things@.len() == before.len(),
            adjustment == coin.speed * dt,
            forall|j: int|
                0 <= j < before.len() ==> fits_i64((#[trigger] before[j]).position().y - coin.speed * dt),
            forall|j: int| i <= j < before.len() ==> things@[j] == before[j],
            forall|j: int|
                0 <= j < i ==> #[trigger] things@[j] == before[j].moved_to(
                    scrolled(before[j].position(), coin.speed as int, dt as int),
                ),
        decreases things.len() - i,
    {
        let thing = things[i];
        let position = thing.get_position();
        proof {
            assert(thing == before[i as int]);
            assert(fits_i64(before[i as int].position().y - coin.speed * dt));
        }
        let y: i64 = ((position.y as i128) - adjustment) as i64;
        things.set(i, thing.with_position(Point { x: position.x, y }));
        i += 1;
    }
    proof {
        assert(things@ =~= before.map_values(scroll_by::<T>(coin.speed as int, dt as int)));
    }
}

/// Drops everything that has fallen out of the tracked range. What stays
/// keeps its order; the flags say, for each thing as it was handed in,
/// whether it was dropped.
pub fn despawn_out_of_bounds_things<T: RelativeCoinY>(things: &mut Vec<T>) -> (despawned: Vec<bool>)
    ensures
        final(things)@ == old(things)@.filter(within_range::<T>()),
        despawned@.len() == old(things)@.len(),
        forall|i: int|
            0 <= i < old(things)@.len() ==> #[trigger] despawned@[i] == (old(things)@[i].position().y
                < OUT_OF_BOUNDS_Y),
{
    let mut kept: Vec<T> = Vec::new();
    let mut despawned: Vec<bool> = Vec::new();
    let mut i: usize = 0;
    proof {
        assert(things@.take(0) =~= Seq::<T>::empty());
        things@.take(0).lemma_filter_len(within_range::<T>());
    }
    while i < things.len()
        invariant
            i <= things.len(),
            kept@ == things@.take(i as int).filter(within_range::<T>()),
            despawned@.len() == i,
            forall|j: int|
                0 <= j < i ==> #[trigger] despawned@[j] == (things@[j].position().y < OUT_OF_BOUNDS_Y),
        decreases things.len() - i,
    {
        let thing = things[i];
        proof {
            assert(things@.take(i + 1) =~= things@.take(i as int).push(thing));
            things@.take(i as int).lemma_filter_push(thing, within_range::<T>());
        }
        let out = thing.get_position().y < OUT_OF_BOUNDS_Y;
        despawned.push(out);
        if !out {
            kept.push(thing);
        }
        i += 1;
    }
    proof {
        assert(things@.take(i as int) =~= things@);
    }
    *things = kept;
    despawned
}

} // verus!
