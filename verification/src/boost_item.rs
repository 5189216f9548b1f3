//! Boost items: pickups that add a manual boost to the coin's stock.

use vstd::prelude::*;
use crate::coin::{Coin, CoinModel, COIN_HALF_SIZE};
use crate::math::fits_i32;
use crate::physics::RelativeCoinY;
use crate::rect::{Point, Rect};

verus! {

/// Half the side of a boost item's square bounding box: 20 units.
pub const BOOST_ITEM_HALF_SIZE: i64 = 20_000_000;

/// A request to place a boost item at a position.
#[derive(Debug, Clone, Copy, PartialEq, Eq, Structural)]
pub struct InitBoostItem(pub Point);

/// A boost item waiting to be picked up.
#[derive(Debug, Clone, Copy, PartialEq, Eq, Structural)]
pub struct BoostItem {
    pub position: Point,
}

impl BoostItem {
    /// The item's bounding box.
    pub open spec fn bounds(self) -> Rect {
        Rect::centered(self.position, BOOST_ITEM_HALF_SIZE, BOOST_ITEM_HALF_SIZE)
    }

    /// The corners of the item's bounding box can be held in 64 bits.
    pub open spec fn representable(self) -> bool {
        Rect::representable(self.position, BOOST_ITEM_HALF_SIZE, BOOST_ITEM_HALF_SIZE)
    }

    /// The bounding box of a boost item whose centre is at `position`.
    pub fn get_bounds(position: &Point) -> (bounds: Rect)
        requires
            Rect::representable(*position, BOOST_ITEM_HALF_SIZE, BOOST_ITEM_HALF_SIZE),
        ensures
            bounds == Rect::centered(*position, BOOST_ITEM_HALF_SIZE, BOOST_ITEM_HALF_SIZE),
            !bounds.empty(),
    {
        Rect::from_center_half_size(*position, BOOST_ITEM_HALF_SIZE, BOOST_ITEM_HALF_SIZE)
    }
}

impl RelativeCoinY for BoostItem {
    open spec fn position(self) -> Point {
        self.position
    }

    open spec fn moved_to(self, position: Point) -> BoostItem {
        BoostItem { position }
    }

    fn get_position(&self) -> (position: Point) {
        self.position
    }

    fn with_position(&self, position: Point) -> (moved: BoostItem) {
        BoostItem { position }
    }
}

impl CoinModel {
    /// The coin after picking up `items` boost items at once.
    pub open spec fn picked_up(self, items: int) -> CoinModel {
        CoinModel { additional_boosts: self.additional_boosts + items, ..self }
    }
}

/// The predicate "overlaps a coin of this bounding box".
pub open spec fn boost_item_touched(coin_bounds: Rect) -> spec_fn(BoostItem) -> bool {
    |item: BoostItem| item.bounds().overlaps(coin_bounds)
}

/// The predicate "does not overlap a coin of this bounding box".
pub open spec fn boost_item_untouched(coin_bounds: Rect) -> spec_fn(BoostItem) -> bool {
    |item: BoostItem| !item.bounds().overlaps(coin_bounds)
}

/// Turns every placement request into a boost item at the requested position.
pub fn init_boost_items(requests: &Vec<InitBoostItem>) -> (items: Vec<BoostItem>)
    ensures
        items@.len() == requests@.len(),
        forall|i: int| 0 <= i < items@.len() ==> (#[trigger] items@[i]).position == requests@[i].0,
{
    let mut items: Vec<BoostItem> = Vec::new();
    let mut i: usize = 0;
    while i < requests.len()
        invariant
            i <= requests.len(),
            items@.len() == i,
            forall|j: int| 0 <= j < i ==> (#[trigger] items@[j]).position == requests@[j].0,
        decreases requests.len() - i,
    {
        items.push(BoostItem { position: requests[i].0 });
        i += 1;
    }
    items
}

/// Resolves the collisions of the coin with the boost items.
///
/// Every item whose box overlaps the coin's is picked up: it leaves the list
/// and adds one boost to the coin's stock. Several items picked up in one tick
/// each count. The flags say, for each item as it was handed in, whether it
/// was picked up; the items that stay keep their order.
pub fn check_boost_item_coin_collision(
    coin: &mut Coin,
    coin_position: &Point,
    items: &mut Vec<BoostItem>,
) -> (collected: Vec<bool>)
    requires
        Rect::representable(*coin_position, COIN_HALF_SIZE, COIN_HALF_SIZE),
        forall|i: int| 0 <= i < old(items)@.len() ==> (#[trigger] old(items)@[i]).representable(),
        fits_i32(
            old(coin).additional_boosts + old(items)@.filter(
                boost_item_touched(Rect::centered(*coin_position, COIN_HALF_SIZE, COIN_HALF_SIZE)),
            ).len(),
        ),
    ensures
        collected@.len() == old(items)@.len(),
        forall|i: int|
            0 <= i < old(items)@.len() ==> #[trigger] collected@[i] == old(items)@[i].bounds().overlaps(
                Rect::centered(*coin_position, COIN_HALF_SIZE, COIN_HALF_SIZE),
            ),
        final(items)@ == old(items)@.filter(
            boost_item_untouched(Rect::centered(*coin_position, COIN_HALF_SIZE, COIN_HALF_SIZE)),
        ),
        final(coin)@ == old(coin)@.picked_up(
            old(items)@.filter(
                boost_item_touched(Rect::centered(*coin_position, COIN_HALF_SIZE, COIN_HALF_SIZE)),
            ).len() as int,
        ),
{
    let ghost coin_bounds = Rect::centered(*coin_position, COIN_HALF_SIZE, COIN_HALF_SIZE);
    let ghost start = coin@;
    let coin_rect = Coin::get_bounds(coin_position);
    let mut kept: Vec<BoostItem> = Vec::new();
    let mut collected: Vec<bool> = Vec::new();
    let mut i: usize = 0;
    proof {
        assert(items@.take(0) =~= Seq::<BoostItem>::empty());
        items@.take(0).lemma_filter_len(boost_item_touched(coin_bounds));
        items@.take(0).lemma_filter_len(boost_item_untouched(coin_bounds));
    }
    while i < items.len()
        invariant
            i <= items.len(),
            coin_rect == coin_bounds,
            forall|j: int| 0 <= j < items@.len() ==> (#[trigger] items@[j]).representable(),
            fits_i32(start.additional_boosts + items@.filter(boost_item_touched(coin_bounds)).len()),
            kept@ == items@.take(i as int).filter(boost_item_untouched(coin_bounds)),
            collected@.len() == i,
            forall|j: int|
                0 <= j < i ==> #[trigger] collected@[j] == items@[j].bounds().overlaps(coin_bounds),
            coin@ == start.picked_up(
                items@.take(i as int).filter(boost_item_touched(coin_bounds)).len() as int,
            ),
        decreases items.len() - i,
    {
        let item = items[i];
        proof {
            assert(items@[i as int].representable());
            assert(items@.take(i + 1) =~= items@.take(i as int).push(item));
            items@.take(i as int).lemma_filter_push(item, boost_item_touched(coin_bounds));
            items@.take(i as int).lemma_filter_push(item, boost_item_untouched(coin_bounds));
            items@.lemma_filter_take_len(boost_item_touched(coin_bounds), i + 1);
        }
        let item_rect = BoostItem::get_bounds(&item.position);
        let hit = item_rect.collides(&coin_rect);
        collected.push(hit);
        if hit {
            coin.additional_boosts = coin.additional_boosts + 1;
        } else {
            kept.push(item);
        }
        i += 1;
    }
    proof {
        assert(items@.take(i as int) =~= items@);
    }
    *items = kept;
    collected
}

} // verus!
