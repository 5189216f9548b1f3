//! Fairies: pickups that give the coin a strong push upward.

use vstd::prelude::*;
use crate::coin::{Coin, CoinModel, COIN_HALF_SIZE};
use crate::math::fits_i64;
use crate::physics::RelativeCoinY;
use crate::rect::{Point, Rect};

verus! {

/// Half the side of a fairy's square bounding box: 30 units.
pub const FAIRY_HALF_SIZE: i64 = 30_000_000;

/// The speed a fairy adds: 400 units per second, more than a manual boost.
pub const FAIRY_SPEED_BOOST: i64 = 400_000;

/// A request to place a fairy at a position.
#[derive(Debug, Clone, Copy, PartialEq, Eq, Structural)]
pub struct InitFairy(pub Point);

/// A fairy waiting to be met.
#[derive(Debug, Clone, Copy, PartialEq, Eq, Structural)]
pub struct Fairy {
    pub position: Point,
}

impl Fairy {
    /// The fairy's bounding box.
    pub open spec fn bounds(self) -> Rect {
        Rect::centered(self.position, FAIRY_HALF_SIZE, FAIRY_HALF_SIZE)
    }

    /// The corners of the fairy's bounding box can be held in 64 bits.
    pub open spec fn representable(self) -> bool {
        Rect::representable(self.position, FAIRY_HALF_SIZE, FAIRY_HALF_SIZE)
    }

    /// The bounding box of a fairy whose centre is at `position`.
    pub fn get_bounds(position: &Point) -> (bounds: Rect)
        requires
            Rect::representable(*position, FAIRY_HALF_SIZE, FAIRY_HALF_SIZE),
        ensures
            bounds == Rect::centered(*position, FAIRY_HALF_SIZE, FAIRY_HALF_SIZE),
            !bounds.empty(),
    {
        Rect::from_center_half_size(*position, FAIRY_HALF_SIZE, FAIRY_HALF_SIZE)
    }
}

impl RelativeCoinY for Fairy {
    open spec fn position(self) -> Point {
        self.position
    }

    open spec fn moved_to(self, position: Point) -> Fairy {
        Fairy { position }
    }

    fn get_position(&self) -> (position: Point) {
        self.position
    }

    fn with_position(&self, position: Point) -> (moved: Fairy) {
        Fairy { position }
    }
}

impl CoinModel {
    /// The coin after meeting `fairies` fairies at once.
    pub open spec fn lifted(self, fairies: int) -> CoinModel {
        CoinModel { speed: self.speed + FAIRY_SPEED_BOOST * fairies, ..self }
    }
}

/// The predicate "overlaps a coin of this bounding box".
pub open spec fn fairy_touched(coin_bounds: Rect) -> spec_fn(Fairy) -> bool {
    |fairy: Fairy| fairy.bounds().overlaps(coin_bounds)
}

/// The predicate "does not overlap a coin of this bounding box".
pub open spec fn fairy_untouched(coin_bounds: Rect) -> spec_fn(Fairy) -> bool {
    |fairy: Fairy| !fairy.bounds().overlaps(coin_bounds)
}

/// Turns every placement request into a fairy at the requested position.
pub fn init_fairies(requests: &Vec<InitFairy>) -> (fairies: Vec<Fairy>)
    ensures
        fairies@.len() == requests@.len(),
        forall|i: int| 0 <= i < fairies@.len() ==> (#[trigger] fairies@[i]).position == requests@[i].0,
{
    let mut fairies: Vec<Fairy> = Vec::new();
    let mut i: usize = 0;
    while i < requests.len()
        invariant
            i <= requests.len(),
            fairies@.len() == i,
            forall|j: int| 0 <= j < i ==> (#[trigger] fairies@[j]).position == requests@[j].0,
        decreases requests.len() - i,
    {
        fairies.push(Fairy { position: requests[i].0 });
        i += 1;
    }
    fairies
}

/// Resolves the collisions of the coin with the fairies.
///
/// Every fairy whose box overlaps the coin's is met: she leaves the list and
/// adds her push to the coin's speed. Several fairies met in one tick each
/// count. The flags say, for each fairy as she was handed in, whether she was
/// met; the fairies that stay keep their order.
pub fn check_fairy_coin_collision(
    coin: &mut Coin,
    coin_position: &Point,
    fairies: &mut Vec<Fairy>,
) -> (met: Vec<bool>)
    requires
        Rect::representable(*coin_position, COIN_HALF_SIZE, COIN_HALF_SIZE),
        forall|i: int| 0 <= i < old(fairies)@.len() ==> (#[trigger] old(fairies)@[i]).representable(),
        fits_i64(
            old(coin)@.lifted(
                old(fairies)@.filter(
                    fairy_touched(Rect::centered(*coin_position, COIN_HALF_SIZE, COIN_HALF_SIZE)),
                ).len() as int,
            ).speed,
        ),
    ensures
        met@.len() == old(fairies)@.len(),
        forall|i: int|
            0 <= i < old(fairies)@.len() ==> #[trigger] met@[i] == old(fairies)@[i].bounds().overlaps(
                Rect::centered(*coin_position, COIN_HALF_SIZE, COIN_HALF_SIZE),
            ),
        final(fairies)@ == old(fairies)@.filter(
            fairy_untouched(Rect::centered(*coin_position, COIN_HALF_SIZE, COIN_HALF_SIZE)),
        ),
        final(coin)@ == old(coin)@.lifted(
            old(fairies)@.filter(
                fairy_touched(Rect::centered(*coin_position, COIN_HALF_SIZE, COIN_HALF_SIZE)),
            ).len() as int,
        ),
{
    let ghost coin_bounds = Rect::centered(*coin_position, COIN_HALF_SIZE, COIN_HALF_SIZE);
    let ghost start = coin@;
    let ghost total = fairies@.filter(fairy_touched(coin_bounds)).len() as int;
    let coin_rect = Coin::get_bounds(coin_position);
    let mut kept: Vec<Fairy> = Vec::new();
    let mut met: Vec<bool> = Vec::new();
    let mut i: usize = 0;
    proof {
        assert(fairies@.take(0) =~= Seq::<Fairy>::empty());
        fairies@.take(0).lemma_filter_len(fairy_touched(coin_bounds));
        fairies@.take(0).lemma_filter_len(fairy_untouched(coin_bounds));
    }
    while i < fairies.len()
        invariant
            i <= fairies.len(),
            coin_rect == coin_bounds,
            forall|j: int| 0 <= j < fairies@.len() ==> (#[trigger] fairies@[j]).representable(),
            total == fairies@.filter(fairy_touched(coin_bounds)).len(),
            fits_i64(start.speed),
            fits_i64(start.speed + FAIRY_SPEED_BOOST * total),
            kept@ == fairies@.take(i as int).filter(fairy_untouched(coin_bounds)),
            met@.len() == i,
            forall|j: int|
                0 <= j < i ==> #[trigger] met@[j] == fairies@[j].bounds().overlaps(coin_bounds),
            coin@ == start.lifted(
                fairies@.take(i as int).filter(fairy_touched(coin_bounds)).len() as int,
            ),
        decreases fairies.len() - i,
    {
        let fairy = fairies[i];
        let ghost so_far = fairies@.take(i as int).filter(fairy_touched(coin_bounds)).len() as int;
        proof {
            assert(fairies@[i as int].representable());
            assert(fairies@.take(i + 1) =~= fairies@.take(i as int).push(fairy));
            fairies@.take(i as int).lemma_filter_push(fairy, fairy_touched(coin_bounds));
            fairies@.take(i as int).lemma_filter_push(fairy, fairy_untouched(coin_bounds));
            fairies@.lemma_filter_take_len(fairy_touched(coin_bounds), i + 1);
        }
        let fairy_rect = Fairy::get_bounds(&fairy.position);
        let hit = fairy_rect.collides(&coin_rect);
        met.push(hit);
        if hit {
            assert(FAIRY_SPEED_BOOST * (so_far + 1) == FAIRY_SPEED_BOOST * so_far + FAIRY_SPEED_BOOST)
                by (nonlinear_arith);
            assert(FAIRY_SPEED_BOOST * (so_far + 1) <= FAIRY_SPEED_BOOST * total) by (nonlinear_arith)
                requires so_far + 1 <= total, FAIRY_SPEED_BOOST == 400_000;
            coin.speed = coin.speed + FAIRY_SPEED_BOOST;
        } else {
            kept.push(fairy);
        }
        i += 1;
    }
    proof {
        assert(fairies@.take(i as int) =~= fairies@);
    }
    *fairies = kept;
    met
}

} // verus!
