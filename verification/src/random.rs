//! The random source of the level generator.
//!
//! The generator is handed its random source by the caller, so that a seeded
//! source replays the same level.

use vstd::prelude::*;
use rand::rngs::StdRng;
use rand::Rng;

verus! {

/// The standard generator of the `rand` crate, `rand::rngs::StdRng`. It is
/// only carried through: nothing is claimed about what it holds.
#[verifier::external_type_specification]
#[verifier::external_body]
pub struct ExStdRng(StdRng);

/// Draws an integer from `low..=high` with `Rng::gen_range` of the `rand`
/// crate, on its standard generator.
///
/// Believed without proof: the draw lies within the bounds, both included.
/// `gen_range` panics on an empty range, which the precondition leaves out.
/// Nothing is claimed about which value of the range comes out.
#[verifier::external_body]
pub(crate) fn gen_range_inclusive(rng: &mut StdRng, low: i64, high: i64) -> (value: i64)
    requires
        low <= high,
    ensures
        low <= value <= high,
{
    rng.gen_range(low..=high)
}

/// How many entities a batch holds when `draw` came out of the count range:
/// a negative draw spawns nothing.
pub open spec fn count_of_draw(draw: int) -> int {
    if draw < 0 { 0 } else { draw }
}

/// The count of a batch whose range `[low, high]` is empty: one where the
/// range asks for at least one, zero otherwise.
pub open spec fn degenerate_count(low: int) -> int {
    if low >= 1 { 1 } else { 0 }
}

/// Draws the size of a batch from the inclusive range `[low, high]`.
///
/// With a proper range the count lies in it (a negative part of the range
/// counts as zero). An empty range is no error: the count then degrades to
/// the smallest one, which is one if `low` asks for at least one and zero
/// otherwise, and the random source is not consulted.
pub fn draw_count(rng: &mut StdRng, low: i64, high: i64) -> (count: i64)
    ensures
        0 <= count,
        low <= high ==> count_of_draw(low as int) <= count <= count_of_draw(high as int),
        low > high ==> count == degenerate_count(low as int),
        low > high ==> *final(rng) == *old(rng),
{
    if low > high {
        if low >= 1 { 1 } else { 0 }
    } else {
        let draw = gen_range_inclusive(rng, low, high);
        if draw < 0 { 0 } else { draw }
    }
}

} // verus!
