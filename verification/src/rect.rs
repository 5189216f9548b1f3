//! Points and axis-aligned rectangles on the integer grid of the world.

use vstd::prelude::*;

verus! {

/// A point of the plane, or a displacement in it; each coordinate is a length
/// in millionths of a unit.
#[derive(Clone, Copy, PartialEq, Eq, Debug, Hash, Structural)]
pub struct Point {
    pub x: i64,
    pub y: i64,
}

/// An axis-aligned rectangle given by its lower-left and upper-right corners.
///
/// A rectangle whose `max` is not strictly above and to the right of its `min`
/// covers no area and is called empty.
#[derive(Clone, Copy, PartialEq, Eq, Debug, Hash, Structural)]
pub struct Rect {
    pub min: Point,
    pub max: Point,
}

impl Point {
    /// The point with the given coordinates.
    pub fn new(x: i64, y: i64) -> (p: Point)
        ensures
            p == (Point { x, y }),
    {
        Point { x, y }
    }
}

impl Rect {
    /// The rectangle has no interior: it is a line, a point, or inverted.
    pub open spec fn empty(self) -> bool {
        self.min.x >= self.max.x || self.min.y >= self.max.y
    }

    /// The two rectangles share interior area.
    ///
    /// This holds iff neither is empty and neither lies entirely to one side
    /// of the other on either axis; rectangles that only touch along an edge
    /// or at a corner do not overlap.
    pub open spec fn overlaps(self, other: Rect) -> bool {
        &&& !self.empty()
        &&& !other.empty()
        &&& self.min.x < other.max.x
        &&& other.min.x < self.max.x
        &&& self.min.y < other.max.y
        &&& other.min.y < self.max.y
    }

    /// The largest rectangle contained in both, as corners: where the two do
    /// not meet, the lower-left corner is pulled back onto the upper-right one
    /// so that the result is empty rather than inverted.
    pub open spec fn intersection(self, other: Rect) -> Rect {
        let max = Point {
            x: if self.max.x <= other.max.x { self.max.x } else { other.max.x },
            y: if self.max.y <= other.max.y { self.max.y } else { other.max.y },
        };
        let low = Point {
            x: if self.min.x >= other.min.x { self.min.x } else { other.min.x },
            y: if self.min.y >= other.min.y { self.min.y } else { other.min.y },
        };
        Rect {
            min: Point {
                x: if low.x <= max.x { low.x } else { max.x },
                y: if low.y <= max.y { low.y } else { max.y },
            },
            max,
        }
    }

    /// Whether a box of the given half extents around `center` has corners
    /// that can be held in 64 bits.
    pub open spec fn representable(center: Point, half_width: i64, half_height: i64) -> bool {
        &&& i64::MIN <= center.x - half_width
        &&& center.x + half_width <= i64::MAX
        &&& i64::MIN <= center.y - half_height
        &&& center.y + half_height <= i64::MAX
    }

    /// The box of the given half extents around `center`.
    pub open spec fn centered(center: Point, half_width: i64, half_height: i64) -> Rect {
        Rect {
            min: Point { x: (center.x - half_width) as i64, y: (center.y - half_height) as i64 },
            max: Point { x: (center.x + half_width) as i64, y: (center.y + half_height) as i64 },
        }
    }

    /// Builds the box that extends `half_width` to the left and right of
    /// `center` and `half_height` below and above it.
    pub fn from_center_half_size(center: Point, half_width: i64, half_height: i64) -> (r: Rect)
        requires
            half_width >= 0,
            half_height >= 0,
            Rect::representable(center, half_width, half_height),
        ensures
            r == Rect::centered(center, half_width, half_height),
            r.min.x == center.x - half_width,
            r.max.x == center.x + half_width,
            r.min.y == center.y - half_height,
            r.max.y == center.y + half_height,
    {
        Rect {
            min: Point { x: center.x - half_width, y: center.y - half_height },
            max: Point { x: center.x + half_width, y: center.y + half_height },
        }
    }

    /// Tells whether the rectangle covers no area.
    pub fn is_empty(&self) -> (b: bool)
        ensures
            b == self.empty(),
    {
        self.min.x >= self.max.x || self.min.y >= self.max.y
    }

    /// The common part of two rectangles; empty where they do not overlap.
    pub fn intersect(&self, other: &Rect) -> (r: Rect)
        ensures
            r == self.intersection(*other),
            r.empty() == !self.overlaps(*other),
    {
        let max = Point {
            x: if self.max.x <= other.max.x { self.max.x } else { other.max.x },
            y: if self.max.y <= other.max.y { self.max.y } else { other.max.y },
        };
        let low = Point {
            x: if self.min.x >= other.min.x { self.min.x } else { other.min.x },
            y: if self.min.y >= other.min.y { self.min.y } else { other.min.y },
        };
        Rect {
            min: Point {
                x: if low.x <= max.x { low.x } else { max.x },
                y: if low.y <= max.y { low.y } else { max.y },
            },
            max,
        }
    }

    /// Tells whether two rectangles collide, that is, share interior area.
    pub fn collides(&self, other: &Rect) -> (hit: bool)
        ensures
            hit == self.overlaps(*other),
            hit == !self.intersection(*other).empty(),
            hit == other.overlaps(*self),
    {
        !self.intersect(other).is_empty()
    }
}

/// Overlap does not depend on the order of the two rectangles, and neither
/// does their common part.
pub proof fn lemma_overlap_symmetric(a: Rect, b: Rect)
    ensures
        a.overlaps(b) == b.overlaps(a),
        a.intersection(b) == b.intersection(a),
{
}

/// Two rectangles overlap exactly when their common part is not empty.
pub proof fn lemma_overlap_is_nonempty_intersection(a: Rect, b: Rect)
    ensures
        a.overlaps(b) == !a.intersection(b).empty(),
{
}

/// An empty rectangle overlaps nothing, and nothing overlaps it.
pub proof fn lemma_empty_never_overlaps(a: Rect, b: Rect)
    requires
        a.empty(),
    ensures
        !a.overlaps(b),
        !b.overlaps(a),
{
}

} // verus!
