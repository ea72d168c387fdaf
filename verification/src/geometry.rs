//! Rectangles in logical screen coordinates, with half-open containment
//! and the area measure used by the hit-test tie-break.

use vstd::prelude::*;

verus! {

/// Bound on every coordinate the library works with. Keeping positions and
/// sides within this bound lets sums (`x + width`) and areas
/// (`width * height`) be computed in `i64` without overflow.
pub const COORD_LIMIT: i64 = 1_000_000_000;

/// A coordinate usable by the library: bounded so that arithmetic on it
/// stays within `i64`.
pub open spec fn coord_in_range(c: int) -> bool {
    -COORD_LIMIT <= c <= COORD_LIMIT
}

/// An axis-aligned rectangle in logical screen coordinates. `(x, y)` is the
/// top-left corner; `width` and `height` are non-negative side lengths.
/// Serves both as an element's geometry and as a monitor's logical bounds.
#[derive(Clone, Copy, Debug, PartialEq, Eq, Structural)]
pub struct Rect {
    pub x: i64,
    pub y: i64,
    pub width: i64,
    pub height: i64,
}

impl Rect {
    /// Well-formed: corner within the coordinate bound, sides non-negative
    /// and bounded.
    pub open spec fn wf(self) -> bool {
        &&& coord_in_range(self.x as int)
        &&& coord_in_range(self.y as int)
        &&& 0 <= self.width <= COORD_LIMIT
        &&& 0 <= self.height <= COORD_LIMIT
    }

    /// Half-open containment: a point on the right or bottom edge is not
    /// inside the rectangle.
    pub open spec fn spec_contains(self, px: int, py: int) -> bool {
        &&& self.x <= px < self.x + self.width
        &&& self.y <= py < self.y + self.height
    }

    /// The area of the rectangle, the measure by which the hit-test prefers
    /// one containing child over another.
    pub open spec fn spec_area(self) -> int {
        self.width * self.height
    }

    /// Half-open hit test of a point against this rectangle.
    pub fn contains_point(&self, px: i64, py: i64) -> (r: bool)
        requires
            self.wf(),
            coord_in_range(px as int),
            coord_in_range(py as int),
        ensures
            r == self.spec_contains(px as int, py as int),
    {
        px >= self.x && px < self.x + self.width && py >= self.y && py < self.y + self.height
    }

    /// The area of the rectangle as an `i64`; well-formedness bounds it.
    pub fn area(&self) -> (r: i64)
        requires
            self.wf(),
        ensures
            r == self.spec_area(),
    {
        proof {
            assert(0 <= self.width * self.height <= COORD_LIMIT * COORD_LIMIT)
                by (nonlinear_arith)
                requires
                    0 <= self.width <= COORD_LIMIT,
                    0 <= self.height <= COORD_LIMIT,
            ;
        }
        self.width * self.height
    }
}

/// Containment is half-open: a point exactly on the right edge
/// (`px == x + width`) or on the bottom edge (`py == y + height`) lies
/// outside the rectangle, whatever its other coordinate.
pub proof fn lemma_edges_excluded(r: Rect, px: int, py: int)
    ensures
        !r.spec_contains(r.x + r.width, py),
        !r.spec_contains(px, r.y + r.height),
{
}

} // verus!
