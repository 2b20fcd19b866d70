//! The handle's bounding box and the triangle hit test.

use vstd::prelude::*;

verus! {

/// Largest coordinate magnitude the geometry accepts. The bound keeps every
/// intermediate product of the hit test and of the scale computation inside
/// the fixed-width integer types they are evaluated in.
pub const COORD_LIMIT: i64 = 0x4000_0000;

/// Whether a coordinate is small enough for the fixed-width arithmetic.
pub open spec fn coord_in_range(v: int) -> bool {
    -COORD_LIMIT <= v <= COORD_LIMIT
}

/// An axis-aligned rectangle in widget coordinates: `(x, y)` is the top-left
/// corner and the y axis grows downward. Coordinates are fixed-point integers
/// in whatever subdivision of a pixel the caller chooses.
#[derive(Clone, Copy, Debug, PartialEq, Eq, Structural)]
pub struct BoundingBox {
    pub x: i64,
    pub y: i64,
    pub w: i64,
    pub h: i64,
}

impl BoundingBox {
    /// A box is well formed when its corner lies in coordinate range and its
    /// extent is non-negative and in range.
    pub open spec fn wf(self) -> bool {
        &&& coord_in_range(self.x as int)
        &&& coord_in_range(self.y as int)
        &&& 0 <= self.w <= COORD_LIMIT
        &&& 0 <= self.h <= COORD_LIMIT
    }
}

/// The 2-D cross product (perp-dot product) of the hypotenuse edge with the
/// vector from the bottom-left corner to the test point.
///
/// The visible handle is the triangle bottom-left -> bottom-right -> top-right
/// of the box. Its hypotenuse runs from `p1 = (x, y + h)` (bottom-left) to
/// `p2 = (x + w, y)` (top-right), so the edge vector is `(w, -h)`, and for a
/// test point `p` the cross product `(p2 - p1) x (p - p1)` expands to
/// `w * (py - y - h) + h * (px - x)`. The other two triangle edges coincide
/// with the box border, so this single edge decides the hit for any point the
/// box bounds.
pub open spec fn hypotenuse_cross(bounds: BoundingBox, px: int, py: int) -> int {
    bounds.w * (py - bounds.y - bounds.h) + bounds.h * (px - bounds.x)
}

/// Whether a point lies on the visible triangle: on the lower-right side of
/// the hypotenuse, with points exactly on the hypotenuse counted as inside.
pub open spec fn triangle_contains(bounds: BoundingBox, px: int, py: int) -> bool {
    hypotenuse_cross(bounds, px, py) >= 0
}

/// Bounds the product of two bounded factors.
proof fn lemma_mul_bounds(a: int, b: int, am: int, bm: int)
    by (nonlinear_arith)
    requires
        -am <= a <= am,
        -bm <= b <= bm,
        0 <= am,
        0 <= bm,
    ensures
        -(am * bm) <= a * b <= am * bm,
{
}

/// Test whether a point intersects with the triangle of the resize handle.
pub fn intersects_triangle(bounds: BoundingBox, point: (i64, i64)) -> (r: bool)
    requires
        bounds.wf(),
        coord_in_range(point.0 as int),
        coord_in_range(point.1 as int),
    ensures
        r == triangle_contains(bounds, point.0 as int, point.1 as int),
{
    let (px, py): (i64, i64) = point;
    let dx: i64 = px - bounds.x;
    let dy: i64 = py - bounds.y - bounds.h;
    proof {
        lemma_mul_bounds(bounds.w as int, dy as int, COORD_LIMIT as int, 3 * COORD_LIMIT as int);
        lemma_mul_bounds(bounds.h as int, dx as int, COORD_LIMIT as int, 2 * COORD_LIMIT as int);
    }
    let cross: i64 = bounds.w * dy + bounds.h * dx;
    cross >= 0
}

} // verus!
