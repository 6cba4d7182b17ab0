//! Points on the sub-pixel grid and the exact integer geometry over them.

use vstd::prelude::*;

verus! {

/// Number of grid units in one pixel. Coordinates and module sizes are whole
/// numbers of grid units, so a position is exact to 1/64 of a pixel.
pub const UNITS_PER_PIXEL: i32 = 64;

/// A position on the sub-pixel grid.
#[derive(Clone, Copy, Debug, PartialEq, Eq, Structural)]
pub struct Point {
    pub x: i32,
    pub y: i32,
}

/// The nearest value to `v` that a coordinate can hold.
pub open spec fn clamp_coordinate(v: int) -> int {
    if v < i32::MIN {
        i32::MIN as int
    } else if v > i32::MAX {
        i32::MAX as int
    } else {
        v
    }
}

/// `r` is the integer part of the square root of `n`.
pub open spec fn is_floor_sqrt(r: int, n: int) -> bool {
    0 <= r && r * r <= n < (r + 1) * (r + 1)
}

/// The product of two differences of coordinates stays below `2^64` in size.
proof fn lemma_difference_product(x: int, y: int)
    requires
        -0xFFFF_FFFF <= x <= 0xFFFF_FFFF,
        -0xFFFF_FFFF <= y <= 0xFFFF_FFFF,
    ensures
        -0xFFFF_FFFE_0000_0001 <= x * y <= 0xFFFF_FFFE_0000_0001,
{
    assert(-0xFFFF_FFFE_0000_0001 <= x * y <= 0xFFFF_FFFE_0000_0001) by (nonlinear_arith)
        requires
            -0xFFFF_FFFF <= x <= 0xFFFF_FFFF,
            -0xFFFF_FFFF <= y <= 0xFFFF_FFFF,
    ;
}

/// Squaring keeps the order of non-negative integers.
pub proof fn lemma_square_monotone(a: int, b: int)
    requires
        0 <= a <= b,
    ensures
        a * a <= b * b,
{
    assert(a * a <= b * b) by (nonlinear_arith)
        requires
            0 <= a <= b,
    ;
}

/// The integer part of the square root grows with its argument.
pub proof fn lemma_floor_sqrt_monotone(r: int, n: int, s: int, m: int)
    requires
        is_floor_sqrt(r, n),
        is_floor_sqrt(s, m),
        n <= m,
    ensures
        r <= s,
{
    if s < r {
        lemma_square_monotone(s + 1, r);
    }
}

impl Point {
    /// The point whose coordinates are `x` and `y` grid units.
    pub fn new(x: i32, y: i32) -> (p: Point)
        ensures
            p == (Point { x, y }),
    {
        Point { x, y }
    }

    /// Square of the Euclidean distance between two points.
    pub open spec fn spec_squared_distance(a: Point, b: Point) -> int {
        (a.x - b.x) * (a.x - b.x) + (a.y - b.y) * (a.y - b.y)
    }

    /// The z component of `(b - a) x (c - a)`.
    pub open spec fn spec_cross_product_z(a: Point, b: Point, c: Point) -> int {
        (b.x - a.x) * (c.y - a.y) - (b.y - a.y) * (c.x - a.x)
    }

    /// This point moved right by `dx` and down by `dy` whole pixels; a
    /// coordinate that would leave the grid stops at its edge.
    pub open spec fn spec_translated(self, dx: int, dy: int) -> Point {
        Point {
            x: clamp_coordinate(self.x + dx * UNITS_PER_PIXEL) as i32,
            y: clamp_coordinate(self.y + dy * UNITS_PER_PIXEL) as i32,
        }
    }

    /// Square of the Euclidean distance between `a` and `b`, in squared grid units.
    pub fn squared_distance(a: Point, b: Point) -> (d: u128)
        ensures
            d == Point::spec_squared_distance(a, b),
    {
        let dx: i64 = a.x as i64 - b.x as i64;
        let dy: i64 = a.y as i64 - b.y as i64;
        proof {
            lemma_difference_product(dx as int, dx as int);
            lemma_difference_product(dy as int, dy as int);
            assert(dx * dx >= 0) by (nonlinear_arith);
            assert(dy * dy >= 0) by (nonlinear_arith);
        }
        let sx: i128 = dx as i128 * dx as i128;
        let sy: i128 = dy as i128 * dy as i128;
        (sx + sy) as u128
    }

    /// Euclidean distance between `a` and `b` in grid units, rounded down.
    pub fn distance(a: Point, b: Point) -> (d: u64)
        ensures
            is_floor_sqrt(d as int, Point::spec_squared_distance(a, b)),
    {
        let n: u128 = Point::squared_distance(a, b);
        proof {
            lemma_difference_product(a.x - b.x, a.x - b.x);
            lemma_difference_product(a.y - b.y, a.y - b.y);
        }
        let mut lo: u128 = 0;
        let mut hi: u128 = 0x2_0000_0000;
        while hi - lo > 1
            invariant
                lo < hi <= 0x2_0000_0000,
                lo * lo <= n < hi * hi,
            decreases hi - lo,
        {
            let mid: u128 = lo + (hi - lo) / 2;
            assert(mid * mid <= 0x2_0000_0000 * 0x2_0000_0000) by (nonlinear_arith)
                requires
                    0 <= mid <= 0x2_0000_0000,
            ;
            if mid * mid <= n {
                lo = mid;
            } else {
                hi = mid;
            }
        }
        lo as u64
    }

    /// The z component of the cross product `(b - a) x (c - a)`: positive,
    /// zero or negative with the turn that the path `a`, `b`, `c` takes.
    #[allow(non_snake_case)]
    pub fn crossProductZ(a: Point, b: Point, c: Point) -> (z: i128)
        ensures
            z == Point::spec_cross_product_z(a, b, c),
    {
        let bx: i64 = b.x as i64 - a.x as i64;
        let by: i64 = b.y as i64 - a.y as i64;
        let cx: i64 = c.x as i64 - a.x as i64;
        let cy: i64 = c.y as i64 - a.y as i64;
        proof {
            lemma_difference_product(bx as int, cy as int);
            lemma_difference_product(by as int, cx as int);
        }
        bx as i128 * cy as i128 - by as i128 * cx as i128
    }

    /// This point moved right by `dx` and down by `dy` whole pixels.
    pub fn translated(self, dx: u32, dy: u32) -> (p: Point)
        ensures
            p == self.spec_translated(dx as int, dy as int),
    {
        Point { x: shifted(self.x, dx), y: shifted(self.y, dy) }
    }
}

/// The coordinate `v` moved by `pixels` whole pixels, held to the grid.
fn shifted(v: i32, pixels: u32) -> (r: i32)
    ensures
        r == clamp_coordinate(v + pixels * UNITS_PER_PIXEL),
{
    let unit: i64 = UNITS_PER_PIXEL as i64;
    assert(unit == 64);
    let moved: i64 = v as i64 + pixels as i64 * unit;
    if moved > i32::MAX as i64 {
        i32::MAX
    } else {
        moved as i32
    }
}

} // verus!
