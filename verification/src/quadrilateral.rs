//! Four-cornered footprints of detected codes.

use vstd::prelude::*;
use crate::point::Point;

verus! {

/// The smaller of two integers.
pub open spec fn min_of(a: int, b: int) -> int {
    if a <= b {
        a
    } else {
        b
    }
}

/// The larger of two integers.
pub open spec fn max_of(a: int, b: int) -> int {
    if a >= b {
        a
    } else {
        b
    }
}

fn min_i32(a: i32, b: i32) -> (m: i32)
    ensures
        m == min_of(a as int, b as int),
{
    if a <= b {
        a
    } else {
        b
    }
}

fn max_i32(a: i32, b: i32) -> (m: i32)
    ensures
        m == max_of(a as int, b as int),
{
    if a >= b {
        a
    } else {
        b
    }
}

/// The footprint of a detected code: four corners, joined in the order in
/// which they are held, the last back to the first.
#[derive(Clone, Copy, Debug, PartialEq, Eq, Structural)]
pub struct Quadrilateral {
    pub a: Point,
    pub b: Point,
    pub c: Point,
    pub d: Point,
}

impl Quadrilateral {
    /// The quadrilateral with the corners `a`, `b`, `c`, `d`, in that order.
    pub fn new(a: Point, b: Point, c: Point, d: Point) -> (q: Quadrilateral)
        ensures
            q == (Quadrilateral { a, b, c, d }),
    {
        Quadrilateral { a, b, c, d }
    }

    /// Least x coordinate of the four corners.
    pub open spec fn spec_min_x(self) -> int {
        min_of(
            min_of(self.a.x as int, self.b.x as int),
            min_of(self.c.x as int, self.d.x as int),
        )
    }

    /// Greatest x coordinate of the four corners.
    pub open spec fn spec_max_x(self) -> int {
        max_of(
            max_of(self.a.x as int, self.b.x as int),
            max_of(self.c.x as int, self.d.x as int),
        )
    }

    /// Least y coordinate of the four corners.
    pub open spec fn spec_min_y(self) -> int {
        min_of(
            min_of(self.a.y as int, self.b.y as int),
            min_of(self.c.y as int, self.d.y as int),
        )
    }

    /// Greatest y coordinate of the four corners.
    pub open spec fn spec_max_y(self) -> int {
        max_of(
            max_of(self.a.y as int, self.b.y as int),
            max_of(self.c.y as int, self.d.y as int),
        )
    }

    /// The axis-aligned bounding boxes of `a` and `b` share at least one
    /// point. The boxes are closed: boxes that only touch do intersect.
    pub open spec fn spec_have_intersecting_bounding_boxes(
        a: Quadrilateral,
        b: Quadrilateral,
    ) -> bool {
        &&& a.spec_min_x() <= b.spec_max_x()
        &&& b.spec_min_x() <= a.spec_max_x()
        &&& a.spec_min_y() <= b.spec_max_y()
        &&& b.spec_min_y() <= a.spec_max_y()
    }

    /// The turns that the paths along each of the four edges and on to `p`
    /// take: the sign of each tells on which side of that edge `p` lies.
    pub open spec fn spec_sides(self, p: Point) -> (int, int, int, int) {
        (
            Point::spec_cross_product_z(self.a, self.b, p),
            Point::spec_cross_product_z(self.b, self.c, p),
            Point::spec_cross_product_z(self.c, self.d, p),
            Point::spec_cross_product_z(self.d, self.a, p),
        )
    }

    /// `p` lies on one and the same side of all four edges, where a point on
    /// the line through an edge counts for either side. For a convex
    /// quadrilateral these are its interior and its boundary.
    pub open spec fn spec_is_inside(self, p: Point) -> bool {
        let (s0, s1, s2, s3) = self.spec_sides(p);
        ||| (s0 >= 0 && s1 >= 0 && s2 >= 0 && s3 >= 0)
        ||| (s0 <= 0 && s1 <= 0 && s2 <= 0 && s3 <= 0)
    }

    /// Least x coordinate of the four corners.
    pub fn min_x(&self) -> (m: i32)
        ensures
            m == self.spec_min_x(),
    {
        min_i32(
            min_i32(self.a.x, self.b.x),
            min_i32(self.c.x, self.d.x),
        )
    }

    /// Greatest x coordinate of the four corners.
    pub fn max_x(&self) -> (m: i32)
        ensures
            m == self.spec_max_x(),
    {
        max_i32(
            max_i32(self.a.x, self.b.x),
            max_i32(self.c.x, self.d.x),
        )
    }

    /// Least y coordinate of the four corners.
    pub fn min_y(&self) -> (m: i32)
        ensures
            m == self.spec_min_y(),
    {
        min_i32(
            min_i32(self.a.y, self.b.y),
            min_i32(self.c.y, self.d.y),
        )
    }

    /// Greatest y coordinate of the four corners.
    pub fn max_y(&self) -> (m: i32)
        ensures
            m == self.spec_max_y(),
    {
        max_i32(
            max_i32(self.a.y, self.b.y),
            max_i32(self.c.y, self.d.y),
        )
    }

    /// Whether the axis-aligned bounding boxes of `a` and `b` intersect. This
    /// is a cautious stand-in for the intersection of the quadrilaterals
    /// themselves: it is true whenever they intersect, and sometimes when
    /// they do not.
    pub fn have_intersecting_bounding_boxes(a: &Quadrilateral, b: &Quadrilateral) -> (r: bool)
        ensures
            r == Quadrilateral::spec_have_intersecting_bounding_boxes(*a, *b),
    {
        a.min_x() <= b.max_x() && b.min_x() <= a.max_x() && a.min_y() <= b.max_y() && b.min_y()
            <= a.max_y()
    }

    /// Whether `p` lies inside this quadrilateral or on its boundary.
    pub fn is_inside(&self, p: Point) -> (r: bool)
        ensures
            r == self.spec_is_inside(p),
    {
        let s0 = Point::crossProductZ(self.a, self.b, p);
        let s1 = Point::crossProductZ(self.b, self.c, p);
        let s2 = Point::crossProductZ(self.c, self.d, p);
        let s3 = Point::crossProductZ(self.d, self.a, p);
        (s0 >= 0 && s1 >= 0 && s2 >= 0 && s3 >= 0) || (s0 <= 0 && s1 <= 0 && s2 <= 0 && s3 <= 0)
    }
}

/// Whether two bounding boxes intersect does not depend on which is named first.
pub proof fn lemma_intersection_symmetric(a: Quadrilateral, b: Quadrilateral)
    ensures
        Quadrilateral::spec_have_intersecting_bounding_boxes(a, b)
            == Quadrilateral::spec_have_intersecting_bounding_boxes(b, a),
{
}

/// The bounding box of a quadrilateral intersects itself.
pub proof fn lemma_intersection_reflexive(a: Quadrilateral)
    ensures
        Quadrilateral::spec_have_intersecting_bounding_boxes(a, a),
{
}

} // verus!
