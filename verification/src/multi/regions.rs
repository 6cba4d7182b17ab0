//! The parts of a region that are searched after a code was found in it.

use vstd::prelude::*;
use crate::point::{Point, UNITS_PER_PIXEL};
use crate::quadrilateral::{max_of, min_of};

verus! {

/// A part of a region is searched only if it is more than this many pixels
/// wide (for the parts left and right of a code) or high (above and below).
pub const MIN_DIMENSION_TO_RECUR: u32 = 2;

/// A rectangle of whole pixels inside a region, in that region's coordinates.
#[derive(Clone, Copy, Debug, PartialEq, Eq, Structural)]
pub struct Region {
    pub left: u32,
    pub top: u32,
    pub width: u32,
    pub height: u32,
}

/// The parts of a region left of a code, above it, right of it and below it,
/// each present only where it is to be searched.
#[derive(Clone, Copy, Debug, PartialEq, Eq, Structural)]
pub struct SubRegions {
    pub left: Option<Region>,
    pub top: Option<Region>,
    pub right: Option<Region>,
    pub bottom: Option<Region>,
}

/// The x coordinates of the points.
pub open spec fn xs(points: Seq<Point>) -> Seq<int> {
    points.map_values(|p: Point| p.x as int)
}

/// The y coordinates of the points.
pub open spec fn ys(points: Seq<Point>) -> Seq<int> {
    points.map_values(|p: Point| p.y as int)
}

/// The least of `bound` and all the values.
pub open spec fn least(values: Seq<int>, bound: int) -> int
    decreases values.len(),
{
    if values.len() == 0 {
        bound
    } else {
        min_of(least(values.drop_last(), bound), values.last())
    }
}

/// The greatest of `bound` and all the values.
pub open spec fn greatest(values: Seq<int>, bound: int) -> int
    decreases values.len(),
{
    if values.len() == 0 {
        bound
    } else {
        max_of(greatest(values.drop_last(), bound), values.last())
    }
}

/// `least` is a lower bound of `bound` and of every value, and is one of them.
pub proof fn lemma_least(values: Seq<int>, bound: int)
    ensures
        least(values, bound) <= bound,
        forall|i: int| 0 <= i < values.len() ==> least(values, bound) <= values[i],
        least(values, bound) == bound || exists|i: int|
            0 <= i < values.len() && least(values, bound) == values[i],
    decreases values.len(),
{
    if values.len() > 0 {
        let rest = values.drop_last();
        lemma_least(rest, bound);
        assert forall|i: int| 0 <= i < values.len() implies least(values, bound) <= values[i] by {
            if i < rest.len() {
                assert(rest[i] == values[i]);
            }
        }
        if least(values, bound) != bound && least(values, bound) != values.last() {
            let i = choose|i: int| 0 <= i < rest.len() && least(rest, bound) == rest[i];
            assert(least(values, bound) == values[i]);
        }
    }
}

/// `greatest` is an upper bound of `bound` and of every value, and is one of them.
pub proof fn lemma_greatest(values: Seq<int>, bound: int)
    ensures
        greatest(values, bound) >= bound,
        forall|i: int| 0 <= i < values.len() ==> greatest(values, bound) >= values[i],
        greatest(values, bound) == bound || exists|i: int|
            0 <= i < values.len() && greatest(values, bound) == values[i],
    decreases values.len(),
{
    if values.len() > 0 {
        let rest = values.drop_last();
        lemma_greatest(rest, bound);
        assert forall|i: int| 0 <= i < values.len() implies greatest(values, bound)
            >= values[i] by {
            if i < rest.len() {
                assert(rest[i] == values[i]);
            }
        }
        if greatest(values, bound) != bound && greatest(values, bound) != values.last() {
            let i = choose|i: int| 0 <= i < rest.len() && greatest(rest, bound) == rest[i];
            assert(greatest(values, bound) == values[i]);
        }
    }
}

/// The part left of the points: the columns before the least x coordinate,
/// over the full height. It is searched if that coordinate, which is taken
/// as no more than the region's width, lies more than the minimum from the
/// left edge.
pub open spec fn left_part(points: Seq<Point>, width: u32, height: u32) -> Option<Region> {
    let min_x = least(xs(points), width * UNITS_PER_PIXEL);
    if points.len() > 0 && min_x > MIN_DIMENSION_TO_RECUR * UNITS_PER_PIXEL {
        Some(Region { left: 0, top: 0, width: (min_x / UNITS_PER_PIXEL as int) as u32, height })
    } else {
        None
    }
}

/// The part above the points: the rows before the least y coordinate, over
/// the full width. It is searched if that coordinate, which is taken as no
/// more than the region's height, lies more than the minimum from the top edge.
pub open spec fn top_part(points: Seq<Point>, width: u32, height: u32) -> Option<Region> {
    let min_y = least(ys(points), height * UNITS_PER_PIXEL);
    if points.len() > 0 && min_y > MIN_DIMENSION_TO_RECUR * UNITS_PER_PIXEL {
        Some(Region { left: 0, top: 0, width, height: (min_y / UNITS_PER_PIXEL as int) as u32 })
    } else {
        None
    }
}

/// The part right of the points: the columns from the pixel that holds the
/// greatest x coordinate on, over the full height. It is searched if that
/// coordinate, which is taken as no less than zero, lies more than the
/// minimum from the right edge.
pub open spec fn right_part(points: Seq<Point>, width: u32, height: u32) -> Option<Region> {
    let max_x = greatest(xs(points), 0);
    if points.len() > 0 && max_x < (width - MIN_DIMENSION_TO_RECUR) * UNITS_PER_PIXEL {
        Some(
            Region {
                left: (max_x / UNITS_PER_PIXEL as int) as u32,
                top: 0,
                width: (width - max_x / UNITS_PER_PIXEL as int) as u32,
                height,
            },
        )
    } else {
        None
    }
}

/// The part below the points: the rows from the pixel that holds the
/// greatest y coordinate on, over the full width. It is searched if that
/// coordinate, which is taken as no less than zero, lies more than the
/// minimum from the bottom edge.
pub open spec fn bottom_part(points: Seq<Point>, width: u32, height: u32) -> Option<Region> {
    let max_y = greatest(ys(points), 0);
    if points.len() > 0 && max_y < (height - MIN_DIMENSION_TO_RECUR) * UNITS_PER_PIXEL {
        Some(
            Region {
                left: 0,
                top: (max_y / UNITS_PER_PIXEL as int) as u32,
                width,
                height: (height - max_y / UNITS_PER_PIXEL as int) as u32,
            },
        )
    } else {
        None
    }
}

/// The parts of a region of the given size that are searched after a code
/// with the given points was found in it. Without points there is nothing to
/// go by, and no part is searched.
pub open spec fn spec_sub_regions(points: Seq<Point>, width: u32, height: u32) -> SubRegions {
    SubRegions {
        left: left_part(points, width, height),
        top: top_part(points, width, height),
        right: right_part(points, width, height),
        bottom: bottom_part(points, width, height),
    }
}

/// `part` lies within a region of the given size.
pub open spec fn lies_within(part: Option<Region>, width: u32, height: u32) -> bool {
    match part {
        Some(r) => r.left + r.width <= width && r.top + r.height <= height,
        None => true,
    }
}

/// Every part that is searched lies within the region. The parts left and
/// right are more than two pixels wide, those above and below more than two
/// pixels high; the first two start at the region's origin.
pub proof fn lemma_sub_regions_lie_within(points: Seq<Point>, width: u32, height: u32)
    ensures
        lies_within(left_part(points, width, height), width, height),
        lies_within(top_part(points, width, height), width, height),
        lies_within(right_part(points, width, height), width, height),
        lies_within(bottom_part(points, width, height), width, height),
        left_part(points, width, height) matches Some(r) ==> r.width >= MIN_DIMENSION_TO_RECUR
            && r.left == 0 && r.top == 0 && r.height == height,
        top_part(points, width, height) matches Some(r) ==> r.height >= MIN_DIMENSION_TO_RECUR
            && r.left == 0 && r.top == 0 && r.width == width,
        right_part(points, width, height) matches Some(r) ==> r.width > MIN_DIMENSION_TO_RECUR
            && r.top == 0 && r.height == height && r.left + r.width == width,
        bottom_part(points, width, height) matches Some(r) ==> r.height > MIN_DIMENSION_TO_RECUR
            && r.left == 0 && r.width == width && r.top + r.height == height,
{
    lemma_least(xs(points), width * UNITS_PER_PIXEL);
    lemma_least(ys(points), height * UNITS_PER_PIXEL);
    lemma_greatest(xs(points), 0);
    lemma_greatest(ys(points), 0);
}

/// The least of `bound` and the x or y coordinates of `points`.
fn least_coordinate(points: &Vec<Point>, bound: i64, vertical: bool) -> (m: i64)
    ensures
        m == least(
            if vertical {
                ys(points@)
            } else {
                xs(points@)
            },
            bound as int,
        ),
{
    let ghost values = if vertical {
        ys(points@)
    } else {
        xs(points@)
    };
    let mut m: i64 = bound;
    let mut i: usize = 0;
    while i < points.len()
        invariant
            i <= points@.len(),
            values.len() == points@.len(),
            values == if vertical {
                ys(points@)
            } else {
                xs(points@)
            },
            m == least(values.take(i as int), bound as int),
        decreases points@.len() - i,
    {
        let v: i64 = if vertical {
            points[i].y as i64
        } else {
            points[i].x as i64
        };
        assert(values.take(i + 1).drop_last() =~= values.take(i as int));
        if v < m {
            m = v;
        }
        i += 1;
    }
    assert(values.take(i as int) =~= values);
    m
}

/// The greatest of `bound` and the x or y coordinates of `points`.
fn greatest_coordinate(points: &Vec<Point>, bound: i64, vertical: bool) -> (m: i64)
    ensures
        m == greatest(
            if vertical {
                ys(points@)
            } else {
                xs(points@)
            },
            bound as int,
        ),
{
    let ghost values = if vertical {
        ys(points@)
    } else {
        xs(points@)
    };
    let mut m: i64 = bound;
    let mut i: usize = 0;
    while i < points.len()
        invariant
            i <= points@.len(),
            values.len() == points@.len(),
            values == if vertical {
                ys(points@)
            } else {
                xs(points@)
            },
            m == greatest(values.take(i as int), bound as int),
        decreases points@.len() - i,
    {
        let v: i64 = if vertical {
            points[i].y as i64
        } else {
            points[i].x as i64
        };
        assert(values.take(i + 1).drop_last() =~= values.take(i as int));
        if v > m {
            m = v;
        }
        i += 1;
    }
    assert(values.take(i as int) =~= values);
    m
}

/// The parts of a region `width` pixels wide and `height` pixels high that
/// are searched after a code with the location points `points` was found in
/// it: what lies left of the points, above them, right of them and below
/// them, each only if it is more than the minimum wide or high. A boundary
/// that falls inside a pixel is moved left or up to the pixel's edge.
pub fn sub_regions(points: &Vec<Point>, width: u32, height: u32) -> (parts: SubRegions)
    ensures
        parts == spec_sub_regions(points@, width, height),
{
    if points.len() == 0 {
        return SubRegions { left: None, top: None, right: None, bottom: None };
    }
    let unit: i64 = UNITS_PER_PIXEL as i64;
    let least_gap: i64 = MIN_DIMENSION_TO_RECUR as i64;
    assert(unit == 64 && least_gap == 2);
    let min_x = least_coordinate(points, width as i64 * unit, false);
    let min_y = least_coordinate(points, height as i64 * unit, true);
    let max_x = greatest_coordinate(points, 0, false);
    let max_y = greatest_coordinate(points, 0, true);
    proof {
        lemma_least(xs(points@), width * UNITS_PER_PIXEL);
        lemma_least(ys(points@), height * UNITS_PER_PIXEL);
        lemma_greatest(xs(points@), 0);
        lemma_greatest(ys(points@), 0);
    }
    let left = if min_x > least_gap * unit {
        Some(Region { left: 0, top: 0, width: (min_x / unit) as u32, height })
    } else {
        None
    };
    let top = if min_y > least_gap * unit {
        Some(Region { left: 0, top: 0, width, height: (min_y / unit) as u32 })
    } else {
        None
    };
    let right = if max_x < (width as i64 - least_gap) * unit {
        let column: u32 = (max_x / unit) as u32;
        Some(Region { left: column, top: 0, width: width - column, height })
    } else {
        None
    };
    let bottom = if max_y < (height as i64 - least_gap) * unit {
        let row: u32 = (max_y / unit) as u32;
        Some(Region { left: 0, top: row, width, height: height - row })
    } else {
        None
    };
    SubRegions { left, top, right, bottom }
}

} // verus!
