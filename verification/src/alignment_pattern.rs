//! Estimates of an alignment pattern's centre and module size, and how
//! repeated sightings of one pattern are recognised and averaged.

use vstd::prelude::*;
use crate::point::{Point, UNITS_PER_PIXEL};

verus! {

/// Distance between two integers.
pub open spec fn abs_diff(a: int, b: int) -> int {
    if a >= b {
        a - b
    } else {
        b - a
    }
}

/// Arithmetic mean of two integers, rounded down to a whole number.
pub open spec fn mean(a: int, b: int) -> int {
    (a + b) / 2
}

fn distance_i32(a: i32, b: i32) -> (d: i64)
    ensures
        d == abs_diff(a as int, b as int),
{
    if a >= b {
        a as i64 - b as i64
    } else {
        b as i64 - a as i64
    }
}

fn mean_i32(a: i32, b: i32) -> (m: i32)
    ensures
        m == mean(a as int, b as int),
{
    let sum: i64 = a as i64 + b as i64;
    if sum >= 0 {
        (sum / 2) as i32
    } else {
        (-((1 - sum) / 2)) as i32
    }
}

/// One estimate of where an alignment pattern lies and how wide its modules
/// are, both in grid units. An estimate is never changed: folding a new
/// sighting in gives a new estimate.
#[derive(Clone, Copy, Debug)]
pub struct AlignmentPattern {
    estimatedModuleSize: i32,
    point: Point,
}

impl AlignmentPattern {
    /// The estimated centre.
    pub closed spec fn center(self) -> Point {
        self.point
    }

    /// The estimated module size.
    pub closed spec fn module_size(self) -> int {
        self.estimatedModuleSize as int
    }

    /// Whether a sighting with module size `moduleSize` at row `i` and column
    /// `j` is taken for this pattern: its centre lies within `moduleSize` of
    /// the estimated centre on both axes, and its module size differs from
    /// the estimated one by no more than one pixel or by no more than the
    /// estimated size itself.
    pub open spec fn spec_about_equals(self, moduleSize: int, i: int, j: int) -> bool {
        &&& abs_diff(i, self.center().y as int) <= moduleSize
        &&& abs_diff(j, self.center().x as int) <= moduleSize
        &&& (abs_diff(moduleSize, self.module_size()) <= UNITS_PER_PIXEL || abs_diff(
            moduleSize,
            self.module_size(),
        ) <= self.module_size())
    }

    /// The estimate with centre `(posX, posY)` and the given module size.
    #[allow(non_snake_case)]
    pub fn new(posX: i32, posY: i32, estimatedModuleSize: i32) -> (p: AlignmentPattern)
        ensures
            p.center() == (Point { x: posX, y: posY }),
            p.module_size() == estimatedModuleSize,
    {
        AlignmentPattern { estimatedModuleSize, point: Point { x: posX, y: posY } }
    }

    /// Column of the estimated centre.
    #[allow(non_snake_case)]
    pub fn getX(&self) -> (x: i32)
        ensures
            x == self.center().x,
    {
        self.point.x
    }

    /// Row of the estimated centre.
    #[allow(non_snake_case)]
    pub fn getY(&self) -> (y: i32)
        ensures
            y == self.center().y,
    {
        self.point.y
    }

    /// The estimated module size.
    #[allow(non_snake_case)]
    pub fn getEstimatedModuleSize(&self) -> (s: i32)
        ensures
            s == self.module_size(),
    {
        self.estimatedModuleSize
    }

    /// Decides whether a sighting at row `i`, column `j` with module size
    /// `moduleSize` is another sighting of this pattern: it is at nearly the
    /// same centre with nearly the same size.
    #[allow(non_snake_case)]
    pub fn aboutEquals(&self, moduleSize: i32, i: i32, j: i32) -> (r: bool)
        ensures
            r == self.spec_about_equals(moduleSize as int, i as int, j as int),
    {
        if distance_i32(i, self.point.y) <= moduleSize as i64 && distance_i32(j, self.point.x)
            <= moduleSize as i64 {
            let difference = distance_i32(moduleSize, self.estimatedModuleSize);
            difference <= UNITS_PER_PIXEL as i64 || difference <= self.estimatedModuleSize as i64
        } else {
            false
        }
    }

    /// Folds a sighting at row `i`, column `j` with module size
    /// `newModuleSize` into this estimate: the result holds the mean of the
    /// two centres and the mean of the two module sizes.
    #[allow(non_snake_case)]
    pub fn combineEstimate(&self, i: i32, j: i32, newModuleSize: i32) -> (r: AlignmentPattern)
        ensures
            r.center().x == mean(self.center().x as int, j as int),
            r.center().y == mean(self.center().y as int, i as int),
            r.module_size() == mean(self.module_size(), newModuleSize as int),
    {
        let combined_x = mean_i32(self.point.x, j);
        let combined_y = mean_i32(self.point.y, i);
        let combined_module_size = mean_i32(self.estimatedModuleSize, newModuleSize);
        AlignmentPattern::new(combined_x, combined_y, combined_module_size)
    }
}

/// An estimate with a module size that is not negative about-equals itself.
pub proof fn lemma_about_equals_itself(p: AlignmentPattern)
    requires
        p.module_size() >= 0,
    ensures
        p.spec_about_equals(p.module_size(), p.center().y as int, p.center().x as int),
{
}

/// A sighting of the estimated size whose centre is off by no more than that
/// size on each axis is taken for the pattern. The bound is inclusive: a
/// centre off by exactly the module size on one axis still matches.
pub proof fn lemma_about_equals_within_module_size(p: AlignmentPattern, i: int, j: int)
    requires
        abs_diff(i, p.center().y as int) <= p.module_size(),
        abs_diff(j, p.center().x as int) <= p.module_size(),
    ensures
        p.spec_about_equals(p.module_size(), i, j),
{
}

/// A sighting whose centre is off by more than its module size on either
/// axis is not taken for the pattern, whatever the sizes are.
pub proof fn lemma_about_equals_rejects_far_centre(
    p: AlignmentPattern,
    moduleSize: int,
    i: int,
    j: int,
)
    requires
        abs_diff(i, p.center().y as int) > moduleSize || abs_diff(j, p.center().x as int)
            > moduleSize,
    ensures
        !p.spec_about_equals(moduleSize, i, j),
{
}

/// Folding a sighting into an estimate gives a centre and a module size that
/// lie between those of the estimate and those of the sighting.
pub proof fn lemma_mean_between(a: int, b: int)
    ensures
        a <= b ==> a <= mean(a, b) <= b,
        b <= a ==> b <= mean(a, b) <= a,
        mean(a, b) == mean(b, a),
        mean(a, a) == a,
{
}

} // verus!
