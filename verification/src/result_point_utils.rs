//! Canonical ordering of three pattern centres.

use vstd::prelude::*;
use crate::point::{is_floor_sqrt, lemma_floor_sqrt_monotone, Point};

verus! {

/// The three points satisfy what the ordering promises: `a`-`c` is a longest
/// side, and the path `a`, `b`, `c` does not turn the negative way.
pub open spec fn is_ordered(a: Point, b: Point, c: Point) -> bool {
    &&& Point::spec_squared_distance(a, b) <= Point::spec_squared_distance(a, c)
    &&& Point::spec_squared_distance(b, c) <= Point::spec_squared_distance(a, c)
    &&& Point::spec_cross_product_z(a, b, c) >= 0
}

/// The corner `b` and the two ends `a`, `c` before orientation is looked at:
/// the corner is the point opposite a longest side, and among equally long
/// sides the side 1-2 is preferred to 0-2, and 0-2 to 0-1.
pub open spec fn corner_choice(first: Point, second: Point, third: Point) -> (
    Point,
    Point,
    Point,
) {
    let d01 = Point::spec_squared_distance(first, second);
    let d12 = Point::spec_squared_distance(second, third);
    let d02 = Point::spec_squared_distance(first, third);
    if d12 >= d01 && d12 >= d02 {
        (second, first, third)
    } else if d02 >= d12 && d02 >= d01 {
        (first, second, third)
    } else {
        (first, third, second)
    }
}

/// The order `(a, b, c)` given to three points: the corner choice, with its
/// two ends exchanged where the path would otherwise turn the negative way.
pub open spec fn ordered_patterns(first: Point, second: Point, third: Point) -> (
    Point,
    Point,
    Point,
) {
    let (a, b, c) = corner_choice(first, second, third);
    if Point::spec_cross_product_z(a, b, c) < 0 {
        (c, b, a)
    } else {
        (a, b, c)
    }
}

/// Exchanging the two ends of a path reverses its turn.
pub proof fn lemma_cross_product_reversed(a: Point, b: Point, c: Point)
    ensures
        Point::spec_cross_product_z(c, b, a) == -Point::spec_cross_product_z(a, b, c),
{
    let (ax, ay) = (a.x as int, a.y as int);
    let (bx, by) = (b.x as int, b.y as int);
    let (cx, cy) = (c.x as int, c.y as int);
    let reversed = (bx - cx) * (ay - cy) - (by - cy) * (ax - cx);
    let forward = (bx - ax) * (cy - ay) - (by - ay) * (cx - ax);
    assert(reversed == -forward) by (nonlinear_arith)
        requires
            reversed == (bx - cx) * (ay - cy) - (by - cy) * (ax - cx),
            forward == (bx - ax) * (cy - ay) - (by - ay) * (cx - ax),
    ;
}

/// The distance between two points does not depend on which is named first.
pub proof fn lemma_squared_distance_symmetric(a: Point, b: Point)
    ensures
        Point::spec_squared_distance(a, b) == Point::spec_squared_distance(b, a),
{
    let (ax, ay, bx, by) = (a.x as int, a.y as int, b.x as int, b.y as int);
    assert((ax - bx) * (ax - bx) == (bx - ax) * (bx - ax)) by (nonlinear_arith);
    assert((ay - by) * (ay - by) == (by - ay) * (by - ay)) by (nonlinear_arith);
}

/// Whatever three points are given, the order computed for them is ordered
/// and holds the same three points.
pub proof fn lemma_ordered_patterns_is_ordered(first: Point, second: Point, third: Point)
    ensures
        ({
            let (a, b, c) = ordered_patterns(first, second, third);
            &&& is_ordered(a, b, c)
            &&& seq![a, b, c].to_multiset() == seq![first, second, third].to_multiset()
        }),
{
    let (a, b, c) = corner_choice(first, second, third);
    let (ra, rb, rc) = ordered_patterns(first, second, third);
    lemma_squared_distance_symmetric(first, second);
    lemma_squared_distance_symmetric(second, third);
    lemma_squared_distance_symmetric(first, third);
    lemma_cross_product_reversed(a, b, c);
    lemma_three_points_permuted(first, second, third, ra, rb, rc);
}

/// Two triples that hold the same points in one of the six possible orders
/// are equal as multisets.
proof fn lemma_three_points_permuted(
    first: Point,
    second: Point,
    third: Point,
    a: Point,
    b: Point,
    c: Point,
)
    requires
        (a, b, c) == (first, second, third) || (a, b, c) == (first, third, second)
            || (a, b, c) == (second, first, third) || (a, b, c) == (second, third, first)
            || (a, b, c) == (third, first, second) || (a, b, c) == (third, second, first),
    ensures
        seq![a, b, c].to_multiset() == seq![first, second, third].to_multiset(),
{
    broadcast use vstd::seq_lib::group_to_multiset_ensures;

    let e = Seq::<Point>::empty();
    assert(seq![a, b, c] =~= e.push(a).push(b).push(c));
    assert(seq![first, second, third] =~= e.push(first).push(second).push(third));
    let given = e.push(first).push(second).push(third);
    assert(e.push(a).push(b).push(c).to_multiset() =~= given.to_multiset());
}

/// In an ordered triple no distance is greater than that from `a` to `c`,
/// also where distances are rounded down to whole units.
pub proof fn lemma_ordered_by_distance(a: Point, b: Point, c: Point, ab: int, bc: int, ac: int)
    requires
        is_ordered(a, b, c),
        is_floor_sqrt(ab, Point::spec_squared_distance(a, b)),
        is_floor_sqrt(bc, Point::spec_squared_distance(b, c)),
        is_floor_sqrt(ac, Point::spec_squared_distance(a, c)),
    ensures
        ab <= ac,
        bc <= ac,
{
    lemma_floor_sqrt_monotone(
        ab,
        Point::spec_squared_distance(a, b),
        ac,
        Point::spec_squared_distance(a, c),
    );
    lemma_floor_sqrt_monotone(
        bc,
        Point::spec_squared_distance(b, c),
        ac,
        Point::spec_squared_distance(a, c),
    );
}

/// Orders three pattern centres as `[a, b, c]` so that `a`-`c` is a longest
/// side of the triangle, `b` is the corner opposite it, and the path `a`,
/// `b`, `c` does not turn the negative way.
#[allow(non_snake_case)]
pub fn orderBestPatterns(patterns: &mut [Point; 3])
    ensures
        (final(patterns)[0], final(patterns)[1], final(patterns)[2]) == ordered_patterns(
            old(patterns)[0],
            old(patterns)[1],
            old(patterns)[2],
        ),
        is_ordered(final(patterns)[0], final(patterns)[1], final(patterns)[2]),
        final(patterns)@.to_multiset() == old(patterns)@.to_multiset(),
{
    let first = patterns[0];
    let second = patterns[1];
    let third = patterns[2];
    let zero_one = Point::squared_distance(first, second);
    let one_two = Point::squared_distance(second, third);
    let zero_two = Point::squared_distance(first, third);

    let (a, b, c) = if one_two >= zero_one && one_two >= zero_two {
        (second, first, third)
    } else if zero_two >= one_two && zero_two >= zero_one {
        (first, second, third)
    } else {
        (first, third, second)
    };

    proof {
        lemma_ordered_patterns_is_ordered(first, second, third);
        assert(old(patterns)@ =~= seq![first, second, third]);
    }
    if Point::crossProductZ(a, b, c) < 0 {
        *patterns = [c, b, a];
        assert(patterns@ =~= seq![c, b, a]);
    } else {
        *patterns = [a, b, c];
        assert(patterns@ =~= seq![a, b, c]);
    }
}

/// Ordering an ordered triple again changes nothing, unless its side `b`-`c`
/// is as long as `a`-`c` and `a` differs from `b`: the corner choice then
/// prefers the side `b`-`c` and takes `a` for the corner.
pub proof fn lemma_order_is_idempotent(a: Point, b: Point, c: Point)
    requires
        is_ordered(a, b, c),
        !(Point::spec_squared_distance(b, c) == Point::spec_squared_distance(a, c) && a != b),
    ensures
        ordered_patterns(a, b, c) == (a, b, c),
{
    lemma_squared_distance_symmetric(a, b);
    lemma_squared_distance_symmetric(b, c);
    lemma_squared_distance_symmetric(a, c);
    lemma_cross_product_reversed(a, b, c);
}

/// Ordering does change an ordered triple whose side `b`-`c` is as long as
/// `a`-`c` and whose `a` differs from `b`: these are the only ordered triples
/// that it changes.
pub proof fn lemma_order_changes_tied_triple(a: Point, b: Point, c: Point)
    requires
        is_ordered(a, b, c),
        Point::spec_squared_distance(b, c) == Point::spec_squared_distance(a, c),
        a != b,
    ensures
        ordered_patterns(a, b, c) != (a, b, c),
{
    lemma_squared_distance_symmetric(a, b);
    lemma_squared_distance_symmetric(b, c);
    lemma_squared_distance_symmetric(a, c);
}

/// The result of ordering any three points is a triple that ordering leaves
/// alone, unless it has two equally long longest sides that meet in `c`.
pub proof fn lemma_order_twice(first: Point, second: Point, third: Point)
    requires
        ({
            let (a, b, c) = ordered_patterns(first, second, third);
            !(Point::spec_squared_distance(b, c) == Point::spec_squared_distance(a, c) && a != b)
        }),
    ensures
        ({
            let (a, b, c) = ordered_patterns(first, second, third);
            ordered_patterns(a, b, c) == (a, b, c)
        }),
{
    let (a, b, c) = ordered_patterns(first, second, third);
    lemma_ordered_patterns_is_ordered(first, second, third);
    lemma_order_is_idempotent(a, b, c);
}

} // verus!
