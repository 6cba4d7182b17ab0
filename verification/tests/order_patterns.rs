use rxing_multi::point::Point;
use rxing_multi::result_point_utils::orderBestPatterns;

fn is_ordered(p: &[Point; 3]) -> bool {
    Point::squared_distance(p[0], p[1]) <= Point::squared_distance(p[0], p[2])
        && Point::squared_distance(p[1], p[2]) <= Point::squared_distance(p[0], p[2])
        && Point::crossProductZ(p[0], p[1], p[2]) >= 0
}

fn ordered(mut p: [Point; 3]) -> [Point; 3] {
    orderBestPatterns(&mut p);
    p
}

#[test]
fn corner_of_a_right_angle_becomes_the_middle() {
    let corner = Point::new(0, 0);
    let right = Point::new(10, 0);
    let down = Point::new(0, 10);
    let expected = [down, corner, right];
    for triple in [
        [corner, right, down],
        [corner, down, right],
        [right, corner, down],
        [right, down, corner],
        [down, corner, right],
        [down, right, corner],
    ] {
        assert_eq!(ordered(triple), expected);
    }
}

#[test]
fn ends_are_exchanged_where_the_turn_is_negative() {
    let a = Point::new(0, 0);
    let b = Point::new(4, 1);
    let c = Point::new(10, 0);
    assert!(Point::crossProductZ(a, b, c) < 0);
    assert_eq!(ordered([a, b, c]), [c, b, a]);
    assert_eq!(ordered([c, b, a]), [c, b, a]);
}

#[test]
fn every_order_of_a_scalene_triangle_gives_the_same_result() {
    let p = Point::new(3, 1);
    let q = Point::new(40, 7);
    let r = Point::new(11, 30);
    let first = ordered([p, q, r]);
    assert!(is_ordered(&first));
    for triple in [[p, r, q], [q, p, r], [q, r, p], [r, p, q], [r, q, p]] {
        assert_eq!(ordered(triple), first);
    }
}

#[test]
fn rounded_distances_are_ordered_too() {
    let triples = [
        [Point::new(3, 1), Point::new(40, 7), Point::new(11, 30)],
        [Point::new(0, 0), Point::new(1, 0), Point::new(0, 1)],
        [Point::new(-640, 64), Point::new(6400, 6400), Point::new(0, -64)],
    ];
    for triple in triples {
        let [a, b, c] = ordered(triple);
        assert!(Point::distance(a, b) <= Point::distance(a, c));
        assert!(Point::distance(b, c) <= Point::distance(a, c));
    }
}

#[test]
fn result_holds_the_same_points() {
    let input = [Point::new(9, 9), Point::new(-4, 2), Point::new(9, 9)];
    let mut output = ordered(input).to_vec();
    let mut expected = input.to_vec();
    output.sort_by_key(|p| (p.x, p.y));
    expected.sort_by_key(|p| (p.x, p.y));
    assert_eq!(output, expected);
}

#[test]
fn among_equal_sides_the_side_one_two_is_preferred() {
    let first = Point::new(0, 0);
    let second = Point::new(2, 0);
    let third = Point::new(1, -5);
    assert_eq!(Point::squared_distance(second, third), Point::squared_distance(first, third));
    assert_eq!(ordered([first, second, third]), [second, first, third]);
    let flat = Point::new(1, 0);
    assert_eq!(ordered([first, flat, second]), [first, flat, second]);
    assert_eq!(ordered([first, first, first]), [first, first, first]);
}

#[test]
fn ordering_an_ordered_triple_changes_nothing() {
    let triples = [
        [Point::new(0, 10), Point::new(0, 0), Point::new(10, 0)],
        [Point::new(10, 0), Point::new(4, 1), Point::new(0, 0)],
        [Point::new(0, 0), Point::new(0, 0), Point::new(7, 7)],
        [Point::new(5, 5), Point::new(5, 5), Point::new(5, 5)],
    ];
    for triple in triples {
        assert!(is_ordered(&triple));
        assert_eq!(ordered(triple), triple);
    }
}

#[test]
fn ordering_twice_is_ordering_once() {
    let triples = [
        [Point::new(3, 1), Point::new(40, 7), Point::new(11, 30)],
        [Point::new(-100, 64), Point::new(640, 640), Point::new(0, -64)],
        [Point::new(1, 1), Point::new(2, 2), Point::new(3, 3)],
    ];
    for triple in triples {
        let once = ordered(triple);
        assert_eq!(ordered(once), once);
    }
}

#[test]
fn two_longest_sides_that_meet_in_the_last_point_are_not_kept() {
    let a = Point::new(-1, 0);
    let b = Point::new(1, 0);
    let c = Point::new(0, 5);
    let triple = [a, b, c];
    assert!(is_ordered(&triple));
    assert_eq!(Point::squared_distance(b, c), Point::squared_distance(a, c));
    let again = ordered(triple);
    assert_eq!(again, [c, a, b]);
    assert!(is_ordered(&again));
    assert_eq!(ordered(again), again);
}

#[test]
fn ordering_at_the_ends_of_the_grid() {
    let a = Point::new(i32::MIN, i32::MIN);
    let b = Point::new(i32::MAX, i32::MIN);
    let c = Point::new(i32::MAX, i32::MAX);
    let result = ordered([a, b, c]);
    assert!(is_ordered(&result));
    assert_eq!(result[1], b);
}
