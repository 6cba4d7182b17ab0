use rxing_multi::point::{Point, UNITS_PER_PIXEL};
use rxing_multi::quadrilateral::Quadrilateral;

fn px(x: i32, y: i32) -> Point {
    Point::new(x * UNITS_PER_PIXEL, y * UNITS_PER_PIXEL)
}

#[test]
fn one_pixel_is_sixty_four_units() {
    assert_eq!(UNITS_PER_PIXEL, 64);
    assert_eq!(px(3, -2), Point { x: 192, y: -128 });
}

#[test]
fn squared_distance_of_a_3_4_5_triangle() {
    assert_eq!(Point::squared_distance(Point::new(0, 0), Point::new(3, 4)), 25);
    assert_eq!(Point::squared_distance(Point::new(3, 4), Point::new(0, 0)), 25);
    assert_eq!(Point::squared_distance(Point::new(-1, -1), Point::new(-1, -1)), 0);
}

#[test]
fn squared_distance_between_the_far_corners_of_the_grid() {
    let a = Point::new(i32::MIN, i32::MIN);
    let b = Point::new(i32::MAX, i32::MAX);
    let side: u128 = 0xFFFF_FFFF;
    assert_eq!(Point::squared_distance(a, b), 2 * side * side);
}

#[test]
fn distance_is_rounded_down() {
    assert_eq!(Point::distance(Point::new(0, 0), Point::new(3, 4)), 5);
    assert_eq!(Point::distance(Point::new(0, 0), Point::new(1, 1)), 1);
    assert_eq!(Point::distance(Point::new(0, 0), Point::new(2, 2)), 2);
    assert_eq!(Point::distance(Point::new(0, 0), Point::new(0, 0)), 0);
    assert_eq!(Point::distance(px(0, 0), px(10, 0)), 640);
    assert_eq!(
        Point::distance(Point::new(i32::MIN, i32::MIN), Point::new(i32::MAX, i32::MAX)),
        6_074_000_998
    );
}

#[test]
fn distance_matches_the_floating_point_distance() {
    let pairs = [((0, 0), (100, 37)), ((-5, 9), (1234, -4321)), ((7, 7), (7, 8))];
    for ((ax, ay), (bx, by)) in pairs {
        let exact = (((ax - bx) as f64).powi(2) + ((ay - by) as f64).powi(2)).sqrt();
        assert_eq!(Point::distance(Point::new(ax, ay), Point::new(bx, by)), exact.floor() as u64);
    }
}

#[test]
fn cross_product_sign_follows_the_turn() {
    let a = Point::new(0, 0);
    let b = Point::new(10, 0);
    assert_eq!(Point::crossProductZ(a, b, Point::new(10, 10)), 100);
    assert_eq!(Point::crossProductZ(a, b, Point::new(10, -10)), -100);
    assert_eq!(Point::crossProductZ(a, b, Point::new(20, 0)), 0);
    assert_eq!(Point::crossProductZ(Point::new(1, 2), Point::new(4, 6), Point::new(-3, 5)), 25);
}

#[test]
fn cross_product_at_the_edges_of_the_grid() {
    let a = Point::new(i32::MIN, i32::MIN);
    let b = Point::new(i32::MAX, i32::MIN);
    let c = Point::new(i32::MIN, i32::MAX);
    let side: i128 = 0xFFFF_FFFF;
    assert_eq!(Point::crossProductZ(a, b, c), side * side);
    assert_eq!(Point::crossProductZ(a, c, b), -side * side);
}

#[test]
fn translated_moves_by_whole_pixels() {
    assert_eq!(Point::new(5, 7).translated(2, 3), Point::new(5 + 128, 7 + 192));
    assert_eq!(Point::new(-64, -1).translated(1, 0), Point::new(0, -1));
    assert_eq!(Point::new(5, 7).translated(0, 0), Point::new(5, 7));
}

#[test]
fn translated_stops_at_the_edge_of_the_grid() {
    assert_eq!(Point::new(i32::MAX - 10, 0).translated(1, 0), Point::new(i32::MAX, 0));
    assert_eq!(Point::new(0, 0).translated(u32::MAX, u32::MAX), Point::new(i32::MAX, i32::MAX));
    assert_eq!(Point::new(i32::MIN, 0).translated(1, 0), Point::new(i32::MIN + 64, 0));
    assert_eq!(Point::new(i32::MAX - 64, 0).translated(1, 0), Point::new(i32::MAX, 0));
    assert_eq!(Point::new(i32::MAX - 65, 0).translated(1, 0), Point::new(i32::MAX - 1, 0));
}

fn square(left: i32, top: i32, side: i32) -> Quadrilateral {
    Quadrilateral::new(
        Point::new(left, top),
        Point::new(left + side, top),
        Point::new(left + side, top + side),
        Point::new(left, top + side),
    )
}

#[test]
fn bounding_box_of_a_tilted_quadrilateral() {
    let q = Quadrilateral::new(
        Point::new(5, 0),
        Point::new(10, 5),
        Point::new(5, 12),
        Point::new(-1, 5),
    );
    assert_eq!((q.min_x(), q.min_y(), q.max_x(), q.max_y()), (-1, 0, 10, 12));
}

#[test]
fn bounding_boxes_that_overlap_intersect() {
    assert!(Quadrilateral::have_intersecting_bounding_boxes(&square(0, 0, 10), &square(5, 5, 10)));
    assert!(Quadrilateral::have_intersecting_bounding_boxes(&square(5, 5, 10), &square(0, 0, 10)));
    assert!(Quadrilateral::have_intersecting_bounding_boxes(&square(0, 0, 10), &square(2, 2, 3)));
    assert!(Quadrilateral::have_intersecting_bounding_boxes(&square(0, 0, 10), &square(0, 0, 10)));
}

#[test]
fn bounding_boxes_that_touch_intersect() {
    assert!(Quadrilateral::have_intersecting_bounding_boxes(&square(0, 0, 10), &square(10, 0, 10)));
    assert!(Quadrilateral::have_intersecting_bounding_boxes(&square(0, 0, 10), &square(10, 10, 4)));
}

#[test]
fn bounding_boxes_apart_do_not_intersect() {
    assert!(!Quadrilateral::have_intersecting_bounding_boxes(&square(0, 0, 10), &square(11, 0, 10)));
    assert!(!Quadrilateral::have_intersecting_bounding_boxes(&square(0, 0, 10), &square(0, 11, 10)));
    assert!(!Quadrilateral::have_intersecting_bounding_boxes(&square(0, 0, 10), &square(-20, 0, 9)));
    assert!(!Quadrilateral::have_intersecting_bounding_boxes(&square(0, 0, 10), &square(0, -20, 9)));
}

#[test]
fn bounding_boxes_intersect_where_the_quadrilaterals_do_not() {
    let diamond = Quadrilateral::new(
        Point::new(10, 0),
        Point::new(20, 10),
        Point::new(10, 20),
        Point::new(0, 10),
    );
    let corner = square(0, 0, 2);
    assert!(!diamond.is_inside(Point::new(2, 2)));
    assert!(Quadrilateral::have_intersecting_bounding_boxes(&diamond, &corner));
}

#[test]
fn is_inside_holds_of_interior_and_boundary() {
    let q = square(0, 0, 10);
    assert!(q.is_inside(Point::new(5, 5)));
    assert!(q.is_inside(Point::new(0, 0)));
    assert!(q.is_inside(Point::new(10, 5)));
    assert!(q.is_inside(Point::new(5, 10)));
    assert!(!q.is_inside(Point::new(11, 5)));
    assert!(!q.is_inside(Point::new(5, -1)));
    assert!(!q.is_inside(Point::new(-1, -1)));
}

#[test]
fn is_inside_does_not_depend_on_the_direction_of_the_corners() {
    let clockwise = square(0, 0, 10);
    let counter = Quadrilateral::new(
        Point::new(0, 0),
        Point::new(0, 10),
        Point::new(10, 10),
        Point::new(10, 0),
    );
    for p in [Point::new(5, 5), Point::new(0, 3), Point::new(12, 3), Point::new(-3, -3)] {
        assert_eq!(clockwise.is_inside(p), counter.is_inside(p));
    }
}

#[test]
fn is_inside_a_quadrilateral_of_one_point() {
    let q = square(4, 4, 0);
    assert!(q.is_inside(Point::new(4, 4)));
    assert!(q.is_inside(Point::new(100, -7)));
}
