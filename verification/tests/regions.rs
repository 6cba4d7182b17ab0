use rxing_multi::binary_bitmap::BinaryBitmap;
use rxing_multi::multi::regions::{sub_regions, Region, SubRegions, MIN_DIMENSION_TO_RECUR};
use rxing_multi::point::{Point, UNITS_PER_PIXEL};

const U: i32 = UNITS_PER_PIXEL;

fn at(x: i32, y: i32) -> Point {
    Point::new(x * U, y * U)
}

fn region(left: u32, top: u32, width: u32, height: u32) -> Option<Region> {
    Some(Region { left, top, width, height })
}

const NONE: SubRegions = SubRegions { left: None, top: None, right: None, bottom: None };

#[test]
fn the_minimum_is_two_pixels() {
    assert_eq!(MIN_DIMENSION_TO_RECUR, 2);
}

#[test]
fn parts_around_a_code_in_the_middle() {
    let points = vec![at(100, 250), at(100, 50), at(300, 50), at(300, 250)];
    assert_eq!(
        sub_regions(&points, 400, 300),
        SubRegions {
            left: region(0, 0, 100, 300),
            top: region(0, 0, 400, 50),
            right: region(300, 0, 100, 300),
            bottom: region(0, 250, 400, 50),
        }
    );
}

#[test]
fn no_parts_without_points() {
    assert_eq!(sub_regions(&vec![], 400, 300), NONE);
    assert_eq!(sub_regions(&vec![], 0, 0), NONE);
}

#[test]
fn parts_around_a_single_point() {
    assert_eq!(
        sub_regions(&vec![at(10, 20)], 100, 100),
        SubRegions {
            left: region(0, 0, 10, 100),
            top: region(0, 0, 100, 20),
            right: region(10, 0, 90, 100),
            bottom: region(0, 20, 100, 80),
        }
    );
}

#[test]
fn a_part_of_two_pixels_is_not_searched() {
    let parts = sub_regions(&vec![at(2, 2), at(98, 98)], 100, 100);
    assert_eq!(parts, NONE);
}

#[test]
fn a_part_of_just_over_two_pixels_is_searched() {
    let points = vec![Point::new(2 * U + 1, 2 * U + 1), Point::new(98 * U - 1, 98 * U - 1)];
    assert_eq!(
        sub_regions(&points, 100, 100),
        SubRegions {
            left: region(0, 0, 2, 100),
            top: region(0, 0, 100, 2),
            right: region(97, 0, 3, 100),
            bottom: region(0, 97, 100, 3),
        }
    );
}

#[test]
fn a_boundary_inside_a_pixel_is_moved_to_the_pixel_edge() {
    let points = vec![Point::new(10 * U + 32, 20 * U + 63), Point::new(50 * U + 1, 60 * U + 63)];
    assert_eq!(
        sub_regions(&points, 100, 100),
        SubRegions {
            left: region(0, 0, 10, 100),
            top: region(0, 0, 100, 20),
            right: region(50, 0, 50, 100),
            bottom: region(0, 60, 100, 40),
        }
    );
}

#[test]
fn points_outside_the_region_are_held_to_it() {
    let beyond = vec![at(150, 150)];
    assert_eq!(
        sub_regions(&beyond, 100, 80),
        SubRegions { left: region(0, 0, 100, 80), top: region(0, 0, 100, 80), right: None, bottom: None }
    );
    let before = vec![at(-5, -5)];
    assert_eq!(
        sub_regions(&before, 100, 80),
        SubRegions { left: None, top: None, right: region(0, 0, 100, 80), bottom: region(0, 0, 100, 80) }
    );
}

#[test]
fn small_regions_have_no_parts() {
    assert_eq!(sub_regions(&vec![at(0, 0)], 2, 2), NONE);
    assert_eq!(sub_regions(&vec![at(1, 1)], 2, 2), NONE);
    assert_eq!(sub_regions(&vec![at(0, 0)], 0, 0), NONE);
    assert_eq!(sub_regions(&vec![at(0, 0)], 1, 1), NONE);
    assert_eq!(
        sub_regions(&vec![at(0, 0)], 3, 3),
        SubRegions { left: None, top: None, right: region(0, 0, 3, 3), bottom: region(0, 0, 3, 3) }
    );
}

#[test]
fn parts_of_the_largest_region() {
    let edge = (i32::MAX / U) as u32;
    let points = vec![Point::new(i32::MAX, i32::MAX), Point::new(i32::MIN, i32::MIN)];
    assert_eq!(
        sub_regions(&points, u32::MAX, u32::MAX),
        SubRegions {
            left: None,
            top: None,
            right: region(edge, 0, u32::MAX - edge, u32::MAX),
            bottom: region(0, edge, u32::MAX, u32::MAX - edge),
        }
    );
    let points = vec![Point::new(i32::MAX, i32::MAX)];
    assert_eq!(
        sub_regions(&points, u32::MAX, u32::MAX),
        SubRegions {
            left: region(0, 0, edge, u32::MAX),
            top: region(0, 0, u32::MAX, edge),
            right: region(edge, 0, u32::MAX - edge, u32::MAX),
            bottom: region(0, edge, u32::MAX, u32::MAX - edge),
        }
    );
}

#[test]
fn a_whole_image_starts_at_its_origin() {
    let pixels = vec![0u8; 12];
    let image = BinaryBitmap::new(&pixels, 4, 3);
    assert_eq!((image.get_left(), image.get_top()), (0, 0));
    assert_eq!((image.get_width(), image.get_height()), (4, 3));
    assert_eq!(image.get_source().len(), 12);
}

#[test]
fn a_crop_knows_its_place_in_the_image() {
    let pixels = vec![0u8; 10000];
    let image = BinaryBitmap::new(&pixels, 100, 100);
    let part = image.crop(10, 20, 50, 60);
    assert_eq!((part.get_left(), part.get_top()), (10, 20));
    assert_eq!((part.get_width(), part.get_height()), (50, 60));
    let inner = part.crop(5, 6, 45, 54);
    assert_eq!((inner.get_left(), inner.get_top()), (15, 26));
    assert_eq!((inner.get_width(), inner.get_height()), (45, 54));
    assert!(std::ptr::eq(inner.get_source(), &pixels));
    assert_eq!((image.get_width(), image.get_height()), (100, 100));
}

#[test]
fn a_crop_may_be_empty_or_the_whole() {
    let image = BinaryBitmap::new(&(), u32::MAX, u32::MAX);
    let whole = image.crop(0, 0, u32::MAX, u32::MAX);
    assert_eq!((whole.get_width(), whole.get_height()), (u32::MAX, u32::MAX));
    let nothing = image.crop(u32::MAX, u32::MAX, 0, 0);
    assert_eq!((nothing.get_left(), nothing.get_top()), (u32::MAX, u32::MAX));
    assert_eq!((nothing.get_width(), nothing.get_height()), (0, 0));
}
