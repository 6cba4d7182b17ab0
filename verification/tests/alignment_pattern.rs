use rxing_multi::alignment_pattern::AlignmentPattern;
use rxing_multi::point::UNITS_PER_PIXEL;

const U: i32 = UNITS_PER_PIXEL;

#[test]
fn new_keeps_centre_and_module_size() {
    let p = AlignmentPattern::new(3, -4, 5);
    assert_eq!((p.getX(), p.getY(), p.getEstimatedModuleSize()), (3, -4, 5));
}

#[test]
fn a_pattern_about_equals_itself() {
    for (x, y, size) in [(0, 0, 0), (10 * U, 20 * U, 3 * U), (-5, 7, 1), (i32::MAX, i32::MIN, i32::MAX)] {
        let p = AlignmentPattern::new(x, y, size);
        assert!(p.aboutEquals(size, y, x));
    }
}

#[test]
fn a_pattern_of_negative_module_size_does_not_about_equal_itself() {
    let p = AlignmentPattern::new(0, 0, -1);
    assert!(!p.aboutEquals(-1, 0, 0));
}

#[test]
fn about_equals_is_inclusive_at_the_module_size() {
    let size = 3 * U;
    let p = AlignmentPattern::new(100 * U, 200 * U, size);
    assert!(p.aboutEquals(size, 200 * U + size, 100 * U));
    assert!(p.aboutEquals(size, 200 * U - size, 100 * U));
    assert!(p.aboutEquals(size, 200 * U, 100 * U + size));
    assert!(p.aboutEquals(size, 200 * U, 100 * U - size));
    assert!(p.aboutEquals(size, 200 * U + size, 100 * U - size));
}

#[test]
fn about_equals_rejects_a_centre_beyond_the_module_size() {
    let size = 3 * U;
    let p = AlignmentPattern::new(100 * U, 200 * U, size);
    assert!(!p.aboutEquals(size, 200 * U + size + 1, 100 * U));
    assert!(!p.aboutEquals(size, 200 * U - size - 1, 100 * U));
    assert!(!p.aboutEquals(size, 200 * U, 100 * U + size + 1));
    assert!(!p.aboutEquals(size, 200 * U, 100 * U - size - 1));
}

#[test]
fn about_equals_takes_row_before_column() {
    let p = AlignmentPattern::new(100 * U, 200 * U, U);
    assert!(p.aboutEquals(U, 200 * U, 100 * U));
    assert!(!p.aboutEquals(U, 100 * U, 200 * U));
}

#[test]
fn about_equals_accepts_a_size_within_one_pixel() {
    let p = AlignmentPattern::new(0, 0, U / 2);
    assert!(p.aboutEquals(U / 2 + U, 0, 0));
    assert!(!p.aboutEquals(U / 2 + U + 1, 0, 0));
}

#[test]
fn about_equals_accepts_a_size_within_the_estimated_size() {
    let p = AlignmentPattern::new(0, 0, 10 * U);
    assert!(p.aboutEquals(20 * U, 0, 0));
    assert!(!p.aboutEquals(20 * U + 1, 0, 0));
    assert!(p.aboutEquals(0, 0, 0));
    assert!(p.aboutEquals(5 * U, 5 * U, -5 * U));
}

#[test]
fn about_equals_at_the_ends_of_the_grid() {
    let p = AlignmentPattern::new(i32::MIN, i32::MIN, i32::MAX);
    assert!(!p.aboutEquals(i32::MAX, i32::MAX, i32::MAX));
    assert!(p.aboutEquals(i32::MAX, -1, -1));
    assert!(!p.aboutEquals(i32::MAX, 0, -1));
}

#[test]
fn combine_estimate_averages_centre_and_module_size() {
    let p = AlignmentPattern::new(0, 0, 10);
    let combined = p.combineEstimate(10, 10, 20);
    assert_eq!((combined.getX(), combined.getY()), (5, 5));
    assert_eq!(combined.getEstimatedModuleSize(), 15);
    assert_eq!((p.getX(), p.getY(), p.getEstimatedModuleSize()), (0, 0, 10));
}

#[test]
fn combine_estimate_in_pixels() {
    let p = AlignmentPattern::new(0, 0, 10 * U);
    let combined = p.combineEstimate(10 * U, 10 * U, 20 * U);
    assert_eq!((combined.getX(), combined.getY()), (5 * U, 5 * U));
    assert_eq!(combined.getEstimatedModuleSize(), 15 * U);
}

#[test]
fn combine_estimate_takes_row_before_column() {
    let combined = AlignmentPattern::new(0, 100, 2).combineEstimate(300, 20, 4);
    assert_eq!((combined.getX(), combined.getY()), (10, 200));
    assert_eq!(combined.getEstimatedModuleSize(), 3);
}

#[test]
fn combine_estimate_rounds_down() {
    let combined = AlignmentPattern::new(0, 0, 1).combineEstimate(1, -1, 2);
    assert_eq!((combined.getX(), combined.getY()), (-1, 0));
    assert_eq!(combined.getEstimatedModuleSize(), 1);
    let combined = AlignmentPattern::new(-3, -4, 0).combineEstimate(-1, -2, -5);
    assert_eq!((combined.getX(), combined.getY()), (-3, -3));
    assert_eq!(combined.getEstimatedModuleSize(), -3);
}

#[test]
fn combine_estimate_at_the_ends_of_the_grid() {
    let combined = AlignmentPattern::new(i32::MAX, i32::MIN, i32::MAX).combineEstimate(
        i32::MIN,
        i32::MAX,
        i32::MAX,
    );
    assert_eq!((combined.getX(), combined.getY()), (i32::MAX, i32::MIN));
    assert_eq!(combined.getEstimatedModuleSize(), i32::MAX);
    let combined = AlignmentPattern::new(i32::MIN, i32::MIN, 0).combineEstimate(i32::MAX, i32::MAX, 0);
    assert_eq!((combined.getX(), combined.getY()), (-1, -1));
}
