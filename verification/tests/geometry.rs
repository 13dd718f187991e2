use freegram::geometry::{
    contains, difference, distance, isqrt, near_edge, scaled_extent, scaled_size, viewport_center,
    Vec2, EDGE_THRESHOLD, MAX_SIZE, MIN_SIZE,
};

fn v(x: i32, y: i32) -> Vec2 {
    Vec2 { x, y }
}

#[test]
fn contains_center_and_interior() {
    assert!(contains(v(0, 0), v(0, 0), v(100, 100)));
    assert!(contains(v(40, 40), v(0, 0), v(100, 100)));
    assert!(contains(v(-49, 13), v(0, 0), v(100, 100)));
}

#[test]
fn contains_includes_every_edge() {
    let center = v(10, -20);
    let size = v(100, 60);
    assert!(contains(v(60, -20), center, size));
    assert!(contains(v(-40, -20), center, size));
    assert!(contains(v(10, 10), center, size));
    assert!(contains(v(10, -50), center, size));
    assert!(contains(v(60, 10), center, size));
    assert!(contains(v(-40, -50), center, size));
}

#[test]
fn contains_excludes_one_unit_beyond_each_edge() {
    let center = v(10, -20);
    let size = v(100, 60);
    assert!(!contains(v(61, -20), center, size));
    assert!(!contains(v(-41, -20), center, size));
    assert!(!contains(v(10, 11), center, size));
    assert!(!contains(v(10, -51), center, size));
}

#[test]
fn contains_does_not_round_odd_sizes() {
    // Half-extent 2.5: 2 is inside, 3 is not.
    assert!(contains(v(2, 0), v(0, 0), v(5, 5)));
    assert!(contains(v(-2, 2), v(0, 0), v(5, 5)));
    assert!(!contains(v(3, 0), v(0, 0), v(5, 5)));
    assert!(!contains(v(0, -3), v(0, 0), v(5, 5)));
}

#[test]
fn contains_degenerate_boxes() {
    assert!(contains(v(7, 7), v(7, 7), v(0, 0)));
    assert!(!contains(v(8, 7), v(7, 7), v(0, 0)));
    assert!(!contains(v(7, 7), v(7, 7), v(-2, 10)));
    assert!(!contains(v(7, 7), v(7, 7), v(10, -1)));
}

#[test]
fn contains_at_the_ends_of_the_coordinate_range() {
    assert!(contains(v(i32::MAX, i32::MIN), v(i32::MAX, i32::MIN), v(1, 1)));
    assert!(contains(v(i32::MIN, 0), v(i32::MAX, 0), v(i32::MAX, i32::MAX)) == false);
    assert!(contains(v(i32::MAX, i32::MAX), v(i32::MAX - 10, i32::MAX - 10), v(20, 20)));
    assert!(!contains(v(i32::MAX, i32::MAX), v(i32::MAX - 11, i32::MAX), v(20, 20)));
}

#[test]
fn near_edge_band_on_both_sides_of_an_edge() {
    let center = v(0, 0);
    let size = v(100, 100);
    assert!(near_edge(v(65, 0), center, size, EDGE_THRESHOLD));
    assert!(near_edge(v(50, 0), center, size, EDGE_THRESHOLD));
    assert!(near_edge(v(35, 0), center, size, EDGE_THRESHOLD));
    assert!(!near_edge(v(66, 0), center, size, EDGE_THRESHOLD));
    assert!(!near_edge(v(34, 0), center, size, EDGE_THRESHOLD));
    assert!(near_edge(v(-65, 0), center, size, EDGE_THRESHOLD));
    assert!(!near_edge(v(-66, 0), center, size, EDGE_THRESHOLD));
    assert!(near_edge(v(0, 65), center, size, EDGE_THRESHOLD));
    assert!(near_edge(v(0, -35), center, size, EDGE_THRESHOLD));
    assert!(!near_edge(v(0, 0), center, size, EDGE_THRESHOLD));
}

#[test]
fn near_edge_bands_run_across_the_whole_other_axis() {
    let center = v(0, 0);
    let size = v(100, 100);
    // Far to the right of the box, yet level with its top edge.
    assert!(near_edge(v(100_000, 50), center, size, EDGE_THRESHOLD));
    assert!(near_edge(v(-45, -7_000), center, size, EDGE_THRESHOLD));
    assert!(!near_edge(v(100_000, 0), center, size, EDGE_THRESHOLD));
}

#[test]
fn near_edge_other_thresholds() {
    let center = v(0, 0);
    let size = v(100, 100);
    assert!(near_edge(v(50, 0), center, size, 0));
    assert!(!near_edge(v(51, 0), center, size, 0));
    assert!(!near_edge(v(50, 0), center, size, -1));
    assert!(near_edge(v(0, 0), center, size, 50));
    assert!(!near_edge(v(i32::MAX, i32::MAX), v(i32::MIN, i32::MIN), v(i32::MAX, i32::MAX), i32::MAX));
    assert!(near_edge(v(i32::MAX, i32::MAX), v(i32::MAX, i32::MAX), v(i32::MAX, i32::MAX), i32::MAX));
}

#[test]
fn isqrt_rounds_down() {
    assert_eq!(isqrt(0), 0);
    assert_eq!(isqrt(1), 1);
    assert_eq!(isqrt(2), 1);
    assert_eq!(isqrt(3), 1);
    assert_eq!(isqrt(4), 2);
    assert_eq!(isqrt(24), 4);
    assert_eq!(isqrt(25), 5);
    assert_eq!(isqrt(4225), 65);
    assert_eq!(isqrt(u128::MAX), u64::MAX);
    assert_eq!(isqrt((u64::MAX as u128) * (u64::MAX as u128)), u64::MAX);
    assert_eq!(isqrt((u64::MAX as u128) * (u64::MAX as u128) - 1), u64::MAX - 1);
}

#[test]
fn distance_exact_values() {
    assert_eq!(distance(v(65, 0), v(0, 0)), 65);
    assert_eq!(distance(v(0, 0), v(65, 0)), 65);
    assert_eq!(distance(v(3, 4), v(0, 0)), 5);
    assert_eq!(distance(v(-3, -4), v(3, 4)), 10);
    assert_eq!(distance(v(9, 9), v(9, 9)), 0);
}

#[test]
fn distance_rounds_down() {
    assert_eq!(distance(v(1, 1), v(0, 0)), 1);
    assert_eq!(distance(v(65, 20), v(0, 0)), 68);
    assert_eq!(distance(v(80, 20), v(0, 0)), 82);
}

#[test]
fn distance_across_the_whole_world() {
    assert_eq!(distance(v(i32::MIN, i32::MIN), v(i32::MAX, i32::MAX)), 6_074_000_998);
    assert_eq!(distance(v(i32::MIN, 0), v(i32::MAX, 0)), 4_294_967_295);
}

#[test]
fn difference_is_exact_in_range() {
    assert_eq!(difference(v(40, 40), v(0, 0)), v(40, 40));
    assert_eq!(difference(v(60, 60), v(40, 40)), v(20, 20));
    assert_eq!(difference(v(-5, 7), v(10, -3)), v(-15, 10));
}

#[test]
fn difference_holds_at_the_bounds() {
    assert_eq!(difference(v(i32::MAX, i32::MIN), v(-1, 1)), v(i32::MAX, i32::MIN));
    assert_eq!(difference(v(i32::MAX, i32::MIN), v(i32::MIN, i32::MAX)), v(i32::MAX, i32::MIN));
    assert_eq!(difference(v(0, 0), v(i32::MIN, i32::MIN)), v(i32::MAX, i32::MAX));
    assert_eq!(difference(v(-1, -1), v(i32::MAX, i32::MAX)), v(i32::MIN, i32::MIN));
}

#[test]
fn scaled_extent_doubles_within_bounds() {
    assert_eq!(scaled_extent(100, 50, 100), 200);
}

#[test]
fn scaled_extent_clamps_to_the_maximum() {
    assert_eq!(scaled_extent(100, 50, 2000), MAX_SIZE);
    assert_eq!(scaled_extent(100, 50, 500), 1000);
    assert_eq!(scaled_extent(100, 50, 501), 1000);
    assert_eq!(scaled_extent(i32::MAX, 1, u64::MAX), 1000);
}

#[test]
fn scaled_extent_clamps_to_the_minimum() {
    assert_eq!(scaled_extent(100, 50, 10), MIN_SIZE);
    assert_eq!(scaled_extent(100, 50, 25), 50);
    assert_eq!(scaled_extent(100, 50, 0), 50);
    assert_eq!(scaled_extent(0, 50, 100), 50);
    assert_eq!(scaled_extent(-100, 50, 100), 50);
    assert_eq!(scaled_extent(i32::MIN, 1, u64::MAX), 50);
}

#[test]
fn scaled_extent_rounds_down() {
    assert_eq!(scaled_extent(100, 65, 70), 107);
    assert_eq!(scaled_extent(100, 3, 2), 66);
    assert_eq!(scaled_extent(150, 7, 9), 192);
}

#[test]
fn scaled_extent_from_the_center_divides_by_one() {
    assert_eq!(scaled_extent(20, 0, 3), 60);
    assert_eq!(scaled_extent(20, 0, 0), 50);
    assert_eq!(scaled_extent(20, 0, 1000), 1000);
    assert_eq!(scaled_extent(20, 1, 3), 60);
}

#[test]
fn scaled_size_clamps_each_axis_on_its_own() {
    assert_eq!(scaled_size(v(100, 100), 50, 100), v(200, 200));
    assert_eq!(scaled_size(v(100, 100), 50, 2000), v(1000, 1000));
    assert_eq!(scaled_size(v(40, 600), 10, 20), v(80, 1000));
    assert_eq!(scaled_size(v(40, 600), 20, 10), v(50, 300));
}

#[test]
fn viewport_center_halves_each_axis() {
    assert_eq!(viewport_center(800, 600), v(400, 300));
    assert_eq!(viewport_center(801, 601), v(400, 300));
    assert_eq!(viewport_center(0, 1), v(0, 0));
    assert_eq!(viewport_center(u32::MAX, u32::MAX), v(i32::MAX, i32::MAX));
}
