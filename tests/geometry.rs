use pong::{aabb_intersects, overlaps_x, overlaps_y, Aabb, Arena};

fn aabb(cx: i64, cy: i64, hw: i64, hh: i64) -> Aabb {
    Aabb { center_x: cx, center_y: cy, half_width: hw, half_height: hh }
}

#[test]
fn overlapping_boxes_intersect() {
    let a = aabb(0, 0, 10, 10);
    let b = aabb(15, 5, 10, 10);
    assert!(overlaps_x(&a, &b));
    assert!(overlaps_y(&a, &b));
    assert!(aabb_intersects(&a, &b));
}

#[test]
fn boxes_touching_at_an_edge_do_not_overlap() {
    let a = aabb(0, 0, 10, 10);
    let b = aabb(20, 0, 10, 10);
    assert!(!overlaps_x(&a, &b));
    assert!(overlaps_y(&a, &b));
    assert!(!aabb_intersects(&a, &b));
}

#[test]
fn separate_on_one_axis_is_no_intersection() {
    let a = aabb(0, 0, 10, 10);
    let b = aabb(5, 40, 10, 10);
    assert!(overlaps_x(&a, &b));
    assert!(!overlaps_y(&a, &b));
    assert!(!aabb_intersects(&a, &b));
}

#[test]
fn zero_extent_boxes() {
    let point = aabb(3, 3, 0, 0);
    let same_point = aabb(3, 3, 0, 0);
    assert!(!aabb_intersects(&point, &same_point));
    assert!(aabb_intersects(&point, &aabb(0, 0, 5, 5)));
    assert!(!aabb_intersects(&point, &aabb(0, 0, 3, 3)));
}

#[test]
fn extreme_coordinates_do_not_overflow() {
    let a = aabb(i64::MAX, i64::MIN, i64::MAX, i64::MAX);
    let b = aabb(i64::MIN, i64::MAX, 0, 0);
    assert!(!overlaps_x(&a, &b));
    assert!(!overlaps_y(&a, &b));
}

#[test]
fn arena_validity() {
    assert!(Arena { top: 200, bottom: -200, left: -500, right: 500 }.is_valid());
    assert!(!Arena { top: 0, bottom: 0, left: -500, right: 500 }.is_valid());
    assert!(!Arena { top: 200, bottom: -200, left: 5, right: 5 }.is_valid());
}
