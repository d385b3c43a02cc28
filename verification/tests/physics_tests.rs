use arena_sim::physics::{contact, mass_of, Axis, Contact};
use arena_sim::rect::Rect;

#[test]
fn disjoint_bodies_have_no_contact() {
    let a = Rect::new(0, 0, 10, 10);
    let b = Rect::new(10, 0, 10, 10);
    assert_eq!(contact(&a, &b), None);
}

#[test]
fn narrow_overlap_is_horizontal() {
    let a = Rect::new(0, 0, 10, 10);
    let b = Rect::new(8, 1, 10, 10);
    assert_eq!(contact(&a, &b), Some(Contact { axis: Axis::Horizontal, overlap: 2 }));
}

#[test]
fn flat_overlap_is_vertical() {
    let a = Rect::new(0, 0, 10, 10);
    let b = Rect::new(1, 7, 10, 10);
    assert_eq!(contact(&a, &b), Some(Contact { axis: Axis::Vertical, overlap: 3 }));
}

#[test]
fn square_overlap_resolves_as_vertical() {
    let a = Rect::new(0, 0, 10, 10);
    let b = Rect::new(6, 6, 10, 10);
    assert_eq!(contact(&a, &b), Some(Contact { axis: Axis::Vertical, overlap: 4 }));
}

#[test]
fn contact_does_not_depend_on_argument_order() {
    let a = Rect::new(-4, 3, 12, 9);
    let b = Rect::new(5, 0, 7, 30);
    assert_eq!(contact(&a, &b), contact(&b, &a));
    assert_eq!(contact(&a, &b), Some(Contact { axis: Axis::Horizontal, overlap: 3 }));
}

#[test]
fn contained_body_overlaps_by_its_own_side() {
    let outer = Rect::new(0, 0, 100, 100);
    let inner = Rect::new(10, 10, 4, 9);
    assert_eq!(contact(&outer, &inner), Some(Contact { axis: Axis::Horizontal, overlap: 4 }));
}

#[test]
fn mass_is_width_times_height() {
    assert_eq!(mass_of(3, 7), 21);
    assert_eq!(mass_of(1, 1), 1);
    assert_eq!(mass_of(50, 50), 2500);
}

#[test]
fn mass_of_a_degenerate_body_is_zero() {
    assert_eq!(mass_of(0, 7), 0);
    assert_eq!(mass_of(7, 0), 0);
    assert_eq!(mass_of(0, 0), 0);
}

#[test]
fn mass_does_not_wrap() {
    assert_eq!(mass_of(65536, 65536), 4294967296);
    assert_eq!(mass_of(u32::MAX, u32::MAX), 18446744065119617025);
}

#[test]
fn pushing_apart_by_the_overlap_separates_horizontally() {
    let left = Rect::new(0, 0, 10, 10);
    let right = Rect::new(8, 1, 10, 10);
    let found = contact(&left, &right).unwrap();
    assert_eq!(found, Contact { axis: Axis::Horizontal, overlap: 2 });
    let moved_left = Rect::new(left.x - 1, left.y, left.width, left.height);
    let moved_right = Rect::new(right.x + 1, right.y, right.width, right.height);
    assert!(!moved_left.has_intersection(&moved_right));
    assert_eq!(contact(&moved_left, &moved_right), None);
    let short_left = Rect::new(left.x, left.y, left.width, left.height);
    assert!(short_left.has_intersection(&moved_right));
}

#[test]
fn pushing_apart_by_the_overlap_separates_vertically() {
    let upper = Rect::new(0, 0, 10, 10);
    let lower = Rect::new(1, 7, 10, 10);
    let found = contact(&upper, &lower).unwrap();
    assert_eq!(found, Contact { axis: Axis::Vertical, overlap: 3 });
    let moved_upper = Rect::new(upper.x, upper.y - 3, upper.width, upper.height);
    assert!(!moved_upper.has_intersection(&lower));
    let moved_lower = Rect::new(lower.x, lower.y + 3, lower.width, lower.height);
    assert!(!upper.has_intersection(&moved_lower));
}

#[test]
fn enclosed_body_is_not_separated_by_its_overlap() {
    let outer = Rect::new(0, 0, 100, 100);
    let inner = Rect::new(10, 10, 4, 9);
    let found = contact(&outer, &inner).unwrap();
    assert_eq!(found.overlap, 4);
    let moved_outer = Rect::new(outer.x - 2, outer.y, outer.width, outer.height);
    let moved_inner = Rect::new(inner.x + 2, inner.y, inner.width, inner.height);
    assert!(moved_outer.has_intersection(&moved_inner));
}
