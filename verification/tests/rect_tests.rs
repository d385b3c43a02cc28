use arena_sim::rect::Rect;

#[test]
fn new_keeps_corner_and_size() {
    let r = Rect::new(-3, 7, 10, 20);
    assert_eq!(r.x, -3);
    assert_eq!(r.y, 7);
    assert_eq!(r.width, 10);
    assert_eq!(r.height, 20);
}

#[test]
fn overlapping_rectangles_intersect() {
    let a = Rect::new(0, 0, 5, 5);
    let b = Rect::new(2, 2, 5, 5);
    assert!(a.has_intersection(&b));
    assert_eq!(a.intersection(&b), Some(Rect::new(2, 2, 3, 3)));
}

#[test]
fn a_rectangle_intersects_itself() {
    let a = Rect::new(4, -4, 5, 6);
    assert!(a.has_intersection(&a));
    assert_eq!(a.intersection(&a), Some(a));
}

#[test]
fn rectangles_sharing_an_edge_do_not_intersect() {
    let a = Rect::new(0, 0, 5, 5);
    let right = Rect::new(5, 0, 5, 5);
    let below = Rect::new(0, 5, 5, 5);
    assert!(!a.has_intersection(&right));
    assert_eq!(a.intersection(&right), None);
    assert!(!a.has_intersection(&below));
    assert_eq!(a.intersection(&below), None);
}

#[test]
fn rectangles_sharing_one_cell_intersect() {
    let a = Rect::new(0, 0, 5, 5);
    let b = Rect::new(4, 4, 5, 5);
    assert_eq!(a.intersection(&b), Some(Rect::new(4, 4, 1, 1)));
}

#[test]
fn overlap_on_one_axis_only_is_no_intersection() {
    let a = Rect::new(0, 0, 10, 10);
    let b = Rect::new(3, 20, 4, 4);
    assert!(!a.has_intersection(&b));
    assert_eq!(a.intersection(&b), None);
}

#[test]
fn contained_rectangle_is_the_intersection() {
    let outer = Rect::new(-10, -10, 100, 100);
    let inner = Rect::new(5, 6, 7, 8);
    assert_eq!(outer.intersection(&inner), Some(inner));
    assert_eq!(inner.intersection(&outer), Some(inner));
}

#[test]
fn intersection_is_symmetric() {
    let a = Rect::new(-5, -5, 10, 8);
    let b = Rect::new(0, -8, 20, 6);
    assert_eq!(a.intersection(&b), b.intersection(&a));
    assert_eq!(a.intersection(&b), Some(Rect::new(0, -5, 5, 3)));
}

#[test]
fn empty_rectangle_intersects_nothing() {
    let empty = Rect::new(2, 2, 0, 5);
    let a = Rect::new(0, 0, 10, 10);
    assert!(!a.has_intersection(&empty));
    assert_eq!(empty.intersection(&a), None);
    assert_eq!(empty.intersection(&empty), None);
}

#[test]
fn extreme_coordinates_do_not_overflow() {
    let a = Rect::new(i32::MAX, i32::MAX, u32::MAX, u32::MAX);
    let b = Rect::new(i32::MIN, i32::MIN, u32::MAX, u32::MAX);
    assert!(!a.has_intersection(&b));
    let c = Rect::new(i32::MIN, i32::MIN, u32::MAX, u32::MAX);
    assert_eq!(b.intersection(&c), Some(b));
    let d = Rect::new(i32::MAX - 1, 0, u32::MAX, 1);
    let e = Rect::new(0, 0, u32::MAX, 1);
    assert_eq!(d.intersection(&e), Some(Rect::new(i32::MAX - 1, 0, u32::MAX - (i32::MAX as u32 - 1), 1)));
}
