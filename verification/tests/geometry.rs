use pong::geometry::{Point, Rect, POSITION_MAX, POSITION_MIN, SIZE_MAX};

#[test]
fn point_new_clamps_to_position_range() {
    let p = Point::new(i32::MAX, i32::MIN);
    assert_eq!(p.x(), POSITION_MAX);
    assert_eq!(p.y(), POSITION_MIN);
    let q = Point::new(-7, 12);
    assert_eq!((q.x(), q.y()), (-7, 12));
}

#[test]
fn point_offset_adds_and_clamps() {
    let p = Point::new(3, 4).offset(-5, 10);
    assert_eq!((p.x(), p.y()), (-2, 14));
    let edge = Point::new(POSITION_MAX, POSITION_MIN).offset(5, -5);
    assert_eq!((edge.x(), edge.y()), (POSITION_MAX, POSITION_MIN));
    let far = Point::new(0, 0).offset(i32::MAX, i32::MIN);
    assert_eq!((far.x(), far.y()), (POSITION_MAX, POSITION_MIN));
}

#[test]
fn point_plus_shifts_by_other() {
    let p = Point::new(-300, 20).plus(&Point::new(400, 300));
    assert_eq!((p.x(), p.y()), (100, 320));
}

#[test]
fn point_set_y_keeps_x() {
    let mut p = Point::new(-300, 20);
    p.set_y(0);
    assert_eq!((p.x(), p.y()), (-300, 0));
}

#[test]
fn rect_from_center_puts_corner_half_a_side_back() {
    let r = Rect::from_center(&Point::new(100, 50), 15, 80);
    assert_eq!((r.x(), r.y(), r.width(), r.height()), (93, 10, 15, 80));
}

#[test]
fn rect_from_center_clamps_sides() {
    let r = Rect::from_center(&Point::new(10, 10), 0, u32::MAX);
    assert_eq!(r.width(), 1);
    assert_eq!(r.height(), SIZE_MAX);
    assert_eq!(r.x(), 10);
    assert_eq!(r.y(), 10 - (SIZE_MAX / 2) as i32);
    let low = Rect::from_center(&Point::new(POSITION_MIN, 0), 20, 20);
    assert_eq!(low.x(), POSITION_MIN);
}

#[test]
fn rect_contains_point_excludes_right_and_bottom_edges() {
    let r = Rect::from_center(&Point::new(100, 50), 15, 80);
    assert!(r.contains_point(&Point::new(93, 10)));
    assert!(r.contains_point(&Point::new(107, 89)));
    assert!(!r.contains_point(&Point::new(108, 10)));
    assert!(!r.contains_point(&Point::new(107, 90)));
    assert!(!r.contains_point(&Point::new(92, 50)));
    assert!(!r.contains_point(&Point::new(100, 9)));
}
