use geogrid::base::Vec3;
use geogrid::geom::{Area, BoundingBox, BoxCollider, Cube};

fn cube(min: i64, max: i64) -> BoundingBox<i64> {
    BoundingBox::new(Vec3::broadcast(min), Vec3::broadcast(max))
}

#[test]
fn containment_and_intersection() {
    let a = cube(0, 10);
    let b = cube(2, 5);
    let c = cube(20, 30);
    assert!(a.contains(&b));
    assert!(!a.intersects(&c));
    assert!(a.contains_point(Vec3::new(5, 5, 5)));
    assert!(!a.contains_point(Vec3::new(11, 0, 0)));
}

#[test]
fn containment_is_one_way() {
    let a = cube(0, 10);
    let b = cube(2, 5);
    assert!(!b.contains(&a));
    assert!(a.contains(&a));
    assert!(a.intersects(&b));
    assert!(b.intersects(&a));
}

#[test]
fn touching_boxes_intersect() {
    let a = cube(0, 10);
    assert!(a.intersects(&cube(10, 20)));
    assert!(!a.intersects(&cube(11, 20)));
    assert!(a.intersects(&cube(-5, 0)));
    let slab = BoundingBox::new(Vec3::new(0i64, 11, 0), Vec3::new(10, 12, 10));
    assert!(!a.intersects(&slab));
}

#[test]
fn borders_belong_to_the_box() {
    let a = cube(0, 10);
    assert!(a.contains_point(Vec3::new(0, 0, 0)));
    assert!(a.contains_point(Vec3::new(10, 10, 10)));
    assert!(!a.contains_point(Vec3::new(0, 0, -1)));
    assert!(!a.contains_point(Vec3::new(0, 11, 0)));
}

#[test]
fn extents_are_differences() {
    let b = BoundingBox::new(Vec3::new(-1i32, 2, 3), Vec3::new(4, 4, 13));
    assert_eq!(b.width(), 5);
    assert_eq!(b.height(), 2);
    assert_eq!(b.depth(), 10);
    assert_eq!(b.area(), 100);
    let min = b.min();
    let max = b.max();
    assert_eq!((min.x, min.y, min.z), (-1, 2, 3));
    assert_eq!((max.x, max.y, max.z), (4, 4, 13));
}

#[test]
fn extents_of_swapped_corners_are_negative() {
    let b = BoundingBox::new(Vec3::new(4i32, 4, 13), Vec3::new(-1, 2, 3));
    assert_eq!(b.width(), -5);
    assert_eq!(b.height(), -2);
    assert_eq!(b.depth(), -10);
}

#[test]
fn box_lerp_is_bounded() {
    let b = BoundingBox::new(Vec3::new(-1i32, 2, 3), Vec3::new(4, 4, 13));
    assert_eq!(b.lerp_x(0), -1);
    assert_eq!(b.lerp_x(1), 4);
    assert_eq!(b.lerp_x(9), 4);
    assert_eq!(b.lerp_y(-3), 2);
    assert_eq!(b.lerp_y(1), 4);
    assert_eq!(b.lerp_z(2), 13);
}

#[test]
fn box_inverse_lerp_divides_by_the_extent() {
    let b = BoundingBox::new(Vec3::new(0i32, 0, 0), Vec3::new(2, 4, 8));
    let r = b.inverse_lerp(Vec3::new(4, 4, 4));
    assert_eq!((r.x, r.y, r.z), (2, 1, 0));
}
