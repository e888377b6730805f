use freestyle_sculpt::{isqrt, Aabb, DistanceCalculator, Position, L2};

#[test]
fn isqrt_exact_and_rounded() {
    assert_eq!(isqrt(0), 0);
    assert_eq!(isqrt(1), 1);
    assert_eq!(isqrt(15), 3);
    assert_eq!(isqrt(16), 4);
    assert_eq!(isqrt(17), 4);
    assert_eq!(isqrt(400_000), 632);
    assert_eq!(isqrt(u128::MAX), u64::MAX);
}

#[test]
fn l2_is_squared_euclidean_distance() {
    let a = Position::new(1, 2, 3);
    let b = Position::new(4, 6, 3);
    assert_eq!(L2.distance_squared(a, b), 25);
    assert_eq!(L2.distance_squared(b, a), 25);
    assert_eq!(L2.distance_squared(a, a), 0);
}

#[test]
fn l2_at_the_extremes() {
    let a = Position::new(i32::MIN, i32::MIN, i32::MIN);
    let b = Position::new(i32::MAX, i32::MAX, i32::MAX);
    let d = (u32::MAX as u128) * (u32::MAX as u128);
    assert_eq!(L2.distance_squared(a, b), 3 * d);
}

#[test]
fn box_from_half_extents() {
    let b = Aabb::from_half_extents(Position::new(1, -2, 3), 5);
    assert_eq!(b, Aabb { min_x: -4, min_y: -7, min_z: -2, max_x: 6, max_y: 3, max_z: 8 });
    let c = Aabb::from_half_extents(Position::new(0, 0, 0), 0);
    assert_eq!(c, Aabb { min_x: 0, min_y: 0, min_z: 0, max_x: 0, max_y: 0, max_z: 0 });
}

#[test]
fn boxes_intersect_when_touching() {
    let a = Aabb::from_half_extents(Position::new(0, 0, 0), 5);
    let b = Aabb::from_half_extents(Position::new(10, 0, 0), 5);
    let c = Aabb::from_half_extents(Position::new(11, 0, 0), 5);
    assert!(a.intersects(&b));
    assert!(!a.intersects(&c));
    assert!(!c.intersects(&a));
}
