use combat::components::{FiringRange, Vec2};

#[test]
fn distance_squared_exact_values() {
    let origin = Vec2 { x: 0, y: 0 };
    assert_eq!(origin.distance_squared_to(&origin), 0);
    assert_eq!(origin.distance_squared_to(&Vec2 { x: 3, y: 4 }), 25);
    assert_eq!(Vec2 { x: -3, y: 2 }.distance_squared_to(&Vec2 { x: 0, y: 6 }), 25);
    assert_eq!(Vec2 { x: 7, y: -1 }.distance_squared_to(&Vec2 { x: 7, y: 9 }), 100);
    assert_eq!(Vec2 { x: 1, y: 1 }.distance_squared_to(&Vec2 { x: -1, y: -1 }), 8);
}

#[test]
fn distance_squared_is_symmetric_at_the_extremes() {
    let low = Vec2 { x: i32::MIN, y: i32::MIN };
    let high = Vec2 { x: i32::MAX, y: i32::MAX };
    let side: u128 = u32::MAX as u128;
    assert_eq!(low.distance_squared_to(&high), 2 * side * side);
    assert_eq!(high.distance_squared_to(&low), 2 * side * side);
}

#[test]
fn reaches_includes_the_boundary() {
    let from = Vec2 { x: 0, y: 0 };
    let to = Vec2 { x: 3, y: 4 };
    assert!(FiringRange(5).reaches(&from, &to));
    assert!(FiringRange(6).reaches(&from, &to));
    assert!(!FiringRange(4).reaches(&from, &to));
    assert!(FiringRange(0).reaches(&from, &from));
    assert!(!FiringRange(0).reaches(&from, &Vec2 { x: 0, y: 1 }));
}

#[test]
fn reaches_handles_the_largest_range() {
    let low = Vec2 { x: i32::MIN, y: 0 };
    let high = Vec2 { x: i32::MAX, y: 0 };
    assert!(FiringRange(u32::MAX).reaches(&low, &high));
    assert!(!FiringRange(u32::MAX - 1).reaches(&low, &high));
    let corner = Vec2 { x: i32::MAX, y: 1 };
    assert!(!FiringRange(u32::MAX).reaches(&low, &corner));
}
