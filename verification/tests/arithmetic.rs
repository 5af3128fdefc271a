use boids::arith::{isqrt, quotient, saturate, scale, UNIT};
use boids::vector::{distance_squared, is_closer_than, norm_squared, Vec3};

#[test]
fn unit_is_one_thousand() {
    assert_eq!(UNIT, 1000);
}

#[test]
fn quotient_rounds_toward_zero() {
    assert_eq!(quotient(7, 2), 3);
    assert_eq!(quotient(-7, 2), -3);
    assert_eq!(quotient(-1, 1000), 0);
    assert_eq!(quotient(0, 5), 0);
    assert_eq!(quotient(-6, 3), -2);
}

#[test]
fn scale_multiplies_by_thousandths() {
    assert_eq!(scale(5000, 1000), 5000);
    assert_eq!(scale(5000, 50), 250);
    assert_eq!(scale(-3000, 10), -30);
    assert_eq!(scale(-1500, 500), -750);
    assert_eq!(scale(-1, 500), 0);
    assert_eq!(scale(1999, 1), 1);
    assert_eq!(scale(1234, 0), 0);
    assert_eq!(scale(200, -1500), -300);
}

#[test]
fn saturate_holds_to_the_coordinate_range() {
    assert_eq!(saturate(0), 0);
    assert_eq!(saturate(-17), -17);
    assert_eq!(saturate(i32::MAX as i128), i32::MAX);
    assert_eq!(saturate(i32::MAX as i128 + 1), i32::MAX);
    assert_eq!(saturate(i32::MIN as i128 - 1), i32::MIN);
    assert_eq!(saturate(1i128 << 100), i32::MAX);
}

#[test]
fn isqrt_is_the_integer_part_of_the_root() {
    assert_eq!(isqrt(0), 0);
    assert_eq!(isqrt(1), 1);
    assert_eq!(isqrt(3), 1);
    assert_eq!(isqrt(4), 2);
    assert_eq!(isqrt(24), 4);
    assert_eq!(isqrt(25), 5);
    assert_eq!(isqrt(300_000_000), 17320);
    assert_eq!(isqrt(u64::MAX), 4_294_967_295);
}

#[test]
fn distance_squared_of_a_three_four_twelve_box() {
    let a = Vec3::new(1, 2, 3);
    let b = Vec3::new(4, 6, 15);
    assert_eq!(distance_squared(a, b), 169);
    assert_eq!(distance_squared(b, a), 169);
    assert_eq!(distance_squared(a, a), 0);
}

#[test]
fn distance_squared_of_opposite_corners() {
    let a = Vec3::new(i32::MIN, i32::MIN, i32::MIN);
    let b = Vec3::new(i32::MAX, i32::MAX, i32::MAX);
    let side: i128 = (1i128 << 32) - 1;
    assert_eq!(distance_squared(a, b), 3 * side * side);
}

#[test]
fn norm_squared_of_a_vector() {
    assert_eq!(norm_squared(Vec3::new(3, -4, 12)), 169);
    assert_eq!(norm_squared(Vec3::zero()), 0);
    assert_eq!(norm_squared(Vec3::new(i32::MIN, i32::MIN, i32::MIN)), 3 * (1u64 << 62));
}

#[test]
fn closer_than_is_strict() {
    let a = Vec3::zero();
    let b = Vec3::new(3000, 4000, 0);
    assert!(is_closer_than(a, b, 5001));
    assert!(!is_closer_than(a, b, 5000));
    assert!(!is_closer_than(a, b, 4999));
}

#[test]
fn a_range_that_is_not_positive_holds_nothing() {
    let a = Vec3::new(7, 7, 7);
    assert!(!is_closer_than(a, a, 0));
    assert!(!is_closer_than(a, a, -5));
    assert!(is_closer_than(a, a, 1));
}
