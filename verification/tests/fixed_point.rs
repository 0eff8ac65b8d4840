use snake_cube::fixed::{isqrt, mul_ratio, SCALE};
use snake_cube::vector::Vec3;

fn norm_sq(v: Vec3) -> i128 {
    let (x, y, z) = (v.x as i128, v.y as i128, v.z as i128);
    x * x + y * y + z * z
}

fn is_unit(v: Vec3) -> bool {
    let s = SCALE as i128;
    (s - 2) * (s - 2) <= norm_sq(v) && norm_sq(v) <= s * s
}

#[test]
fn isqrt_of_squares_and_their_neighbours() {
    assert_eq!(isqrt(0), 0);
    assert_eq!(isqrt(1), 1);
    assert_eq!(isqrt(2), 1);
    assert_eq!(isqrt(3), 1);
    assert_eq!(isqrt(4), 2);
    assert_eq!(isqrt(999_999_999_999), 999_999);
    assert_eq!(isqrt(1_000_000_000_000), 1_000_000);
    assert_eq!(isqrt(1_000_000_000_001), 1_000_000);
    assert_eq!(isqrt(u64::MAX), 4_294_967_295);
}

#[test]
fn mul_ratio_rounds_toward_zero() {
    assert_eq!(mul_ratio(7, 1, 2), 3);
    assert_eq!(mul_ratio(-7, 1, 2), -3);
    assert_eq!(mul_ratio(10, 3, 3), 10);
    assert_eq!(mul_ratio(5, 0, 9), 0);
    assert_eq!(mul_ratio(-1_000_000, 333_333, 1_000_000), -333_333);
    assert_eq!(mul_ratio(200_000, 950_000, 1_000_000), 190_000);
}

#[test]
fn mul_ratio_handles_the_extremes() {
    assert_eq!(mul_ratio(i64::MIN, 1, 1), i64::MIN);
    assert_eq!(mul_ratio(i64::MAX, u64::MAX, u64::MAX), i64::MAX);
    assert_eq!(mul_ratio(1_000_000, 3_000_000, 1_000_000), 3_000_000);
}

#[test]
fn lerp_quarter_of_the_way() {
    let a = Vec3::new(0, 0, 4_500_000);
    let b = Vec3::new(0, 4_500_000, 0);
    assert_eq!(a.lerp(b, 250_000), Vec3::new(0, 1_125_000, 3_375_000));
}

#[test]
fn lerp_ends_are_exact() {
    let a = Vec3::new(-17, 123_456_789, 5);
    let b = Vec3::new(1_000_003, -77, 5);
    assert_eq!(a.lerp(b, 0), a);
    assert_eq!(a.lerp(b, 1_000_000), b);
}

#[test]
fn lerp_rounds_each_step_toward_the_start() {
    let a = Vec3::new(0, 0, 0);
    let b = Vec3::new(-3, 3, -7);
    assert_eq!(a.lerp(b, 500_000), Vec3::new(-1, 1, -3));
}

#[test]
fn normalize_three_four_five() {
    assert_eq!(Vec3::new(3, 4, 0).normalize(), Vec3::new(600_000, 800_000, 0));
    assert_eq!(Vec3::new(-300, 0, 400).normalize(), Vec3::new(-600_000, 0, 800_000));
}

#[test]
fn normalize_rounds_components_toward_zero() {
    assert_eq!(Vec3::new(1, 1, 1).normalize(), Vec3::new(577_350, 577_350, 577_350));
    assert_eq!(Vec3::new(-1, 2, -2).normalize(), Vec3::new(-333_333, 666_666, -666_666));
    assert_eq!(Vec3::new(1000, 1, 1).normalize(), Vec3::new(999_999, 999, 999));
}

#[test]
fn normalize_accepts_the_largest_components() {
    let v = Vec3::new(2_000_000_000, -2_000_000_000, 2_000_000_000).normalize();
    assert_eq!(v, Vec3::new(577_350, -577_350, 577_350));
    assert_eq!(Vec3::new(0, 0, -1).normalize(), Vec3::new(0, 0, -1_000_000));
}

#[test]
fn normalize_gives_unit_length_up_to_rounding() {
    let mut x: i64 = -30;
    while x <= 30 {
        let mut y: i64 = -30;
        while y <= 30 {
            let mut z: i64 = -30;
            while z <= 30 {
                if x != 0 || y != 0 || z != 0 {
                    let v = Vec3::new(x * 7919, y * 104_729, z * 13).normalize();
                    assert!(is_unit(v), "{:?}", v);
                }
                z += 3;
            }
            y += 3;
        }
        x += 3;
    }
}

#[test]
fn normalize_leaves_a_vector_of_length_exactly_one() {
    let v = Vec3::new(600_000, -800_000, 0);
    assert_eq!(v.normalize(), v);
    let w = Vec3::new(0, 1_000_000, 0);
    assert_eq!(w.normalize(), w);
}

#[test]
fn normalize_can_move_a_vector_that_is_only_nearly_unit() {
    let once = Vec3::new(334, -223, 615).normalize();
    assert_eq!(once, Vec3::new(454_722, -303_602, 837_288));
    assert_eq!(once.normalize(), Vec3::new(454_722, -303_602, 837_289));
    assert!(is_unit(once.normalize()));
}

#[test]
fn is_zero_only_for_the_origin() {
    assert!(Vec3::new(0, 0, 0).is_zero());
    assert!(!Vec3::new(0, 0, 1).is_zero());
    assert!(!Vec3::new(-1, 0, 0).is_zero());
}

#[test]
fn plus_scaled_is_start_plus_velocity_times_age() {
    let start = Vec3::new(0, 0, 1_050_000);
    let velocity = Vec3::new(600_000, -800_000, 0);
    assert_eq!(start.plus_scaled(velocity, 250_000, 1_000_000), Vec3::new(150_000, -200_000, 1_050_000));
    assert_eq!(start.plus_scaled(velocity, 2_500_000, 1_000_000), Vec3::new(1_500_000, -2_000_000, 1_050_000));
    assert_eq!(start.plus_scaled(Vec3::new(-333_333, 333_333, 0), 1, 1_000_000), start);
}
