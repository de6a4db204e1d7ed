use quatronaut::fixed::{narrow, ratio_of, sat_add, sat_div, sat_mul, sat_sub, SCALE};
use quatronaut::vector::{isqrt, unit_vector};

#[test]
fn one_is_a_million_units() {
    assert_eq!(SCALE, 1_000_000);
}

#[test]
fn sums_and_differences_saturate() {
    assert_eq!(sat_add(1_500_000, 2_250_000), 3_750_000);
    assert_eq!(sat_sub(1_500_000, 2_250_000), -750_000);
    assert_eq!(sat_add(i64::MAX, 1), i64::MAX);
    assert_eq!(sat_add(i64::MIN, -1), i64::MIN);
    assert_eq!(sat_sub(i64::MIN, 1), i64::MIN);
    assert_eq!(sat_sub(i64::MAX, -1), i64::MAX);
    assert_eq!(sat_sub(0, i64::MIN), i64::MAX);
}

#[test]
fn products_round_toward_zero() {
    assert_eq!(sat_mul(2_000_000, 600_000), 1_200_000);
    assert_eq!(sat_mul(1_333_333, 50_000), 66_666);
    assert_eq!(sat_mul(-1_333_333, 50_000), -66_666);
    assert_eq!(sat_mul(1_333_333, -50_000), -66_666);
    assert_eq!(sat_mul(-1_333_333, -50_000), 66_666);
    assert_eq!(sat_mul(1, 1), 0);
    assert_eq!(sat_mul(-1, 1), 0);
}

#[test]
fn products_saturate() {
    assert_eq!(sat_mul(i64::MAX, i64::MAX), i64::MAX);
    assert_eq!(sat_mul(i64::MAX, i64::MIN), i64::MIN);
    assert_eq!(sat_mul(i64::MIN, i64::MIN), i64::MAX);
    assert_eq!(sat_mul(i64::MAX, SCALE), i64::MAX);
    assert_eq!(sat_mul(i64::MIN, SCALE), i64::MIN);
    assert_eq!(sat_mul(i64::MIN, -SCALE), i64::MAX);
}

#[test]
fn quotients_round_toward_zero() {
    assert_eq!(sat_div(600_000, 2_000_000), 300_000);
    assert_eq!(sat_div(200_000, 150_000), 1_333_333);
    assert_eq!(sat_div(-200_000, 150_000), -1_333_333);
    assert_eq!(sat_div(200_000, -150_000), -1_333_333);
    assert_eq!(sat_div(-200_000, -150_000), 1_333_333);
    assert_eq!(sat_div(1, 3_000_000), 0);
    assert_eq!(sat_div(-1, 3_000_000), 0);
}

#[test]
fn division_by_zero_saturates() {
    assert_eq!(sat_div(5, 0), i64::MAX);
    assert_eq!(sat_div(-5, 0), i64::MIN);
    assert_eq!(sat_div(0, 0), 0);
    assert_eq!(sat_div(i64::MAX, 1), i64::MAX);
    assert_eq!(sat_div(i64::MIN, 1), i64::MIN);
    assert_eq!(sat_div(i64::MIN, -1), i64::MAX);
}

#[test]
fn narrow_clamps() {
    assert_eq!(narrow(12), 12);
    assert_eq!(narrow(i64::MAX as i128 + 1), i64::MAX);
    assert_eq!(narrow(i64::MIN as i128 - 1), i64::MIN);
}

#[test]
fn ratios_round_down() {
    assert_eq!(ratio_of(1, 4), 250_000);
    assert_eq!(ratio_of(2, 3), 666_666);
    assert_eq!(ratio_of(0, 7), 0);
    assert_eq!(ratio_of(7, 7), SCALE);
    assert_eq!(ratio_of(3, 0), 0);
    assert_eq!(ratio_of(usize::MAX, 1), i64::MAX);
}

#[test]
fn integer_square_roots() {
    assert_eq!(isqrt(0), 0);
    assert_eq!(isqrt(1), 1);
    assert_eq!(isqrt(3), 1);
    assert_eq!(isqrt(4), 2);
    assert_eq!(isqrt(24), 4);
    assert_eq!(isqrt(25), 5);
    assert_eq!(isqrt(1_000_000_000_000), 1_000_000);
    assert_eq!(isqrt(999_999_999_999), 999_999);
    assert_eq!(isqrt(u128::MAX), u64::MAX as u128);
}

#[test]
fn unit_vectors_of_a_right_triangle() {
    assert_eq!(unit_vector(3_000_000, 4_000_000), (600_000, 800_000));
    assert_eq!(unit_vector(-3, 4), (-600_000, 800_000));
    assert_eq!(unit_vector(3, -4), (600_000, -800_000));
    assert_eq!(unit_vector(-30_000_000_000, -40_000_000_000), (-600_000, -800_000));
}

#[test]
fn unit_vectors_along_the_axes() {
    assert_eq!(unit_vector(0, 0), (SCALE, 0));
    assert_eq!(unit_vector(7, 0), (SCALE, 0));
    assert_eq!(unit_vector(-7, 0), (-SCALE, 0));
    assert_eq!(unit_vector(0, 1), (0, SCALE));
    assert_eq!(unit_vector(0, i64::MIN), (0, -SCALE));
    assert_eq!(unit_vector(i64::MAX, 0), (SCALE, 0));
}

#[test]
fn unit_vectors_have_length_one() {
    let cases = [
        (1, 1),
        (1, -1),
        (5, 12),
        (123_456_789, -987_654_321),
        (i64::MAX, i64::MAX),
        (i64::MIN, i64::MAX),
        (1, i64::MAX),
        (2_147_483_647, 2_147_483_648),
        (-2_147_483_648, 1),
    ];
    for (dx, dy) in cases {
        let (ux, uy) = unit_vector(dx, dy);
        let square = (ux as i128) * (ux as i128) + (uy as i128) * (uy as i128);
        assert!(square > 999_998 * 999_998, "{} {}", dx, dy);
        assert!(square < 1_000_001 * 1_000_001, "{} {}", dx, dy);
        assert!(ux == 0 || ux.signum() == dx.signum());
        assert!(uy == 0 || uy.signum() == dy.signum());
    }
    assert_eq!(unit_vector(1, 1), (707_106, 707_106));
}
