use panorbit_camera_ext::fixed::{
    fx_abs, fx_add, fx_div, fx_half, fx_lerp, fx_max, fx_midpoint, fx_min, fx_mul, fx_neg, fx_sub,
    isqrt_u128, scaled_product, LIMIT, SCALE,
};
use panorbit_camera_ext::vec3::Vec3;

fn fx(v: f64) -> i64 {
    (v * 1_000_000.0).round() as i64
}

fn v3(x: f64, y: f64, z: f64) -> Vec3 {
    Vec3::new(fx(x), fx(y), fx(z))
}

#[test]
fn one_is_a_million() {
    assert_eq!(SCALE, 1_000_000);
    assert_eq!(LIMIT, i64::MAX);
    assert_eq!(fx(1.0), SCALE);
}

#[test]
fn sums_saturate() {
    assert_eq!(fx_add(fx(1.5), fx(2.25)), fx(3.75));
    assert_eq!(fx_add(LIMIT, 1), LIMIT);
    assert_eq!(fx_add(-LIMIT, -5), -LIMIT);
    assert_eq!(fx_add(i64::MIN, 0), -LIMIT);
    assert_eq!(fx_sub(fx(1.5), fx(2.25)), fx(-0.75));
    assert_eq!(fx_sub(-LIMIT, LIMIT), -LIMIT);
    assert_eq!(fx_sub(LIMIT, -LIMIT), LIMIT);
    assert_eq!(fx_neg(fx(2.0)), fx(-2.0));
    assert_eq!(fx_neg(i64::MIN), LIMIT);
    assert_eq!(fx_abs(fx(-2.0)), fx(2.0));
    assert_eq!(fx_abs(fx(2.0)), fx(2.0));
    assert_eq!(fx_abs(i64::MIN), LIMIT);
}

#[test]
fn products_round_toward_zero() {
    assert_eq!(fx_mul(fx(2.0), fx(3.0)), fx(6.0));
    assert_eq!(fx_mul(fx(-2.0), fx(3.0)), fx(-6.0));
    assert_eq!(fx_mul(fx(0.5), fx(0.5)), fx(0.25));
    assert_eq!(fx_mul(3, 500_000), 1);
    assert_eq!(fx_mul(-3, 500_000), -1);
    assert_eq!(fx_mul(1, 999_999), 0);
    assert_eq!(fx_mul(-1, 999_999), 0);
    assert_eq!(fx_mul(LIMIT, fx(2.0)), LIMIT);
    assert_eq!(fx_mul(LIMIT, fx(-2.0)), -LIMIT);
    assert_eq!(fx_mul(i64::MIN, i64::MIN), LIMIT);
    assert_eq!(scaled_product(fx(2.0), fx(3.0)), 6_000_000);
    assert_eq!(scaled_product(-7, 500_000), -3);
}

#[test]
fn quotients_round_toward_zero() {
    assert_eq!(fx_div(fx(6.0), fx(3.0)), fx(2.0));
    assert_eq!(fx_div(fx(1.0), fx(3.0)), 333_333);
    assert_eq!(fx_div(fx(-1.0), fx(3.0)), -333_333);
    assert_eq!(fx_div(fx(1.0), fx(-3.0)), -333_333);
    assert_eq!(fx_div(fx(-1.0), fx(-3.0)), 333_333);
    assert_eq!(fx_div(fx(2.0), fx(0.5)), fx(4.0));
    assert_eq!(fx_div(LIMIT, 1), LIMIT);
    assert_eq!(fx_div(-LIMIT, 1), -LIMIT);
    assert_eq!(fx_div(fx(1.0), i64::MIN), 0);
}

#[test]
fn division_by_zero_saturates_by_sign() {
    assert_eq!(fx_div(fx(1.0), 0), LIMIT);
    assert_eq!(fx_div(fx(-1.0), 0), -LIMIT);
    assert_eq!(fx_div(0, 0), 0);
}

#[test]
fn halves_and_midpoints() {
    assert_eq!(fx_half(fx(3.0)), fx(1.5));
    assert_eq!(fx_half(3), 1);
    assert_eq!(fx_half(-3), -1);
    assert_eq!(fx_midpoint(fx(1.0), fx(4.0)), fx(2.5));
    assert_eq!(fx_midpoint(LIMIT, LIMIT), LIMIT);
    assert_eq!(fx_midpoint(-LIMIT, LIMIT), 0);
    assert_eq!(fx_midpoint(i64::MIN, i64::MIN), i64::MIN);
    assert_eq!(fx_midpoint(-3, 0), -1);
    assert_eq!(fx_min(3, -4), -4);
    assert_eq!(fx_max(3, -4), 3);
}

#[test]
fn lerp_reaches_both_ends() {
    assert_eq!(fx_lerp(fx(2.0), fx(10.0), 0), fx(2.0));
    assert_eq!(fx_lerp(fx(2.0), fx(10.0), SCALE), fx(10.0));
    assert_eq!(fx_lerp(fx(2.0), fx(10.0), fx(0.25)), fx(4.0));
    assert_eq!(fx_lerp(fx(10.0), fx(2.0), fx(0.25)), fx(8.0));
    assert_eq!(fx_lerp(fx(2.0), fx(10.0), fx(1.5)), fx(14.0));
}

#[test]
fn square_roots_round_down() {
    assert_eq!(isqrt_u128(0), 0);
    assert_eq!(isqrt_u128(1), 1);
    assert_eq!(isqrt_u128(3), 1);
    assert_eq!(isqrt_u128(4), 2);
    assert_eq!(isqrt_u128(99), 9);
    assert_eq!(isqrt_u128(100), 10);
    assert_eq!(isqrt_u128(1_000_000_000_000), 1_000_000);
    assert_eq!(isqrt_u128(u128::MAX), u64::MAX);
    assert_eq!(isqrt_u128((u64::MAX as u128) * (u64::MAX as u128) - 1), u64::MAX - 1);
}

#[test]
fn vectors_add_and_scale() {
    let a = v3(1.0, 2.0, 3.0);
    let b = v3(-4.0, 0.5, 2.0);
    assert_eq!(a.plus(b), v3(-3.0, 2.5, 5.0));
    assert_eq!(a.minus(b), v3(5.0, 1.5, 1.0));
    assert_eq!(a.scaled(fx(2.5)), v3(2.5, 5.0, 7.5));
    assert_eq!(a.lerp(b, fx(0.5)), v3(-1.5, 1.25, 2.5));
    assert_eq!(a.lerp(b, 0), a);
    assert_eq!(a.lerp(b, SCALE), b);
    assert_eq!(Vec3::zero(), v3(0.0, 0.0, 0.0));
    assert_eq!(Vec3::new(1, 2, 3), Vec3 { x: 1, y: 2, z: 3 });
}

#[test]
fn dot_and_length() {
    let a = v3(1.0, 2.0, 3.0);
    let b = v3(-4.0, 0.5, 2.0);
    assert_eq!(a.dot(b), fx(3.0));
    assert_eq!(v3(3.0, 0.0, 4.0).length(), fx(5.0));
    assert_eq!(v3(1.0, 1.0, 1.0).length(), 1_732_050);
    assert_eq!(Vec3::zero().length(), 0);
    assert_eq!(a.distance(v3(1.0, 2.0, -1.0)), fx(4.0));
    let far = Vec3::new(LIMIT, LIMIT, LIMIT);
    assert_eq!(far.length(), LIMIT);
    assert_eq!(far.dot(far), LIMIT);
    assert_eq!(far.dot(far.scaled(fx(-1.0))), -LIMIT);
}
