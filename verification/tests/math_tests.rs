use player_controller::math::{clamp_magnitude, fp_mul, isqrt, Vec3};

#[test]
fn fixed_point_products_scale_back_down() {
    assert_eq!(fp_mul(2_000, 3_000), 6_000); // 2.0 * 3.0 = 6.0
    assert_eq!(fp_mul(500, 500), 250); // 0.5 * 0.5 = 0.25
    assert_eq!(fp_mul(-2_000, 3_000), -6_000);
}

#[test]
fn fixed_point_products_round_toward_zero() {
    assert_eq!(fp_mul(1_500, 1), 1); // 1.5 * 0.001 = 0.0015 -> 0.001
    assert_eq!(fp_mul(-1_500, 1), -1); // not -2: truncation, not flooring
}

#[test]
fn integer_square_root_brackets_its_argument() {
    assert_eq!(isqrt(0), 0);
    assert_eq!(isqrt(1), 1);
    assert_eq!(isqrt(3), 1);
    assert_eq!(isqrt(4), 2);
    assert_eq!(isqrt(2_000_000), 1_414);
    assert_eq!(isqrt(u64::MAX), 4_294_967_295);
}

#[test]
fn normalization_gives_a_unit_vector() {
    let v = Vec3 { x: 3_000, y: 4_000, z: 0 };
    assert_eq!(v.normalize_or_zero(), Vec3 { x: 600, y: 800, z: 0 });
    let zero = Vec3 { x: 0, y: 0, z: 0 };
    assert_eq!(zero.normalize_or_zero(), zero);
}

#[test]
fn dot_and_cross_products_match_hand_values() {
    let a = Vec3 { x: 1_000, y: 2_000, z: 0 };
    let b = Vec3 { x: 3_000, y: 0, z: 500 };
    assert_eq!(a.dot(b), 3_000); // 1*3 + 2*0 + 0*0.5
    // unit x crossed with unit y is unit z
    let x = Vec3 { x: 1_000, y: 0, z: 0 };
    let y = Vec3 { x: 0, y: 1_000, z: 0 };
    assert_eq!(x.cross(y), Vec3 { x: 0, y: 0, z: 1_000 });
}

#[test]
fn clamping_saturates_at_the_bound() {
    assert_eq!(clamp_magnitude(5, 10), 5);
    assert_eq!(clamp_magnitude(15, 10), 10);
    assert_eq!(clamp_magnitude(-15, 10), -10);
}
