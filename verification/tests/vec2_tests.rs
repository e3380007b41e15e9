use space_chase::fixed::Fixed;
use space_chase::vec2::Vec2;

fn v(x: i64, y: i64) -> Vec2 {
    Vec2::new(Fixed::from_raw(x), Fixed::from_raw(y))
}

#[test]
fn constructors_set_both_axes() {
    assert_eq!(Vec2::zero(), v(0, 0));
    assert_eq!(Vec2::from_units(3, -4), v(3_000_000, -4_000_000));
    assert_eq!(Vec2::new(Fixed::from_raw(1), Fixed::from_raw(2)).x.raw(), 1);
    assert_eq!(Vec2::new(Fixed::from_raw(1), Fixed::from_raw(2)).y.raw(), 2);
}

#[test]
fn sums_and_differences_work_axis_by_axis() {
    assert_eq!(v(1, 2).saturating_add(v(10, -20)), v(11, -18));
    assert_eq!(v(1, 2).saturating_sub(v(10, -20)), v(-9, 22));
    assert_eq!(v(i64::MAX, i64::MIN).saturating_add(v(1, -1)), v(i64::MAX, i64::MIN));
}

#[test]
fn scale_multiplies_both_axes() {
    assert_eq!(v(2_000_000, -3_000_000).scale(Fixed::from_raw(500_000)), v(1_000_000, -1_500_000));
    assert_eq!(v(64_000_000, -1).scale(Fixed::from_raw(15_625)), v(1_000_000, 0));
}

#[test]
fn clamp_box_limits_each_axis_on_its_own() {
    assert_eq!(v(50, -50).clamp_box(v(10, 100)), v(10, -50));
    assert_eq!(v(-50, 500).clamp_box(v(10, 100)), v(-10, 100));
    assert_eq!(v(7, 70).clamp_box(v(10, 100)), v(7, 70));
    assert_eq!(v(7, 70).clamp_box(v(0, 0)), v(0, 0));
}

#[test]
fn length_is_the_rounded_down_euclidean_norm() {
    assert_eq!(Vec2::from_units(3, 4).length().raw(), 5_000_000);
    assert_eq!(Vec2::from_units(-3, -4).length().raw(), 5_000_000);
    assert_eq!(v(1, 1).length().raw(), 1);
    assert_eq!(Vec2::from_units(1, 1).length().raw(), 1_414_213);
    assert_eq!(v(0, 0).length().raw(), 0);
    assert_eq!(v(0, -9).length().raw(), 9);
}

#[test]
fn length_saturates() {
    assert_eq!(v(i64::MIN, i64::MIN).length().raw(), i64::MAX);
    assert_eq!(v(i64::MAX, 0).length().raw(), i64::MAX);
    assert_eq!(v(i64::MIN, 0).length().raw(), i64::MAX);
}

#[test]
fn distance_is_the_length_of_the_difference() {
    assert_eq!(Vec2::from_units(100, 0).distance(Vec2::from_units(0, 0)).raw(), 100_000_000);
    assert_eq!(Vec2::from_units(1, 1).distance(Vec2::from_units(4, 5)).raw(), 5_000_000);
    assert_eq!(Vec2::from_units(4, 5).distance(Vec2::from_units(1, 1)).raw(), 5_000_000);
    assert_eq!(v(7, 7).distance(v(7, 7)).raw(), 0);
}

#[test]
fn quarter_turns_swap_the_axes() {
    assert_eq!(v(3, 5).perp(), v(-5, 3));
    assert_eq!(v(3, 5).perp_clockwise(), v(5, -3));
    assert_eq!(v(3, 5).perp().perp(), v(-3, -5));
    assert_eq!(v(3, 5).perp().perp_clockwise(), v(3, 5));
    assert_eq!(v(0, i64::MIN).perp(), v(i64::MAX, 0));
}

#[test]
fn blend_mixes_axis_by_axis() {
    let a = v(0, -900);
    let b = v(-2400, 0);
    assert_eq!(a.blend(b, Fixed::from_raw(100), Fixed::from_raw(300)), v(-800, -600));
    assert_eq!(a.blend(b, Fixed::from_raw(0), Fixed::from_raw(300)), a);
    assert_eq!(a.blend(b, Fixed::from_raw(300), Fixed::from_raw(300)), b);
}
