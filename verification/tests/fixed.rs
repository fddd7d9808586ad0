use asteroids::fixed::{isqrt, Fixed, SCALE};

fn raw(value: i64) -> Fixed {
    Fixed::from_raw(value)
}

#[test]
fn whole_numbers_count_millionths() {
    assert_eq!(SCALE, 1_000_000);
    assert_eq!(Fixed::from_int(990).raw, 990_000_000);
    assert_eq!(Fixed::from_int(-3).raw, -3_000_000);
    assert_eq!(Fixed::from_count(4).raw, 4_000_000);
    assert_eq!(Fixed::zero().raw, 0);
    assert_eq!(Fixed::from_raw(17).raw, 17);
}

#[test]
fn sums_and_differences_are_exact_in_range() {
    assert_eq!(raw(1_500_000).plus(raw(2_250_000)), raw(3_750_000));
    assert_eq!(raw(1_500_000).minus(raw(2_250_000)), raw(-750_000));
    assert_eq!(raw(5).negated(), raw(-5));
}

#[test]
fn sums_and_differences_clip_at_the_ends() {
    assert_eq!(raw(i64::MAX).plus(raw(1)), raw(i64::MAX));
    assert_eq!(raw(i64::MIN).minus(raw(1)), raw(i64::MIN));
    assert_eq!(raw(i64::MIN).negated(), raw(i64::MAX));
    assert_eq!(raw(i64::MAX).negated(), raw(-i64::MAX));
}

#[test]
fn products_round_toward_zero() {
    assert_eq!(Fixed::from_int(50).times(Fixed::from_int(1)), Fixed::from_int(50));
    assert_eq!(raw(1_500_000).times(raw(1_500_000)), raw(2_250_000));
    // 0.000003 * 0.5 = 0.0000015, which rounds to 0.000001 on either side of zero
    assert_eq!(raw(3).times(raw(500_000)), raw(1));
    assert_eq!(raw(-3).times(raw(500_000)), raw(-1));
    assert_eq!(raw(3).times(raw(-500_000)), raw(-1));
    assert_eq!(raw(-3).times(raw(-500_000)), raw(1));
}

#[test]
fn products_clip_at_the_ends() {
    assert_eq!(raw(i64::MAX).times(Fixed::from_int(2)), raw(i64::MAX));
    assert_eq!(raw(i64::MAX).times(Fixed::from_int(-2)), raw(i64::MIN));
    assert_eq!(raw(i64::MIN).times(raw(i64::MIN)), raw(i64::MAX));
}

#[test]
fn quotients_round_toward_zero() {
    assert_eq!(Fixed::from_int(90).over(Fixed::from_int(3)), Fixed::from_int(30));
    assert_eq!(Fixed::from_int(1).over(Fixed::from_int(3)), raw(333_333));
    assert_eq!(Fixed::from_int(-1).over(Fixed::from_int(3)), raw(-333_333));
    assert_eq!(Fixed::from_int(1).over(Fixed::from_int(-3)), raw(-333_333));
    assert_eq!(Fixed::from_int(-2).over(Fixed::from_int(-3)), raw(666_666));
}

#[test]
fn division_by_zero_gives_the_extreme_on_the_dividends_side() {
    assert_eq!(Fixed::from_int(1).over(Fixed::zero()), raw(i64::MAX));
    assert_eq!(Fixed::from_int(-1).over(Fixed::zero()), raw(i64::MIN));
    assert_eq!(Fixed::zero().over(Fixed::zero()), Fixed::zero());
}

#[test]
fn quotients_clip_at_the_ends() {
    assert_eq!(raw(i64::MAX).over(raw(1)), raw(i64::MAX));
    assert_eq!(raw(i64::MIN).over(raw(1)), raw(i64::MIN));
    assert_eq!(raw(i64::MIN).over(raw(-1)), raw(i64::MAX));
}

#[test]
fn square_roots_round_down() {
    assert_eq!(Fixed::from_int(25).root(), Fixed::from_int(5));
    assert_eq!(Fixed::from_int(2).root(), raw(1_414_213));
    assert_eq!(raw(1).root(), raw(1_000));
    assert_eq!(Fixed::zero().root(), Fixed::zero());
    assert_eq!(Fixed::from_int(-4).root(), Fixed::zero());
    assert_eq!(raw(i64::MAX).root(), raw(3_037_000_499_976));
}

#[test]
fn integer_square_root_is_the_floor() {
    assert_eq!(isqrt(0), 0);
    assert_eq!(isqrt(1), 1);
    assert_eq!(isqrt(3), 1);
    assert_eq!(isqrt(4), 2);
    assert_eq!(isqrt(99), 9);
    assert_eq!(isqrt(100), 10);
    assert_eq!(isqrt(u128::MAX), u64::MAX as u128);
    for n in 0u128..2000 {
        let r = isqrt(n);
        assert!(r * r <= n && n < (r + 1) * (r + 1));
    }
}
