use asteroids::fixed::Fixed;
use asteroids::trig::{arc_cosine, clamp_unit, cosine_series, sine_cosine, sine_series, HALF_PI, PI, TAU};

fn to_f64(value: Fixed) -> f64 {
    value.raw as f64 / 1_000_000.0
}

fn from_f64(value: f64) -> Fixed {
    Fixed::from_raw((value * 1_000_000.0).round() as i64)
}

#[test]
fn the_angle_constants_are_consistent() {
    assert_eq!(PI, 3_141_593);
    assert_eq!(HALF_PI, 1_570_796);
    assert_eq!(TAU, 6_283_185);
}

#[test]
fn sine_and_cosine_of_zero_are_exact() {
    assert_eq!(sine_cosine(Fixed::zero()), (Fixed::zero(), Fixed::from_int(1)));
    assert_eq!(sine_series(Fixed::zero()), Fixed::zero());
    assert_eq!(cosine_series(Fixed::zero()), Fixed::from_int(1));
}

#[test]
fn sine_and_cosine_follow_the_true_functions() {
    let mut raw: i64 = -20_000_000;
    while raw <= 20_000_000 {
        let (s, c) = sine_cosine(Fixed::from_raw(raw));
        let angle = raw as f64 / 1_000_000.0;
        assert!((to_f64(s) - angle.sin()).abs() < 0.00005, "sine of {}", angle);
        assert!((to_f64(c) - angle.cos()).abs() < 0.00005, "cosine of {}", angle);
        assert!(s.raw.abs() <= 1_000_000 && c.raw.abs() <= 1_000_000);
        raw += 12_345;
    }
}

#[test]
fn sine_and_cosine_take_their_signs_from_the_quadrant() {
    let (s1, c1) = sine_cosine(Fixed::from_int(1));
    let (s2, c2) = sine_cosine(Fixed::from_int(2));
    let (s4, c4) = sine_cosine(Fixed::from_int(4));
    let (s5, c5) = sine_cosine(Fixed::from_int(5));
    let (sm, cm) = sine_cosine(Fixed::from_int(-1));
    assert!(s1.raw > 0 && c1.raw > 0);
    assert!(s2.raw > 0 && c2.raw < 0);
    assert!(s4.raw < 0 && c4.raw < 0);
    assert!(s5.raw < 0 && c5.raw > 0);
    assert!(sm.raw < 0 && cm.raw > 0);
}

#[test]
fn a_full_turn_changes_next_to_nothing() {
    let (s, c) = sine_cosine(Fixed::from_raw(700_000));
    let (s2, c2) = sine_cosine(Fixed::from_raw(700_000 + TAU));
    assert!((s.raw - s2.raw).abs() <= 2);
    assert!((c.raw - c2.raw).abs() <= 2);
}

#[test]
fn arc_cosine_follows_the_true_function() {
    let mut raw: i64 = -1_000_000;
    while raw <= 1_000_000 {
        let angle = arc_cosine(Fixed::from_raw(raw));
        let truth = (raw as f64 / 1_000_000.0).acos();
        assert!((to_f64(angle) - truth).abs() < 0.0002, "arc cosine of {}", raw);
        raw += 1_000;
    }
}

#[test]
fn arc_cosine_at_the_ends_and_beyond() {
    assert_eq!(arc_cosine(Fixed::from_int(1)), Fixed::zero());
    assert_eq!(arc_cosine(Fixed::from_int(5)), Fixed::zero());
    assert_eq!(arc_cosine(Fixed::from_int(-1)), Fixed::from_raw(PI));
    assert_eq!(arc_cosine(Fixed::from_int(-7)), Fixed::from_raw(PI));
    assert_eq!(arc_cosine(Fixed::zero()), Fixed::from_raw(1_570_729));
}

#[test]
fn clamping_keeps_values_between_minus_one_and_one() {
    assert_eq!(clamp_unit(Fixed::from_raw(1_000_003)), Fixed::from_int(1));
    assert_eq!(clamp_unit(Fixed::from_raw(-1_000_003)), Fixed::from_int(-1));
    assert_eq!(clamp_unit(from_f64(0.25)), Fixed::from_raw(250_000));
}
