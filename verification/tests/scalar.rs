use raytracer::scalar::{Scalar, INFINITY_BITS, MINUS_ONE_BITS, ONE_BITS};

fn s(x: f32) -> Scalar {
    Scalar::from_bits(x.to_bits())
}

fn samples() -> Vec<f32> {
    vec![
        0.0,
        -0.0,
        1.0,
        -1.0,
        0.001,
        -0.001,
        0.5,
        1.5,
        2.0,
        3.0,
        -3.0,
        4.0,
        6.0,
        255.0,
        1.0e10,
        -1.0e10,
        1.0e-10,
        f32::MIN_POSITIVE,
        -f32::MIN_POSITIVE,
        f32::from_bits(1),
        f32::from_bits(0x8000_0001),
        f32::from_bits(0x007f_ffff),
        f32::MAX,
        f32::MIN,
        f32::EPSILON,
        f32::INFINITY,
        f32::NEG_INFINITY,
        f32::NAN,
        f32::from_bits(0xffc0_0000),
        f32::from_bits(0x7f80_0001),
        std::f32::consts::PI,
        -std::f32::consts::PI,
    ]
}

#[test]
fn bits_round_trip() {
    for x in samples() {
        assert_eq!(s(x).to_bits(), x.to_bits());
        assert_eq!(s(x).bits, x.to_bits());
    }
    assert_eq!(Scalar::from_bits(0x1234_5678).to_bits(), 0x1234_5678);
}

#[test]
fn named_patterns_are_the_numbers() {
    assert_eq!(INFINITY_BITS, f32::INFINITY.to_bits());
    assert_eq!(ONE_BITS, 1.0f32.to_bits());
    assert_eq!(MINUS_ONE_BITS, (-1.0f32).to_bits());
    assert_eq!(Scalar::zero().to_bits(), 0.0f32.to_bits());
    assert_eq!(Scalar::infinity().to_bits(), f32::INFINITY.to_bits());
}

#[test]
fn is_nan_agrees_with_the_hardware() {
    for x in samples() {
        assert_eq!(s(x).is_nan(), x.is_nan(), "{:?}", x);
    }
}

#[test]
fn lt_agrees_with_the_hardware() {
    for a in samples() {
        for b in samples() {
            assert_eq!(s(a).lt(s(b)), a < b, "{:?} < {:?}", a, b);
        }
    }
}

#[test]
fn gt_agrees_with_the_hardware() {
    for a in samples() {
        for b in samples() {
            assert_eq!(s(a).gt(s(b)), a > b, "{:?} > {:?}", a, b);
        }
    }
}

#[test]
fn lt_on_chosen_values() {
    assert!(s(1.0).lt(s(2.0)));
    assert!(!s(2.0).lt(s(1.0)));
    assert!(!s(1.0).lt(s(1.0)));
    assert!(s(-2.0).lt(s(-1.0)));
    assert!(s(-1.0).lt(s(0.0)));
    assert!(s(f32::NEG_INFINITY).lt(s(f32::MIN)));
    assert!(s(f32::MAX).lt(s(f32::INFINITY)));
}

#[test]
fn the_two_zeros_are_equal_in_order() {
    assert!(!s(0.0).lt(s(-0.0)));
    assert!(!s(-0.0).lt(s(0.0)));
    assert!(s(-0.0).lt(s(f32::from_bits(1))));
    assert!(s(f32::from_bits(0x8000_0001)).lt(s(0.0)));
}

#[test]
fn nan_is_below_nothing_and_above_nothing() {
    for x in samples() {
        assert!(!s(f32::NAN).lt(s(x)));
        assert!(!s(x).lt(s(f32::NAN)));
        assert!(!s(f32::NAN).gt(s(x)));
        assert!(!s(x).gt(s(f32::NAN)));
    }
}

#[test]
fn min_and_max_agree_with_the_hardware_in_value() {
    for a in samples() {
        for b in samples() {
            let low = f32::from_bits(s(a).min(s(b)).to_bits());
            let high = f32::from_bits(s(a).max(s(b)).to_bits());
            let want_low = a.min(b);
            let want_high = a.max(b);
            if want_low.is_nan() {
                assert!(low.is_nan(), "min({:?}, {:?})", a, b);
            } else {
                assert_eq!(low, want_low, "min({:?}, {:?})", a, b);
            }
            if want_high.is_nan() {
                assert!(high.is_nan(), "max({:?}, {:?})", a, b);
            } else {
                assert_eq!(high, want_high, "max({:?}, {:?})", a, b);
            }
        }
    }
}

#[test]
fn min_and_max_pass_over_a_nan() {
    assert_eq!(s(f32::NAN).min(s(3.0)).to_bits(), 3.0f32.to_bits());
    assert_eq!(s(3.0).min(s(f32::NAN)).to_bits(), 3.0f32.to_bits());
    assert_eq!(s(f32::NAN).max(s(-3.0)).to_bits(), (-3.0f32).to_bits());
    assert_eq!(s(-3.0).max(s(f32::NAN)).to_bits(), (-3.0f32).to_bits());
    assert!(s(f32::NAN).max(s(f32::NAN)).is_nan());
}

#[test]
fn min_and_max_on_chosen_values() {
    assert_eq!(s(4.0).min(s(6.0)).to_bits(), 4.0f32.to_bits());
    assert_eq!(s(6.0).min(s(4.0)).to_bits(), 4.0f32.to_bits());
    assert_eq!(s(4.0).max(s(6.0)).to_bits(), 6.0f32.to_bits());
    assert_eq!(s(-4.0).max(s(-6.0)).to_bits(), (-4.0f32).to_bits());
    assert_eq!(s(f32::NEG_INFINITY).max(s(4.0)).to_bits(), 4.0f32.to_bits());
    assert_eq!(s(f32::INFINITY).min(s(6.0)).to_bits(), 6.0f32.to_bits());
    assert_eq!(s(2.5).min(s(2.5)).to_bits(), 2.5f32.to_bits());
}

#[test]
fn abs_clears_the_sign() {
    for x in samples() {
        assert_eq!(s(x).abs().to_bits(), x.abs().to_bits(), "{:?}", x);
    }
    assert_eq!(s(-2.0).abs().to_bits(), 2.0f32.to_bits());
    assert_eq!(s(-0.0).abs().to_bits(), 0);
}

#[test]
fn clamp_agrees_with_the_hardware() {
    let bounds = [(0.0f32, 1.0f32), (-1.5, 1.5), (-0.0, 0.0), (2.0, 2.0), (f32::NEG_INFINITY, 0.5), (-3.0, f32::INFINITY)];
    for x in samples() {
        for &(low, high) in bounds.iter() {
            let got = f32::from_bits(s(x).clamp(s(low), s(high)).to_bits());
            let want = x.clamp(low, high);
            if want.is_nan() {
                assert_eq!(got.to_bits(), x.to_bits());
            } else {
                assert_eq!(got, want, "{:?} in [{:?}, {:?}]", x, low, high);
            }
        }
    }
}

#[test]
fn clamp_on_chosen_values() {
    assert_eq!(s(0.25).clamp(s(0.0), s(1.0)), s(0.25));
    assert_eq!(s(-0.25).clamp(s(0.0), s(1.0)), s(0.0));
    assert_eq!(s(1.25).clamp(s(0.0), s(1.0)), s(1.0));
    assert_eq!(s(0.0).clamp(s(0.0), s(1.0)), s(0.0));
    assert_eq!(s(1.0).clamp(s(0.0), s(1.0)), s(1.0));
    assert_eq!(s(f32::INFINITY).clamp(s(0.0), s(1.0)), s(1.0));
    assert_eq!(s(f32::NEG_INFINITY).clamp(s(0.0), s(1.0)), s(0.0));
    assert!(s(f32::NAN).clamp(s(0.0), s(1.0)).is_nan());
}
