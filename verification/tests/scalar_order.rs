use raygrid::scalar::Scalar;
use raygrid::scalar::{EPSILON_BITS, INFINITY_BITS, NEG_EPSILON_BITS, ONE_BITS, SIGN_BIT, ZERO_BITS};

fn s(x: f64) -> Scalar {
    Scalar::from_bits(x.to_bits())
}

fn f(x: Scalar) -> f64 {
    f64::from_bits(x.to_bits())
}

fn samples() -> Vec<f64> {
    vec![
        f64::NEG_INFINITY,
        -1.0e300,
        -2.5,
        -1.0,
        -1.0e-7,
        -f64::MIN_POSITIVE,
        -5.0e-324,
        -0.0,
        0.0,
        5.0e-324,
        f64::MIN_POSITIVE,
        1.0e-7,
        0.5,
        1.0,
        2.5,
        1.0e300,
        f64::INFINITY,
        f64::NAN,
        -f64::NAN,
    ]
}

#[test]
fn constants_are_the_patterns_of_their_numbers() {
    assert_eq!(ZERO_BITS, 0.0f64.to_bits());
    assert_eq!(ONE_BITS, 1.0f64.to_bits());
    assert_eq!(EPSILON_BITS, 0.0000001f64.to_bits());
    assert_eq!(NEG_EPSILON_BITS, (-0.0000001f64).to_bits());
    assert_eq!(INFINITY_BITS, f64::INFINITY.to_bits());
    assert_eq!(SIGN_BIT, (-0.0f64).to_bits());
    assert_eq!(f(Scalar::zero()), 0.0);
    assert_eq!(f(Scalar::one()), 1.0);
    assert_eq!(f(Scalar::epsilon()), 1.0e-7);
    assert_eq!(f(Scalar::neg_epsilon()), -1.0e-7);
}

#[test]
fn bits_round_trip() {
    for &a in samples().iter() {
        assert_eq!(s(a).to_bits(), a.to_bits());
    }
    assert_eq!(Scalar::from_bits(0x4024_0000_0000_0000).to_bits(), 10.0f64.to_bits());
}

#[test]
fn order_matches_binary64_on_samples() {
    for &a in samples().iter() {
        assert_eq!(s(a).is_nan(), a.is_nan());
        for &b in samples().iter() {
            assert_eq!(s(a).lt(s(b)), a < b, "{} < {}", a, b);
            assert_eq!(s(a).le(s(b)), a <= b, "{} <= {}", a, b);
            assert_eq!(s(a).gt(s(b)), a > b, "{} > {}", a, b);
            assert_eq!(s(a).ge(s(b)), a >= b, "{} >= {}", a, b);
        }
    }
}

#[test]
fn zeros_compare_equal() {
    assert!(!s(-0.0).lt(s(0.0)));
    assert!(!s(0.0).lt(s(-0.0)));
    assert!(s(-0.0).le(s(0.0)));
    assert!(s(0.0).le(s(-0.0)));
    assert!(s(0.0).ge(s(-0.0)));
}

#[test]
fn nan_compares_false_with_everything() {
    for &a in samples().iter() {
        assert!(!s(f64::NAN).lt(s(a)));
        assert!(!s(f64::NAN).le(s(a)));
        assert!(!s(a).gt(s(f64::NAN)));
        assert!(!s(a).ge(s(f64::NAN)));
    }
}

#[test]
fn min_and_max_match_binary64_on_samples() {
    for &a in samples().iter() {
        for &b in samples().iter() {
            let lo = f(s(a).min(s(b)));
            let hi = f(s(a).max(s(b)));
            let want_lo = a.min(b);
            let want_hi = a.max(b);
            if want_lo.is_nan() {
                assert!(lo.is_nan());
            } else {
                assert!(lo == want_lo, "min({}, {}) = {}", a, b, lo);
            }
            if want_hi.is_nan() {
                assert!(hi.is_nan());
            } else {
                assert!(hi == want_hi, "max({}, {}) = {}", a, b, hi);
            }
        }
    }
}

#[test]
fn min_and_max_ignore_what_is_no_number() {
    assert_eq!(s(f64::NAN).min(s(3.0)).to_bits(), 3.0f64.to_bits());
    assert_eq!(s(3.0).min(s(f64::NAN)).to_bits(), 3.0f64.to_bits());
    assert_eq!(s(f64::NAN).max(s(-3.0)).to_bits(), (-3.0f64).to_bits());
    assert_eq!(s(-3.0).max(s(f64::NAN)).to_bits(), (-3.0f64).to_bits());
    assert!(s(f64::NAN).min(s(f64::NAN)).is_nan());
}

#[test]
fn min_and_max_keep_the_first_of_a_tie() {
    assert_eq!(s(0.0).min(s(-0.0)).to_bits(), 0.0f64.to_bits());
    assert_eq!(s(-0.0).min(s(0.0)).to_bits(), (-0.0f64).to_bits());
    assert_eq!(s(0.0).max(s(-0.0)).to_bits(), 0.0f64.to_bits());
    assert_eq!(s(-0.0).max(s(0.0)).to_bits(), (-0.0f64).to_bits());
}

#[test]
fn min_and_max_exact_values() {
    assert_eq!(f(s(2.0).min(s(-7.5))), -7.5);
    assert_eq!(f(s(2.0).max(s(-7.5))), 2.0);
    assert_eq!(f(s(f64::NEG_INFINITY).max(s(1.0))), 1.0);
    assert_eq!(f(s(f64::INFINITY).min(s(2.0))), 2.0);
}

#[test]
fn neg_flips_the_sign() {
    for &a in samples().iter() {
        let n = f(s(a).neg());
        if a.is_nan() {
            assert!(n.is_nan());
        } else {
            assert_eq!(n.to_bits(), (-a).to_bits());
            assert_eq!(n.to_bits(), (a * -1.0).to_bits());
        }
        assert_eq!(s(a).neg().neg().to_bits(), a.to_bits());
    }
    assert_eq!(s(0.0).neg().to_bits(), (-0.0f64).to_bits());
}
