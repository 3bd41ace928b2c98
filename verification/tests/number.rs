use epcsaft::number::{abs_bits, below, magnitude_exceeds_zero, nan, nonzero, zero, ONE, ZERO};

fn samples() -> Vec<f64> {
    vec![
        0.0,
        -0.0,
        1.0,
        -1.0,
        0.5,
        -0.5,
        2.0,
        273.15,
        298.15,
        -273.15,
        1e-300,
        -1e-300,
        5e-324,
        -5e-324,
        1e300,
        -1e300,
        f64::MAX,
        f64::MIN,
        f64::MIN_POSITIVE,
        f64::INFINITY,
        f64::NEG_INFINITY,
        f64::NAN,
        -f64::NAN,
    ]
}

#[test]
fn constants_are_the_patterns_of_zero_and_one() {
    assert_eq!(ZERO, 0.0f64.to_bits());
    assert_eq!(ONE, 1.0f64.to_bits());
}

#[test]
fn zero_agrees_with_comparison_to_zero() {
    for x in samples() {
        assert_eq!(zero(x.to_bits()), x == 0.0, "{}", x);
    }
}

#[test]
fn nonzero_agrees_with_difference_from_zero() {
    for x in samples() {
        assert_eq!(nonzero(x.to_bits()), x != 0.0, "{}", x);
    }
}

#[test]
fn nan_agrees_with_is_nan() {
    for x in samples() {
        assert_eq!(nan(x.to_bits()), x.is_nan(), "{}", x);
    }
}

#[test]
fn below_agrees_with_less_than() {
    for a in samples() {
        for b in samples() {
            assert_eq!(below(a.to_bits(), b.to_bits()), a < b, "{} < {}", a, b);
        }
    }
}

#[test]
fn magnitude_agrees_with_absolute_value_above_zero() {
    for x in samples() {
        assert_eq!(magnitude_exceeds_zero(x.to_bits()), x.abs() > 0.0, "{}", x);
    }
}

#[test]
fn abs_bits_agrees_with_absolute_value() {
    for x in samples() {
        assert_eq!(abs_bits(x.to_bits()), x.abs().to_bits(), "{}", x);
    }
}
