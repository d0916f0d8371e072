use camera::Scalar;

fn s(value: f32) -> Scalar {
    Scalar { bits: value.to_bits() }
}

#[test]
fn lt_agrees_with_float_comparison() {
    let samples: [f32; 12] = [
        f32::NEG_INFINITY,
        -3.0e38,
        -1.5,
        -0.0,
        0.0,
        1.0e-40,
        0.1,
        1.0,
        2.5,
        3.0e38,
        f32::INFINITY,
        f32::NAN,
    ];
    for &a in samples.iter() {
        for &b in samples.iter() {
            assert_eq!(s(a).lt(s(b)), a < b, "lt must match f32 `<` on {} and {}", a, b);
            assert_eq!(s(a).le(s(b)), a <= b, "le must match f32 `<=` on {} and {}", a, b);
        }
    }
}

#[test]
fn zeros_compare_equal() {
    assert!(!s(-0.0).lt(s(0.0)));
    assert!(!s(0.0).lt(s(-0.0)));
    assert!(s(-0.0).le(s(0.0)));
    assert!(s(0.0).le(s(-0.0)));
}

#[test]
fn nan_compares_with_nothing() {
    assert!(!s(f32::NAN).lt(s(1.0)));
    assert!(!s(1.0).lt(s(f32::NAN)));
    assert!(!s(f32::NAN).le(s(f32::NAN)));
    assert!(s(f32::NAN).is_nan());
    assert!(!s(f32::INFINITY).is_nan());
}

#[test]
fn zero_is_positive_zero() {
    assert_eq!(Scalar::zero().bits, 0.0f32.to_bits());
}
