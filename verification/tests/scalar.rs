use raytracing::scalar::{Scalar, INFINITY_BITS, ONE_BITS, SIGN_BIT, ZERO_BITS};

fn scalar(x: f32) -> Scalar {
    Scalar::from_bits(x.to_bits())
}

fn samples() -> Vec<f32> {
    vec![
        0.0,
        -0.0,
        1.0,
        -1.0,
        0.0001,
        0.00009999,
        0.00010001,
        -5.0,
        1000.0,
        3.0e38,
        -3.0e38,
        1.0e-45,
        -1.0e-45,
        f32::MIN_POSITIVE,
        f32::MAX,
        f32::MIN,
        f32::INFINITY,
        f32::NEG_INFINITY,
        f32::NAN,
        -f32::NAN,
    ]
}

#[test]
fn bit_patterns_of_the_named_constants() {
    assert_eq!(ZERO_BITS, 0.0f32.to_bits());
    assert_eq!(ONE_BITS, 1.0f32.to_bits());
    assert_eq!(INFINITY_BITS, f32::INFINITY.to_bits());
    assert_eq!(SIGN_BIT, (-0.0f32).to_bits());
}

#[test]
fn from_bits_and_to_bits_are_inverse() {
    for bits in [0u32, 1, 0x3f80_0000, 0x7fc0_0000, 0x8000_0000, 0xffff_ffff] {
        assert_eq!(Scalar::from_bits(bits).to_bits(), bits);
        assert_eq!(Scalar::from_bits(bits).bits, bits);
    }
}

#[test]
fn check_nan_agrees_with_the_float() {
    for x in samples() {
        assert_eq!(scalar(x).check_nan(), x.is_nan(), "{x}");
    }
    assert!(!Scalar::from_bits(0x7f80_0000).check_nan());
    assert!(Scalar::from_bits(0x7f80_0001).check_nan());
    assert!(!Scalar::from_bits(0xff80_0000).check_nan());
    assert!(Scalar::from_bits(0xff80_0001).check_nan());
    assert!(Scalar::from_bits(0xffff_ffff).check_nan());
}

#[test]
fn at_least_agrees_with_the_float_maximum() {
    for x in samples() {
        for floor in samples() {
            let got = scalar(x).at_least(scalar(floor));
            if x.is_nan() {
                assert_eq!(got, scalar(floor));
            } else if floor.is_nan() {
                assert_eq!(got, scalar(x));
            } else if x == floor {
                assert_eq!(got, scalar(x));
            } else {
                assert_eq!(got, scalar(x.max(floor)), "{x} {floor}");
            }
        }
    }
}

#[test]
fn at_least_keeps_what_is_above_the_floor() {
    assert_eq!(scalar(2.5).at_least(scalar(1.0)), scalar(2.5));
    assert_eq!(scalar(1.0).at_least(scalar(1.0)), scalar(1.0));
    assert_eq!(scalar(f32::INFINITY).at_least(scalar(1.0)), scalar(f32::INFINITY));
}

#[test]
fn at_least_raises_what_is_below_the_floor() {
    assert_eq!(scalar(0.5).at_least(scalar(1.0)), scalar(1.0));
    assert_eq!(scalar(-2.5).at_least(scalar(-1.0)), scalar(-1.0));
    assert_eq!(scalar(f32::NEG_INFINITY).at_least(scalar(0.0)), scalar(0.0));
    assert_eq!(scalar(f32::NAN).at_least(scalar(0.0)), scalar(0.0));
}

#[test]
fn a_zero_of_either_sign_is_not_below_zero() {
    assert_eq!(scalar(-0.0).at_least(scalar(0.0)), scalar(-0.0));
    assert_eq!(scalar(0.0).at_least(scalar(-0.0)), scalar(0.0));
}
