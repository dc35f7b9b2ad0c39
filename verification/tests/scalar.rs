use nuitrack_pose_estimation::Scalar;

fn scalar(v: f32) -> Scalar {
    Scalar::from_bits(v.to_bits())
}

fn samples() -> Vec<f32> {
    vec![
        0.0,
        -0.0,
        1.0,
        -1.0,
        0.5,
        0.34,
        0.01,
        -0.01,
        0.99999994,
        1.0000001,
        f32::MIN_POSITIVE,
        -f32::MIN_POSITIVE,
        f32::from_bits(1),
        f32::from_bits(0x8000_0001),
        f32::MAX,
        f32::MIN,
        f32::INFINITY,
        f32::NEG_INFINITY,
        f32::NAN,
        f32::from_bits(0xffc0_0000),
        f32::from_bits(0x7f80_0001),
        f32::from_bits(0xffff_ffff),
    ]
}

#[test]
fn bits_go_in_and_out_unchanged() {
    for bits in [0u32, 1, 0x3f80_0000, 0x7fc0_0000, 0x8000_0000, 0xffff_ffff] {
        assert_eq!(Scalar::from_bits(bits).to_bits(), bits);
        assert_eq!(Scalar::from_bits(bits).bits, bits);
    }
}

#[test]
fn less_than_is_that_of_the_numbers() {
    for a in samples() {
        for b in samples() {
            assert_eq!(scalar(a).lt(scalar(b)), a < b, "{:?} < {:?}", a, b);
        }
    }
}

#[test]
fn at_most_is_that_of_the_numbers() {
    for a in samples() {
        for b in samples() {
            assert_eq!(scalar(a).le(scalar(b)), a <= b, "{:?} <= {:?}", a, b);
        }
    }
}

#[test]
fn absolute_value_clears_the_sign() {
    for a in samples() {
        assert_eq!(scalar(a).abs().to_bits(), a.abs().to_bits(), "{:?}", a);
    }
    assert_eq!(scalar(-0.34).abs(), scalar(0.34));
    assert_eq!(scalar(-0.0).abs(), scalar(0.0));
}

#[test]
fn nan_is_told_apart() {
    for a in samples() {
        assert_eq!(scalar(a).is_nan(), a.is_nan(), "{:?}", a);
    }
    assert!(!Scalar::from_bits(0x7f80_0000).is_nan());
    assert!(Scalar::from_bits(0x7f80_0001).is_nan());
    assert!(!Scalar::from_bits(0xff80_0000).is_nan());
    assert!(Scalar::from_bits(0xff80_0001).is_nan());
}

#[test]
fn unit_interval_has_both_ends() {
    for a in samples() {
        assert_eq!(
            scalar(a).in_unit_interval(),
            a >= 0.0 && a <= 1.0,
            "{:?}",
            a
        );
    }
    assert!(scalar(0.0).in_unit_interval());
    assert!(scalar(-0.0).in_unit_interval());
    assert!(scalar(1.0).in_unit_interval());
    assert!(!scalar(1.0000001).in_unit_interval());
    assert!(!scalar(-1e-30).in_unit_interval());
}

#[test]
fn equality_is_of_patterns() {
    assert_ne!(scalar(0.0), scalar(-0.0));
    assert_eq!(scalar(f32::NAN), scalar(f32::NAN));
    assert!(scalar(0.0).le(scalar(-0.0)) && scalar(-0.0).le(scalar(0.0)));
}

#[test]
fn positive_is_above_zero() {
    for a in samples() {
        assert_eq!(scalar(a).is_positive(), a > 0.0, "{:?}", a);
    }
}

#[test]
fn the_named_numbers_are_what_they_say() {
    assert_eq!(Scalar::zero(), scalar(0.0));
    assert_eq!(Scalar::one(), scalar(1.0));
    assert_eq!(Scalar::minus_one(), scalar(-1.0));
}
