use simple_physics::scalar::{
    Scalar, Vector2, EPSILON_BITS, HALF_BITS, ONE_BITS, ZERO_BITS,
};

fn scalar(x: f32) -> Scalar {
    Scalar::from_bits(x.to_bits())
}

fn samples() -> Vec<f32> {
    vec![
        0.0,
        -0.0,
        1.0,
        -1.0,
        0.5,
        100.0,
        -100.0,
        1.0e-10,
        -1.0e-10,
        1.0e-40,
        -1.0e-40,
        f32::MIN_POSITIVE,
        f32::EPSILON,
        f32::EPSILON * 0.999,
        f32::EPSILON * 1.001,
        f32::MAX,
        f32::MIN,
        f32::INFINITY,
        f32::NEG_INFINITY,
        f32::NAN,
        -f32::NAN,
        f32::from_bits(0x7f80_0001),
        f32::from_bits(0xffff_ffff),
        f32::from_bits(0x0000_0001),
        f32::from_bits(0x8000_0001),
        1.0 / 60.0,
        std::f32::consts::PI,
    ]
}

#[test]
fn constants_are_the_bit_patterns_of_their_numbers() {
    assert_eq!(ZERO_BITS, 0.0f32.to_bits());
    assert_eq!(HALF_BITS, 0.5f32.to_bits());
    assert_eq!(ONE_BITS, 1.0f32.to_bits());
    assert_eq!(EPSILON_BITS, f32::EPSILON.to_bits());
    assert_eq!(f32::from_bits(Scalar::new_zero().to_bits()), 0.0);
    assert_eq!(f32::from_bits(Scalar::new_half().to_bits()), 0.5);
    assert_eq!(f32::from_bits(Scalar::new_one().to_bits()), 1.0);
    assert_eq!(f32::from_bits(Scalar::new_epsilon().to_bits()), f32::EPSILON);
}

#[test]
fn from_bits_and_to_bits_round_trip() {
    for x in samples() {
        assert_eq!(scalar(x).to_bits(), x.to_bits());
        assert_eq!(scalar(x).bits, x.to_bits());
    }
}

#[test]
fn is_finite_agrees_with_the_numbers() {
    for x in samples() {
        assert_eq!(scalar(x).is_finite(), x.is_finite(), "{x:?}");
    }
}

#[test]
fn is_nan_agrees_with_the_numbers() {
    for x in samples() {
        assert_eq!(scalar(x).is_nan(), x.is_nan(), "{x:?}");
    }
}

#[test]
fn is_zero_agrees_with_the_numbers() {
    for x in samples() {
        assert_eq!(scalar(x).is_zero(), x == 0.0, "{x:?}");
    }
}

#[test]
fn is_sign_negative_agrees_with_the_numbers() {
    for x in samples() {
        assert_eq!(scalar(x).is_sign_negative(), x.is_sign_negative(), "{x:?}");
    }
}

#[test]
fn is_timestep_is_finite_and_not_below_zero() {
    for x in samples() {
        assert_eq!(scalar(x).is_timestep(), x.is_finite() && x >= 0.0, "{x:?}");
    }
    assert!(scalar(1.0 / 60.0).is_timestep());
    assert!(scalar(0.0).is_timestep());
    assert!(scalar(-0.0).is_timestep());
    assert!(!scalar(-1.0 / 60.0).is_timestep());
    assert!(!scalar(f32::INFINITY).is_timestep());
    assert!(!scalar(f32::NAN).is_timestep());
}

#[test]
fn clamp_to_epsilon_agrees_with_the_numbers() {
    for x in samples() {
        let expected = if x >= f32::EPSILON { x } else { f32::EPSILON };
        assert_eq!(scalar(x).clamp_to_epsilon().to_bits(), expected.to_bits(), "{x:?}");
    }
}

#[test]
fn clamp_to_epsilon_replaces_zero_negative_and_nan() {
    assert_eq!(scalar(0.0).clamp_to_epsilon().bits, EPSILON_BITS);
    assert_eq!(scalar(-0.0).clamp_to_epsilon().bits, EPSILON_BITS);
    assert_eq!(scalar(-100.0).clamp_to_epsilon().bits, EPSILON_BITS);
    assert_eq!(scalar(f32::NEG_INFINITY).clamp_to_epsilon().bits, EPSILON_BITS);
    assert_eq!(scalar(f32::NAN).clamp_to_epsilon().bits, EPSILON_BITS);
    assert_eq!(scalar(1.0e-9).clamp_to_epsilon().bits, EPSILON_BITS);
}

#[test]
fn clamp_to_epsilon_keeps_what_is_large_enough() {
    assert_eq!(scalar(100.0).clamp_to_epsilon(), scalar(100.0));
    assert_eq!(scalar(1.0).clamp_to_epsilon().bits, ONE_BITS);
    assert_eq!(scalar(f32::EPSILON).clamp_to_epsilon().bits, EPSILON_BITS);
    assert_eq!(scalar(f32::INFINITY).clamp_to_epsilon(), scalar(f32::INFINITY));
}

#[test]
fn clamp_to_epsilon_twice_is_once() {
    for x in samples() {
        let once = scalar(x).clamp_to_epsilon();
        assert_eq!(once.clamp_to_epsilon(), once);
        assert!(!once.is_nan());
        assert!(!once.is_zero());
        assert!(!once.is_sign_negative());
    }
}

#[test]
fn vector_is_finite_when_both_components_are() {
    let one = 1.0f32.to_bits();
    let inf = f32::INFINITY.to_bits();
    let nan = f32::NAN.to_bits();
    assert!(Vector2::from_bits(one, one).is_finite());
    assert!(!Vector2::from_bits(inf, one).is_finite());
    assert!(!Vector2::from_bits(one, nan).is_finite());
    assert!(!Vector2::from_bits(nan, inf).is_finite());
    assert!(Vector2::new_zero().is_finite());
    assert!(Vector2::new_one().is_finite());
}

#[test]
fn vector_constructors_hold_their_components() {
    let v = Vector2::new(scalar(3.0), scalar(-4.0));
    assert_eq!(f32::from_bits(v.x.bits), 3.0);
    assert_eq!(f32::from_bits(v.y.bits), -4.0);
    assert_eq!(Vector2::from_bits(7, 9), Vector2::new(Scalar::from_bits(7), Scalar::from_bits(9)));
    assert_eq!(Vector2::new_zero(), Vector2::from_bits(ZERO_BITS, ZERO_BITS));
    assert_eq!(Vector2::new_one(), Vector2::from_bits(ONE_BITS, ONE_BITS));
}
