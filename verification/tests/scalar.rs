use raytracer::scalar::{Scalar, FRACTION_LIMIT, INFINITY, SIGN_BIT};

fn num(x: f64) -> Scalar {
    Scalar::from_bits(x.to_bits()).unwrap()
}

fn ladder() -> Vec<f64> {
    vec![
        f64::MIN,
        -1.0e300,
        -2.0,
        -1.9,
        -1.0,
        -0.001,
        -f64::MIN_POSITIVE,
        -5.0e-324,
        -0.0,
        0.0,
        5.0e-324,
        1.0e-320,
        f64::MIN_POSITIVE,
        f64::EPSILON,
        0.0009,
        0.001,
        0.5,
        1.0,
        1.0 + f64::EPSILON,
        1.9,
        2.0,
        90.0,
        1.0e300,
        f64::MAX,
    ]
}

#[test]
fn constants_are_the_binary64_fields() {
    assert_eq!(SIGN_BIT, (-0.0f64).to_bits());
    assert_eq!(INFINITY, f64::INFINITY.to_bits());
    assert_eq!(FRACTION_LIMIT, 1u64 << 52);
}

#[test]
fn from_bits_takes_every_finite_number() {
    for x in ladder() {
        let s = Scalar::from_bits(x.to_bits());
        assert!(s.is_some());
        assert_eq!(s.unwrap().to_bits(), x.to_bits());
    }
}

#[test]
fn from_bits_refuses_infinities_and_nans() {
    assert_eq!(Scalar::from_bits(f64::INFINITY.to_bits()), None);
    assert_eq!(Scalar::from_bits(f64::NEG_INFINITY.to_bits()), None);
    assert_eq!(Scalar::from_bits(f64::NAN.to_bits()), None);
    assert_eq!(Scalar::from_bits((-f64::NAN).to_bits()), None);
    assert_eq!(Scalar::from_bits(0x7FF0_0000_0000_0001), None);
    assert_eq!(Scalar::from_bits(0xFFFF_FFFF_FFFF_FFFF), None);
    assert!(Scalar::from_bits(0x7FEF_FFFF_FFFF_FFFF).is_some());
    assert!(Scalar::from_bits(0xFFEF_FFFF_FFFF_FFFF).is_some());
}

#[test]
fn zero_is_positive_zero() {
    assert_eq!(Scalar::zero().to_bits(), 0);
    assert_eq!(Scalar::zero(), num(0.0));
    assert_ne!(Scalar::zero(), num(-0.0));
}

#[test]
fn is_zero_holds_of_both_zeros_only() {
    assert!(num(0.0).is_zero());
    assert!(num(-0.0).is_zero());
    assert!(!num(5.0e-324).is_zero());
    assert!(!num(-5.0e-324).is_zero());
    assert!(!num(1.0).is_zero());
}

#[test]
fn lt_is_the_order_of_the_numbers() {
    let xs = ladder();
    for &a in &xs {
        for &b in &xs {
            assert_eq!(num(a).lt(num(b)), a < b);
        }
    }
}

#[test]
fn le_is_the_order_of_the_numbers() {
    let xs = ladder();
    for &a in &xs {
        for &b in &xs {
            assert_eq!(num(a).le(num(b)), a <= b);
        }
    }
}

#[test]
fn the_two_zeros_are_equal_in_order() {
    assert!(!num(-0.0).lt(num(0.0)));
    assert!(!num(0.0).lt(num(-0.0)));
    assert!(num(-0.0).le(num(0.0)));
    assert!(num(0.0).le(num(-0.0)));
}

#[test]
fn abs_drops_the_sign() {
    for x in ladder() {
        assert_eq!(num(x).abs().to_bits(), x.abs().to_bits());
    }
    assert_eq!(num(-1.9).abs(), num(1.9));
    assert_eq!(num(-0.0).abs(), num(0.0));
}

#[test]
fn min_and_max_pick_by_value() {
    assert_eq!(num(1.9).min(num(2.0)), num(1.9));
    assert_eq!(num(2.0).min(num(1.9)), num(1.9));
    assert_eq!(num(-3.0).min(num(2.0)), num(-3.0));
    assert_eq!(num(1.9).max(num(2.0)), num(2.0));
    assert_eq!(num(2.0).max(num(1.9)), num(2.0));
    assert_eq!(num(-3.0).max(num(-4.0)), num(-3.0));
}

#[test]
fn min_and_max_keep_the_first_of_equals() {
    assert_eq!(num(0.0).min(num(-0.0)).to_bits(), 0.0f64.to_bits());
    assert_eq!(num(-0.0).min(num(0.0)).to_bits(), (-0.0f64).to_bits());
    assert_eq!(num(0.0).max(num(-0.0)).to_bits(), 0.0f64.to_bits());
    assert_eq!(num(-0.0).max(num(0.0)).to_bits(), (-0.0f64).to_bits());
}
