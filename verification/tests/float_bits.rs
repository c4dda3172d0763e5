use nice_plug_slint::float_bits::{
    finite_and_greater_than_zero, from_u32, greater_than_zero, to_u32, INFINITY, ONE, SIGN,
};

fn samples() -> Vec<f64> {
    vec![
        0.0,
        -0.0,
        0.25,
        0.999_999_999_999_999_9,
        1.0,
        1.5,
        1.75,
        2.0,
        2.999_999_9,
        320.0,
        320.75,
        65_535.5,
        4_294_967_294.999,
        4_294_967_295.0,
        4_294_967_295.999,
        4_294_967_296.0,
        1e15,
        4_503_599_627_370_496.0,
        9_007_199_254_740_993.0,
        1e300,
        f64::MAX,
        f64::MIN_POSITIVE,
        f64::from_bits(1),
        f64::INFINITY,
        f64::NEG_INFINITY,
        f64::NAN,
        -f64::NAN,
        -0.5,
        -1.0,
        -320.0,
        f64::MIN,
    ]
}

#[test]
fn constants_are_the_patterns_they_name() {
    assert_eq!(ONE, 1.0f64.to_bits());
    assert_eq!(INFINITY, f64::INFINITY.to_bits());
    assert_eq!(SIGN, (-0.0f64).to_bits());
}

#[test]
fn cast_to_u32_agrees_with_the_language() {
    for x in samples() {
        assert_eq!(to_u32(x.to_bits()), x as u32, "{x}");
    }
    let mut x: f64 = 0.000_123;
    while x < 1e12 {
        assert_eq!(to_u32(x.to_bits()), x as u32, "{x}");
        x = x * 1.37 + 0.11;
    }
}

#[test]
fn cast_to_u32_truncates_and_saturates() {
    assert_eq!(to_u32(320.75f64.to_bits()), 320);
    assert_eq!(to_u32(f64::NAN.to_bits()), 0);
    assert_eq!(to_u32((-5.0f64).to_bits()), 0);
    assert_eq!(to_u32(f64::INFINITY.to_bits()), u32::MAX);
    assert_eq!(to_u32(5e9f64.to_bits()), u32::MAX);
}

#[test]
fn comparison_with_zero_agrees_with_the_language() {
    for x in samples() {
        assert_eq!(greater_than_zero(x.to_bits()), x > 0.0, "{x}");
        assert_eq!(
            finite_and_greater_than_zero(x.to_bits()),
            x.is_finite() && x > 0.0,
            "{x}"
        );
    }
}

#[test]
fn from_u32_agrees_with_the_language() {
    for n in [0, 1, 2, 3, 200, 320, 400, 65_535, 65_536, 1 << 31, u32::MAX - 1, u32::MAX] {
        assert_eq!(from_u32(n), (n as f64).to_bits(), "{n}");
    }
}

#[test]
fn whole_number_survives_both_casts() {
    for n in [0, 1, 7, 320, 1_000_003, u32::MAX] {
        assert_eq!(to_u32(from_u32(n)), n);
    }
}
