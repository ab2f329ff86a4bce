use trieve_server::score::{is_at_least, is_less, is_not_a_number, ONE_BITS, ZERO_BITS};

fn samples() -> Vec<f32> {
    vec![
        0.0,
        -0.0,
        1.0,
        -1.0,
        0.5,
        0.95,
        0.97,
        0.999_999_9,
        1.000_000_1,
        f32::MIN_POSITIVE,
        f32::MAX,
        f32::MIN,
        f32::INFINITY,
        f32::NEG_INFINITY,
        f32::NAN,
        f32::from_bits(1),
        f32::from_bits(0x8000_0001),
        f32::from_bits(0xffc0_0000),
    ]
}

#[test]
fn constants_are_the_patterns_of_zero_and_one() {
    assert_eq!(ONE_BITS, 1.0f32.to_bits());
    assert_eq!(ZERO_BITS, 0.0f32.to_bits());
}

#[test]
fn less_agrees_with_the_hardware_order() {
    for a in samples() {
        for b in samples() {
            assert_eq!(is_less(a.to_bits(), b.to_bits()), a < b, "{} < {}", a, b);
        }
    }
}

#[test]
fn at_least_agrees_with_the_hardware_order() {
    for a in samples() {
        for b in samples() {
            assert_eq!(is_at_least(a.to_bits(), b.to_bits()), a >= b, "{} >= {}", a, b);
        }
    }
}

#[test]
fn nan_is_recognised() {
    for a in samples() {
        assert_eq!(is_not_a_number(a.to_bits()), a.is_nan());
    }
}

#[test]
fn one_is_not_below_one() {
    assert!(!is_less(ONE_BITS, ONE_BITS));
    assert!(is_at_least(ONE_BITS, ONE_BITS));
    assert!(is_less(0.95f32.to_bits(), ONE_BITS));
}
