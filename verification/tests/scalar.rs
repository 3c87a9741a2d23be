//! Scalars against the numbers whose bits they hold.

use iced_taffy::scalar::Scalar;
use iced_taffy::scalar::INFINITY_BITS;
use iced_taffy::scalar::ONE_BITS;

fn scalar(value: f32) -> Scalar {
    Scalar::from_bits(value.to_bits())
}

fn sample() -> Vec<u32> {
    let mut bits = Vec::new();
    let mut state: u32 = 0x2545_f491;
    // Every exponent with a few fractions, both signs.
    for exponent in 0u32..=255 {
        for fraction in [0u32, 1, 0x40_0000, 0x3f_ffff, 0x40_0001, 0x7f_ffff, 0x20_0000, 0x60_0000] {
            bits.push((exponent << 23) | fraction);
            bits.push(0x8000_0000 | (exponent << 23) | fraction);
        }
        for _ in 0..64 {
            state = state.wrapping_mul(1_664_525).wrapping_add(1_013_904_223);
            bits.push((state & 0x807f_ffff) | (exponent << 23));
        }
    }
    // Halves and their neighbours, where a tie is decided.
    for whole in 0u32..2000 {
        let half = whole as f32 + 0.5;
        for value in [half, -half] {
            bits.push(value.to_bits());
            bits.push(value.to_bits() + 1);
            bits.push(value.to_bits() - 1);
        }
    }
    bits
}

#[test]
fn round_gives_the_bits_of_the_rounded_number() {
    for bits in sample() {
        let value = f32::from_bits(bits);
        if value.is_nan() {
            continue;
        }
        let rounded = Scalar::from_bits(bits).round();
        assert_eq!(rounded.to_bits(), value.round().to_bits(), "rounding {value:?} ({bits:#x})");
    }
}

#[test]
fn round_at_exact_values() {
    assert_eq!(scalar(0.0).round(), scalar(0.0));
    assert_eq!(scalar(-0.0).round().to_bits(), 0x8000_0000);
    assert_eq!(scalar(0.49999997).round(), scalar(0.0));
    assert_eq!(scalar(-0.3).round().to_bits(), 0x8000_0000);
    assert_eq!(scalar(0.5).round().to_bits(), ONE_BITS);
    assert_eq!(scalar(-0.5).round(), scalar(-1.0));
    assert_eq!(scalar(1.5).round(), scalar(2.0));
    assert_eq!(scalar(2.5).round(), scalar(3.0));
    assert_eq!(scalar(-2.5).round(), scalar(-3.0));
    assert_eq!(scalar(10.5).round(), scalar(11.0));
    assert_eq!(scalar(20.25).round(), scalar(20.0));
    assert_eq!(scalar(100.0).round(), scalar(100.0));
    assert_eq!(scalar(8388607.5).round(), scalar(8388608.0));
    assert_eq!(scalar(16777215.0).round(), scalar(16777215.0));
    assert_eq!(scalar(3.0e9).round(), scalar(3.0e9));
    assert_eq!(scalar(1.0e-40).round(), scalar(0.0));
}

#[test]
fn round_keeps_what_is_not_finite() {
    assert_eq!(scalar(f32::INFINITY).round().to_bits(), INFINITY_BITS);
    assert_eq!(scalar(f32::NEG_INFINITY).round(), scalar(f32::NEG_INFINITY));
    assert_eq!(Scalar::from_bits(0x7fc0_0001).round().to_bits(), 0x7fc0_0001);
    assert_eq!(Scalar::from_bits(0xffa0_0000).round().to_bits(), 0xffa0_0000);
}

#[test]
fn rounding_twice_is_rounding_once() {
    for bits in sample() {
        let once = Scalar::from_bits(bits).round();
        assert_eq!(once.round(), once, "{bits:#x}");
    }
}

#[test]
fn finite_and_nan_follow_the_number() {
    for bits in sample() {
        let value = f32::from_bits(bits);
        assert_eq!(Scalar::from_bits(bits).is_finite(), value.is_finite(), "{bits:#x}");
        assert_eq!(Scalar::from_bits(bits).is_nan(), value.is_nan(), "{bits:#x}");
    }
    assert!(Scalar::zero().is_finite());
    assert!(!Scalar::infinity().is_finite());
    assert!(!Scalar::infinity().is_nan());
    assert!(!scalar(f32::NEG_INFINITY).is_finite());
    assert!(scalar(f32::NAN).is_nan());
    assert!(scalar(f32::MAX).is_finite());
}

#[test]
fn equals_follows_the_comparison_of_the_numbers() {
    let values = [
        0.0f32,
        -0.0,
        1.0,
        -1.0,
        100.0,
        f32::INFINITY,
        f32::NEG_INFINITY,
        f32::NAN,
        f32::MIN_POSITIVE,
        1.0e-40,
    ];
    for left in values {
        for right in values {
            assert_eq!(scalar(left).equals(scalar(right)), left == right, "{left:?} == {right:?}");
        }
    }
    // The two zeros are one number and two scalars.
    assert!(scalar(0.0).equals(scalar(-0.0)));
    assert_ne!(scalar(0.0), scalar(-0.0));
    // A NaN is a scalar like any other and no number at all.
    assert_eq!(scalar(f32::NAN), scalar(f32::NAN));
    assert!(!scalar(f32::NAN).equals(scalar(f32::NAN)));
}

#[test]
fn bits_go_in_and_come_out() {
    for bits in [0u32, 1, 0x3f80_0000, 0x7f80_0000, 0x8000_0000, 0xffff_ffff] {
        assert_eq!(Scalar::from_bits(bits).to_bits(), bits);
        assert_eq!(Scalar::from_bits(bits).bits, bits);
    }
    assert_eq!(Scalar::zero().to_bits(), 0.0f32.to_bits());
    assert_eq!(Scalar::infinity().to_bits(), f32::INFINITY.to_bits());
}
