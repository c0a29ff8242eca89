//! Tests that run the library on concrete 32-bit patterns and hold the
//! exact results against native floating-point arithmetic.

use float_dissect::parts::{to_bits, to_parts, BitFields};
use float_dissect::value::{decode, dissect, from_parts, ReconstructedValue};

/// The reconstructed value rendered as an f64. Every reconstruction of a
/// 24-bit significand against a power of two in [-150, 105] is exactly
/// representable in f64, so the rendering is exact.
fn rendered(r: &ReconstructedValue) -> f64 {
    r.sign_value as f64 * r.significand as f64 * 2f64.powi(r.power_of_two)
}

fn dissect_value(v: f32) -> (BitFields, ReconstructedValue) {
    let (p, _, r) = dissect(v.to_bits());
    (p, r)
}

#[test]
fn one_decomposes_and_reconstructs() {
    let (p, r) = dissect_value(1.0);
    assert_eq!(p.sign, 0);
    assert_eq!(p.exponent, 127);
    assert_eq!(p.fraction, 0);
    assert_eq!(rendered(&r), 1.0);
}

#[test]
fn negative_two_decomposes_and_reconstructs() {
    let (p, r) = dissect_value(-2.0);
    assert_eq!(p.sign, 1);
    assert_eq!(p.exponent, 128);
    assert_eq!(p.fraction, 0);
    assert_eq!(rendered(&r), -2.0);
}

#[test]
fn half_decomposes_and_reconstructs() {
    let (p, r) = dissect_value(0.5);
    assert_eq!(p.sign, 0);
    assert_eq!(p.exponent, 126);
    assert_eq!(p.fraction, 0);
    assert_eq!(rendered(&r), 0.5);
}

#[test]
fn one_and_a_half_sets_the_top_fraction_bit() {
    let (p, r) = dissect_value(1.5);
    assert_eq!(p.sign, 0);
    assert_eq!(p.exponent, 127);
    assert_eq!(p.fraction, 1 << 22);
    let d = decode(&p);
    // mantissa value 1.5, scaled by 2^23
    assert_eq!(d.mantissa_scaled, 0xc0_0000);
    assert_eq!(rendered(&r), 1.5);
}

#[test]
fn round_trip_is_exact_on_normal_values() {
    let samples: [f32; 8] = [
        3.14159, -0.1, 42.5, 1.0e-30, -6.02e23, 0.333333, -1.0, 65536.75,
    ];
    for v in samples {
        let (_, r) = dissect_value(v);
        assert_eq!(rendered(&r), v as f64);
    }
}

#[test]
fn smallest_and_largest_normal_round_trip() {
    // biased exponent 1, fraction 0: 2^-126
    let (_, r) = dissect_value(f32::MIN_POSITIVE);
    assert_eq!(rendered(&r), f32::MIN_POSITIVE as f64);
    // biased exponent 254, fraction all ones
    let (_, r) = dissect_value(f32::MAX);
    assert_eq!(rendered(&r), f32::MAX as f64);
}

#[test]
fn fields_reassemble_to_the_original_pattern() {
    let patterns: [u32; 7] = [
        0,
        1,
        0x3f80_0000,
        0x7f7f_ffff,
        0x8000_0001,
        0xffff_ffff,
        0xdead_beef,
    ];
    for bits in patterns {
        let p = to_parts(bits);
        assert_eq!(to_bits(&p), bits);
    }
}

#[test]
fn every_in_range_triple_comes_from_some_pattern() {
    let triples: [(u32, u32, u32); 5] = [
        (0, 0, 0),
        (1, 255, 0x7f_ffff),
        (0, 127, 1),
        (1, 1, 0x40_0000),
        (0, 254, 0x12_3456),
    ];
    for (sign, exponent, fraction) in triples {
        let bits = to_bits(&BitFields { sign, exponent, fraction });
        let p = to_parts(bits);
        assert_eq!(p.sign, sign);
        assert_eq!(p.exponent, exponent);
        assert_eq!(p.fraction, fraction);
    }
}

#[test]
fn mantissa_value_stays_in_unit_range() {
    let fractions: [u32; 5] = [0, 1, 0x40_0000, 0x55_5555, 0x7f_ffff];
    for fraction in fractions {
        let d = decode(&BitFields { sign: 0, exponent: 127, fraction });
        let mantissa = d.mantissa_scaled as f64 / 2f64.powi(23);
        assert!((1.0..2.0).contains(&mantissa));
    }
}

#[test]
fn exponent_component_is_positive_for_every_stored_exponent() {
    for exponent in 0..=255u32 {
        let d = decode(&BitFields { sign: 0, exponent, fraction: 0 });
        assert_eq!(d.unbiased_exponent, exponent as i32 - 127);
        assert!(2f64.powi(d.unbiased_exponent) > 0.0);
    }
}

#[test]
fn mantissa_accumulates_each_set_bit() {
    // fraction with bits 22 and 21 set: mantissa 1 + 1/2 + 1/4 = 1.75
    let fraction = (1 << 22) | (1 << 21);
    let d = decode(&BitFields { sign: 0, exponent: 127, fraction });
    assert_eq!(d.mantissa_scaled, 0x80_0000 + fraction);
    assert_eq!(d.mantissa_scaled as f64 / 2f64.powi(23), 1.75);
}

#[test]
fn combine_multiplies_the_three_components() {
    let r = from_parts(-1, 3, 0xc0_0000);
    // -1 * 1.5 * 2^3
    assert_eq!(rendered(&r), -12.0);
    assert_eq!(r.sign_value, -1);
    assert_eq!(r.significand, 0xc0_0000);
    assert_eq!(r.power_of_two, 3 - 23);
}

#[test]
fn zero_pattern_reconstructs_to_the_formula_value() {
    // The formula keeps the implicit leading 1 and the full bias even for
    // the all-zero pattern, so 0.0 reconstructs to 2^-127, not 0.
    let (p, r) = dissect_value(0.0);
    assert_eq!((p.sign, p.exponent, p.fraction), (0, 0, 0));
    assert_eq!(rendered(&r), 2f64.powi(-127));
}

#[test]
fn subnormal_pattern_reconstructs_to_the_formula_value() {
    // Smallest positive subnormal: biased exponent 0, fraction 1. The
    // formula assigns (1 + 2^-23) * 2^-127, not the IEEE-754 2^-149.
    let (p, r) = dissect_value(f32::from_bits(1));
    assert_eq!((p.sign, p.exponent, p.fraction), (0, 0, 1));
    assert_eq!(rendered(&r), (1.0 + 2f64.powi(-23)) * 2f64.powi(-127));
}

#[test]
fn infinity_pattern_reconstructs_to_a_large_finite_value() {
    // Biased exponent 255, fraction 0: the formula gives 2^128, finite.
    let (p, r) = dissect_value(f32::INFINITY);
    assert_eq!((p.sign, p.exponent, p.fraction), (0, 255, 0));
    assert_eq!(rendered(&r), 2f64.powi(128));
}

#[test]
fn negative_zero_keeps_its_sign() {
    let (p, r) = dissect_value(-0.0);
    assert_eq!((p.sign, p.exponent, p.fraction), (1, 0, 0));
    assert_eq!(rendered(&r), -(2f64.powi(-127)));
}
