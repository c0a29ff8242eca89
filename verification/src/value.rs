//! Decoding the three binary32 fields into the exact components of the
//! reconstruction formula, and combining the components into a value.
//!
//! The formula is `(-1)^sign * (1 + fraction/2^23) * 2^(exponent - 127)`.
//! Every intermediate value is a dyadic rational, so each is held exactly
//! as a plain integer under a fixed power-of-two scaling:
//! the mantissa value scaled by `2^23`, the exponent component by `2^127`,
//! and the combined value by `2^150`.
//!
//! The formula is applied to every field triple alike. For a biased
//! exponent of 0 (zero and subnormal patterns) it still assumes an implicit
//! leading 1 and the full bias, and for 255 (infinity and NaN patterns) it
//! yields a large finite value: those patterns decode to a well-defined but
//! numerically different value than IEEE-754 assigns them, by design.

use vstd::arithmetic::power2::lemma2_to64;
use vstd::arithmetic::power2::lemma_pow2_pos;
use vstd::arithmetic::power2::pow2;
use vstd::prelude::*;
use crate::parts::BitFields;
use crate::parts::spec_exponent;
use crate::parts::spec_fraction;
use crate::parts::spec_sign;

verus! {

/// The exponent bias of binary32: the decoded exponent is the stored
/// exponent minus this constant.
pub const BIAS: i32 = 127;

/// The width of the fraction field; the mantissa value carries a scaling
/// of two to this power.
pub const FRACTION_BITS: u32 = 23;

/// The decoded interpretation of a field triple, held exactly:
/// `sign_value * (mantissa_scaled / 2^23) * 2^unbiased_exponent`
/// is the value the reconstruction formula assigns to the triple.
pub struct DecodedValue {
    /// The sign component `(-1)^sign`: exactly `1` or `-1`.
    pub sign_value: i32,
    /// The stored exponent minus the bias, computed in a signed domain:
    /// the exponent component of the formula is 2 to this power, a
    /// fraction in (0, 1) when this is negative.
    pub unbiased_exponent: i32,
    /// The mantissa value `1 + fraction/2^23` scaled by `2^23`, which makes
    /// it the integer `2^23 + fraction`.
    pub mantissa_scaled: u32,
}

impl DecodedValue {
    /// Each component is in the range the formula can produce: the sign is
    /// one of its two values, the unbiased exponent comes from an 8-bit
    /// stored exponent, and the scaled mantissa carries the implicit
    /// leading 1 above 23 bits of fraction.
    pub open spec fn wf(self) -> bool {
        &&& (self.sign_value == 1 || self.sign_value == -1)
        &&& -127 <= self.unbiased_exponent <= 128
        &&& 0x80_0000 <= self.mantissa_scaled < 0x100_0000
    }
}

/// The combined value, held exactly as a dyadic rational
/// `sign_value * significand * 2^power_of_two`.
pub struct ReconstructedValue {
    /// Exactly `1` or `-1`.
    pub sign_value: i32,
    /// The integer significand: the mantissa value scaled by `2^23`.
    pub significand: u32,
    /// The power of two the significand is weighted by; at least `-150`,
    /// since the scaled mantissa and the bias together shift by no more.
    pub power_of_two: i32,
}

impl ReconstructedValue {
    /// The components are in range and the weight does not undershoot the
    /// combined scaling of mantissa and bias.
    pub open spec fn wf(self) -> bool {
        &&& (self.sign_value == 1 || self.sign_value == -1)
        &&& 0x80_0000 <= self.significand < 0x100_0000
        &&& -150 <= self.power_of_two <= 105
    }
}

/// The sign component of the formula, `(-1)^sign`, as an integer.
pub open spec fn spec_sign_value(sign: u32) -> int {
    if sign == 1 {
        -1
    } else {
        1
    }
}

/// The mantissa component of the formula, `1 + fraction/2^23`, scaled by
/// `2^23` to stay an integer.
pub open spec fn spec_mantissa_scaled(fraction: u32) -> int {
    0x80_0000 + fraction
}

/// The exponent component of the formula, `2^(exponent - 127)`, scaled by
/// `2^127` to stay an integer.
pub open spec fn spec_exponent_value_scaled(exponent: nat) -> int {
    pow2(exponent) as int
}

/// The value of a reconstruction, scaled by `2^150` to stay an integer:
/// the mantissa contributes a scaling of `2^23` and the exponent component
/// one of `2^127`.
pub open spec fn spec_value_scaled(r: ReconstructedValue) -> int
    recommends
        -150 <= r.power_of_two,
{
    r.sign_value * r.significand * pow2((r.power_of_two + 150) as nat)
}

/// The value the reconstruction formula assigns to a field triple, scaled
/// by `2^150`: `(-1)^sign * (2^23 + fraction) * 2^exponent`.
pub open spec fn spec_formula_value_scaled(sign: u32, exponent: u32, fraction: u32) -> int {
    spec_sign_value(sign) * spec_mantissa_scaled(fraction) * pow2(exponent as nat)
}

/// Decodes a field triple into the exact components of the reconstruction
/// formula. The mantissa is accumulated bit by bit, from the least
/// significant fraction bit (weight `2^-23`) to the most significant
/// (weight `2^-1`), on top of the implicit leading 1; under the `2^23`
/// scaling the bits add up to the fraction itself.
pub fn decode(p: &BitFields) -> (d: DecodedValue)
    requires
        p.wf(),
    ensures
        d.sign_value == spec_sign_value(p.sign),
        d.unbiased_exponent == p.exponent - BIAS,
        d.mantissa_scaled == spec_mantissa_scaled(p.fraction),
        d.wf(),
{
    let sign_value: i32 = if p.sign == 1 {
        -1
    } else {
        1
    };
    let unbiased_exponent: i32 = (p.exponent as i32) - BIAS;
    let fraction = p.fraction;
    // The implicit leading 1, scaled by 2^23.
    let mut mantissa_scaled: u32 = 0x80_0000;
    let mut i: u32 = 0;
    proof {
        assert(fraction & (((1u32 << 0u32) - 1) as u32) == 0) by (bit_vector);
    }
    while i < FRACTION_BITS
        invariant
            i <= 23,
            fraction < 0x80_0000,
            mantissa_scaled == 0x80_0000 + (fraction & (((1u32 << i) - 1) as u32)),
        decreases 23 - i,
    {
        let mask: u32 = 1 << i;
        let one_at_bit_i = fraction & mask;
        proof {
            assert(fraction & (((1u32 << ((i + 1) as u32)) - 1) as u32) == (fraction & (((1u32
                << i) - 1) as u32)) + (if fraction & (1u32 << i) != 0 {
                1u32 << i
            } else {
                0u32
            })) by (bit_vector)
                requires
                    i < 23u32,
            ;
            assert(fraction & (((1u32 << ((i + 1) as u32)) - 1) as u32)
                <= fraction) by (bit_vector);
        }
        if one_at_bit_i != 0 {
            // Bit i has weight 2^(i - 23); scaled by 2^23 that is the mask.
            mantissa_scaled = mantissa_scaled + mask;
        }
        i = i + 1;
    }
    proof {
        assert(fraction < 0x80_0000 ==> fraction & (((1u32 << 23u32) - 1) as u32)
            == fraction) by (bit_vector);
    }
    DecodedValue { sign_value, unbiased_exponent, mantissa_scaled }
}

/// Combines the three decoded components by multiplication,
/// `sign_value * mantissa_value * exponent_value`, kept exact: the product
/// is the significand weighted by a single power of two.
pub fn from_parts(sign_value: i32, unbiased_exponent: i32, mantissa_scaled: u32) -> (r:
    ReconstructedValue)
    requires
        sign_value == 1 || sign_value == -1,
        -127 <= unbiased_exponent <= 128,
        0x80_0000 <= mantissa_scaled < 0x100_0000,
    ensures
        r.sign_value == sign_value,
        r.significand == mantissa_scaled,
        r.power_of_two == unbiased_exponent - FRACTION_BITS,
        r.wf(),
        spec_value_scaled(r) == sign_value * mantissa_scaled * pow2(
            (unbiased_exponent + BIAS) as nat,
        ),
{
    ReconstructedValue {
        sign_value,
        significand: mantissa_scaled,
        power_of_two: unbiased_exponent - (FRACTION_BITS as i32),
    }
}

/// Runs the whole pipeline on a 32-bit pattern: split into fields, decode
/// the fields, combine the components. The reconstructed value equals, to
/// the last bit of its exact representation, the value the formula assigns
/// to the extracted fields.
pub fn dissect(bits: u32) -> (t: (BitFields, DecodedValue, ReconstructedValue))
    ensures
        t.0.sign == spec_sign(bits),
        t.0.exponent == spec_exponent(bits),
        t.0.fraction == spec_fraction(bits),
        t.0.wf(),
        t.1.sign_value == spec_sign_value(t.0.sign),
        t.1.unbiased_exponent == t.0.exponent - BIAS,
        t.1.mantissa_scaled == spec_mantissa_scaled(t.0.fraction),
        t.1.wf(),
        t.2.wf(),
        spec_value_scaled(t.2) == spec_formula_value_scaled(
            spec_sign(bits),
            spec_exponent(bits),
            spec_fraction(bits),
        ),
{
    let p = crate::parts::to_parts(bits);
    let d = decode(&p);
    let r = from_parts(d.sign_value, d.unbiased_exponent, d.mantissa_scaled);
    (p, d, r)
}

/// Round trip: a reconstruction whose components come from decoding the
/// fields of a pattern has exactly the value the formula assigns to those
/// fields. For patterns whose biased exponent is neither 0 nor 255 that
/// formula value is the IEEE-754 value of the pattern, so the round trip
/// through extraction and decoding loses nothing.
pub proof fn lemma_round_trip(bits: u32, r: ReconstructedValue)
    requires
        r.sign_value == spec_sign_value(spec_sign(bits)),
        r.significand == spec_mantissa_scaled(spec_fraction(bits)),
        r.power_of_two == spec_exponent(bits) - BIAS - FRACTION_BITS,
    ensures
        spec_value_scaled(r) == spec_formula_value_scaled(
            spec_sign(bits),
            spec_exponent(bits),
            spec_fraction(bits),
        ),
{
    assert((bits >> 23) & 0xff < 0x100) by (bit_vector);
}

/// The mantissa value is always in [1.0, 2.0): under the `2^23` scaling,
/// the scaled mantissa lies in [2^23, 2^24) for every 23-bit fraction.
pub proof fn lemma_mantissa_value_in_unit_range(fraction: u32)
    requires
        fraction < 0x80_0000,
    ensures
        pow2(23) <= spec_mantissa_scaled(fraction) < pow2(24),
{
    lemma2_to64();
}

/// The exponent component is strictly positive for every 8-bit stored
/// exponent: under the `2^127` scaling it is a power of two, never zero.
pub proof fn lemma_exponent_value_positive(exponent: u32)
    requires
        exponent < 0x100,
    ensures
        spec_exponent_value_scaled(exponent as nat) > 0,
{
    lemma_pow2_pos(exponent as nat);
}

} // verus!
