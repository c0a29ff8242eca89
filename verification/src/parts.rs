//! Splitting a 32-bit pattern into the three binary32 fields, and putting
//! the fields back together.

use vstd::prelude::*;

verus! {

/// The three fields of an IEEE-754 binary32 pattern: 1 sign bit, 8 bits of
/// biased exponent, 23 bits of stored fraction. Together they cover all 32
/// bits of the pattern; no bit is counted twice or dropped.
pub struct BitFields {
    /// The top bit of the pattern: 0 for positive, 1 for negative.
    pub sign: u32,
    /// Bits 23..=30 of the pattern: the exponent as stored, bias 127.
    pub exponent: u32,
    /// The low 23 bits of the pattern: the stored mantissa bits, with an
    /// implicit leading 1 under the normal-number convention.
    pub fraction: u32,
}

impl BitFields {
    /// Each field fits its declared width: sign in 1 bit, exponent in 8,
    /// fraction in 23.
    pub open spec fn wf(self) -> bool {
        self.sign < 2 && self.exponent < 0x100 && self.fraction < 0x80_0000
    }
}

/// The sign field of a pattern: the top bit.
pub open spec fn spec_sign(bits: u32) -> u32 {
    (bits >> 31) & 1
}

/// The biased-exponent field of a pattern: bits 23..=30.
pub open spec fn spec_exponent(bits: u32) -> u32 {
    (bits >> 23) & 0xff
}

/// The fraction field of a pattern: the low 23 bits.
pub open spec fn spec_fraction(bits: u32) -> u32 {
    bits & 0x7f_ffff
}

/// A pattern reassembled from field values: sign in the top bit, exponent
/// in bits 23..=30, fraction in the low 23 bits.
pub open spec fn spec_assemble(sign: u32, exponent: u32, fraction: u32) -> u32 {
    (sign << 31) | (exponent << 23) | fraction
}

/// Splits a 32-bit pattern into its sign, biased-exponent and fraction
/// fields. Every pattern is a valid input and decomposes deterministically.
pub fn to_parts(bits: u32) -> (p: BitFields)
    ensures
        p.sign == spec_sign(bits),
        p.exponent == spec_exponent(bits),
        p.fraction == spec_fraction(bits),
        p.wf(),
{
    let sign = (bits >> 31) & 1;
    let exponent = (bits >> 23) & 0xff;
    let fraction = bits & 0x7f_ffff;
    proof {
        assert((bits >> 31) & 1 < 2 && (bits >> 23) & 0xff < 0x100 && bits & 0x7f_ffff
            < 0x80_0000) by (bit_vector);
    }
    BitFields { sign, exponent, fraction }
}

/// Reassembles the pattern whose fields are `p`: the inverse of `to_parts`.
pub fn to_bits(p: &BitFields) -> (bits: u32)
    requires
        p.wf(),
    ensures
        bits == spec_assemble(p.sign, p.exponent, p.fraction),
{
    (p.sign << 31) | (p.exponent << 23) | p.fraction
}

/// One direction of the bijection between 32-bit patterns and in-range field
/// triples: reassembling the extracted fields gives back the original
/// pattern, so extraction drops no bit and maps distinct patterns to
/// distinct triples.
pub proof fn lemma_assemble_extract(bits: u32)
    ensures
        spec_assemble(spec_sign(bits), spec_exponent(bits), spec_fraction(bits)) == bits,
{
    assert(spec_assemble(spec_sign(bits), spec_exponent(bits), spec_fraction(bits))
        == bits) by (bit_vector);
}

/// The other direction of the bijection: extracting from a reassembled
/// pattern gives back the fields, for every triple within the declared
/// ranges, so every in-range triple is the decomposition of some pattern.
pub proof fn lemma_extract_assemble(sign: u32, exponent: u32, fraction: u32)
    requires
        sign < 2,
        exponent < 0x100,
        fraction < 0x80_0000,
    ensures
        spec_sign(spec_assemble(sign, exponent, fraction)) == sign,
        spec_exponent(spec_assemble(sign, exponent, fraction)) == exponent,
        spec_fraction(spec_assemble(sign, exponent, fraction)) == fraction,
{
    assert(spec_sign(spec_assemble(sign, exponent, fraction)) == sign
        && spec_exponent(spec_assemble(sign, exponent, fraction)) == exponent
        && spec_fraction(spec_assemble(sign, exponent, fraction)) == fraction) by (bit_vector)
        requires
            sign < 2,
            exponent < 0x100,
            fraction < 0x80_0000,
    ;
}

} // verus!
