//! Anatomy of an IEEE-754 binary32 number.
//!
//! The library splits a 32-bit pattern into its sign, biased-exponent and
//! fraction fields, decodes the fields into the exact components of the
//! reconstruction formula `(-1)^sign * (1 + fraction/2^23) * 2^(exponent - 127)`,
//! and recombines the components into the reconstructed value.
//!
//! Floating-point arithmetic is inexact, so the decoded components are held
//! as plain integers under fixed power-of-two scalings, which represent every
//! intermediate value of the formula exactly; rendering them as native
//! floating-point numbers is left to the caller.

pub mod parts;
pub mod value;
