//! Multiplication in the Pallas scalar field behind a fixed interchange
//! format of four little-endian 64-bit limbs.
//!
//! The crate has three parts: a codec that converts between the raw limb
//! buffer and a canonical field element, a multiplier that computes products
//! modulo the field's order by delegating the arithmetic to `pasta_curves`,
//! and a boundary function that drives decode, multiply and encode for one
//! call.

pub mod boundary;
pub mod codec;
pub mod field;
