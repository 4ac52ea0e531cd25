//! The codec between the raw interchange buffer and a canonical field
//! element.
//!
//! A buffer carries four 64-bit little-endian limbs and is not checked for
//! canonicity: decoding follows the field library's own reconstruction rule,
//! which takes the buffer's integer value modulo the field's order, so a
//! buffer at or above the order aliases the congruent canonical element.

use vstd::arithmetic::div_mod::lemma_small_mod;
use vstd::prelude::*;

use pasta_curves::group::ff::PrimeField;

use crate::field::{field_order, lemma_value_determines_element, limbs_value, ScalarFieldElement};

verus! {

/// The canonical value that decoding a buffer of the given integer value
/// yields: the buffer's value reduced modulo the field's order.
pub open spec fn decoded_value(buffer_value: nat) -> nat {
    buffer_value % field_order()
}

/// The raw buffer that crosses the call boundary: four 64-bit little-endian
/// limbs, 256 bits with no padding. Any bit pattern is
/// representable; nothing here promises the value lies below the field's
/// order.
#[derive(Clone, Copy)]
pub struct FFIScalar(pub(crate) [u64; 4]);

impl FFIScalar {
    /// The integer the buffer's limbs stand for.
    pub closed spec fn value(&self) -> nat {
        limbs_value(self.0)
    }

    /// Wraps four little-endian limbs as a raw buffer.
    pub fn new(limbs: [u64; 4]) -> (r: Self)
        ensures
            r.value() == limbs_value(limbs),
    {
        FFIScalar(limbs)
    }

    /// Hands out the buffer's four little-endian limbs.
    pub fn limbs(&self) -> (r: [u64; 4])
        ensures
            limbs_value(r) == self.value(),
    {
        self.0
    }

    /// Encodes a field element as the raw buffer that decodes back to it:
    /// the element's own canonical limbs, bit for bit.
    pub fn from_field_element(element: ScalarFieldElement) -> (r: Self)
        ensures
            r.value() == element.value(),
    {
        FFIScalar(element.limb_array())
    }
}

/// Relies on `pasta_curves::Fq`: `Fq::from_raw` reinterprets four
/// little-endian limbs as the congruent field element, and
/// `ff::PrimeField::to_repr` hands that element back as its canonical
/// little-endian byte representation.
#[verifier::external_body]
fn reduce_limbs(l: &[u64; 4]) -> (r: [u64; 4])
    ensures
        limbs_value(r) == limbs_value(*l) % field_order(),
        limbs_value(r) < field_order(),
{
    let repr = pasta_curves::Fq::from_raw(*l).to_repr();
    [
        u64::from_le_bytes(repr[0..8].try_into().unwrap()),
        u64::from_le_bytes(repr[8..16].try_into().unwrap()),
        u64::from_le_bytes(repr[16..24].try_into().unwrap()),
        u64::from_le_bytes(repr[24..32].try_into().unwrap()),
    ]
}

/// Decodes a raw buffer into the canonical field element it denotes: the
/// buffer's integer value reduced modulo the field's order. A canonical
/// buffer decodes to exactly its own value; no rejection path exists.
pub fn ffi_to_field_element(scalar: &FFIScalar) -> (r: ScalarFieldElement)
    ensures
        r.wf(),
        r.value() == decoded_value(scalar.value()),
{
    ScalarFieldElement::from_limbs(reduce_limbs(&scalar.0))
}

/// Round trip: the buffer that encodes a canonical field element decodes
/// back to that element itself. `x` is the element that was encoded and `y`
/// any element carrying the decoded value of `x`'s buffer, which is what
/// `ffi_to_field_element` returns on `from_field_element`'s output.
pub proof fn lemma_round_trip(x: ScalarFieldElement, y: ScalarFieldElement)
    requires
        x.wf(),
        y.value() == decoded_value(x.value()),
    ensures
        y == x,
{
    lemma_small_mod(x.value(), field_order());
    lemma_value_determines_element(x, y);
}

} // verus!
