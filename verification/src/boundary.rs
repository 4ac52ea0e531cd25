//! The boundary that drives one multiplication call: decode both inputs,
//! multiply, encode the product into the caller's output buffer.

use vstd::prelude::*;

use crate::codec::{decoded_value, ffi_to_field_element, FFIScalar};
use crate::field::{field_order, lemma_reduced_factors, multiply, product_value};

verus! {

/// One multiplication across the boundary: decodes the two input buffers,
/// multiplies the elements modulo the field's order, and overwrites the
/// output buffer with the encoded product. The inputs are only read; the
/// old contents of the output buffer do not matter.
pub fn librustmonero_mul(s1: &FFIScalar, s2: &FFIScalar, result: &mut FFIScalar)
    ensures
        final(result).value() == product_value(
            decoded_value(s1.value()),
            decoded_value(s2.value()),
        ),
        final(result).value() == (s1.value() * s2.value()) % field_order(),
{
    let scalar1 = ffi_to_field_element(s1);
    let scalar2 = ffi_to_field_element(s2);

    let mul = multiply(&scalar1, &scalar2);

    proof {
        lemma_reduced_factors(s1.value(), s2.value());
    }
    *result = FFIScalar::from_field_element(mul);
}

} // verus!
