//! The Pallas scalar field: its modulus, the value of a four-limb
//! little-endian representation, and multiplication modulo the order.

use vstd::arithmetic::div_mod::{
    lemma_fundamental_div_mod_converse_div, lemma_fundamental_div_mod_converse_mod,
    lemma_mod_multiples_vanish, lemma_mul_mod_noop, lemma_mul_mod_noop_left,
    lemma_mul_mod_noop_right, lemma_small_mod,
};
use vstd::arithmetic::mul::lemma_mul_is_associative;
use vstd::prelude::*;

use pasta_curves::group::ff::PrimeField;

verus! {

/// The order of the Pallas scalar field: the modulus of every value the
/// crate computes with.
pub open spec fn field_order() -> nat {
    0x40000000000000000000000000000000224698fc0994a8dd8c46eb2100000001nat
}

/// The integer that four 64-bit limbs in little-endian order stand for.
pub open spec fn limbs_value(l: [u64; 4]) -> nat {
    (l[0] as nat) + (l[1] as nat) * 0x10000000000000000nat + (l[2] as nat)
        * 0x100000000000000000000000000000000nat + (l[3] as nat)
        * 0x1000000000000000000000000000000000000000000000000nat
}

/// The product of two field values, reduced modulo the field's order.
pub open spec fn product_value(a: nat, b: nat) -> nat {
    (a * b) % field_order()
}

/// A canonical element of the Pallas scalar field, held as four little-endian
/// 64-bit limbs whose value lies below the field's order.
pub struct ScalarFieldElement {
    pub(crate) limbs: [u64; 4],
}

impl ScalarFieldElement {
    /// The integer this element stands for.
    pub closed spec fn value(&self) -> nat {
        limbs_value(self.limbs)
    }

    /// A well-formed element is canonical: its value lies below the order.
    pub open spec fn wf(&self) -> bool {
        self.value() < field_order()
    }

    /// Wraps four little-endian limbs as the element they stand for.
    pub(crate) fn from_limbs(l: [u64; 4]) -> (r: Self)
        ensures
            r.value() == limbs_value(l),
    {
        ScalarFieldElement { limbs: l }
    }

    /// Hands out the element's four little-endian limbs.
    pub(crate) fn limb_array(&self) -> (r: [u64; 4])
        ensures
            limbs_value(r) == self.value(),
    {
        self.limbs
    }
}

/// Relies on `pasta_curves::Fq`: `Fq::from_raw` reinterprets four
/// little-endian limbs as the congruent field element, the `Mul` impl
/// computes the product modulo the field's order, and
/// `ff::PrimeField::to_repr` hands the result back as its canonical
/// little-endian byte representation.
#[verifier::external_body]
fn mul_limbs(a: &[u64; 4], b: &[u64; 4]) -> (r: [u64; 4])
    ensures
        limbs_value(r) == (limbs_value(*a) * limbs_value(*b)) % field_order(),
        limbs_value(r) < field_order(),
{
    let prod = pasta_curves::Fq::from_raw(*a) * pasta_curves::Fq::from_raw(*b);
    let repr = prod.to_repr();
    [
        u64::from_le_bytes(repr[0..8].try_into().unwrap()),
        u64::from_le_bytes(repr[8..16].try_into().unwrap()),
        u64::from_le_bytes(repr[16..24].try_into().unwrap()),
        u64::from_le_bytes(repr[24..32].try_into().unwrap()),
    ]
}

/// Multiplies two field elements modulo the field's order. Multiplication is
/// closed over the field, so the result is always a canonical element.
pub fn multiply(a: &ScalarFieldElement, b: &ScalarFieldElement) -> (r: ScalarFieldElement)
    ensures
        r.wf(),
        r.value() == product_value(a.value(), b.value()),
{
    ScalarFieldElement { limbs: mul_limbs(&a.limbs, &b.limbs) }
}

/// Multiplication in the field is commutative.
pub proof fn lemma_product_commutes(a: nat, b: nat)
    ensures
        product_value(a, b) == product_value(b, a),
{
    vstd::arithmetic::mul::lemma_mul_is_commutative(a as int, b as int);
}

/// Multiplication in the field is associative.
pub proof fn lemma_product_associates(a: nat, b: nat, c: nat)
    ensures
        product_value(product_value(a, b), c) == product_value(a, product_value(b, c)),
{
    let p = field_order() as int;
    lemma_mul_mod_noop_left(a as int * b as int, c as int, p);
    lemma_mul_mod_noop_right(a as int, b as int * c as int, p);
    lemma_mul_is_associative(a as int, b as int, c as int);
}

/// One is the multiplicative identity: multiplying a canonical element by it
/// gives that element back.
pub proof fn lemma_one_identity(a: nat)
    requires
        a < field_order(),
    ensures
        product_value(a, 1) == a,
{
    lemma_small_mod(a, field_order());
}

/// Zero absorbs: multiplying any field value by it gives zero.
pub proof fn lemma_zero_absorbs(a: nat)
    ensures
        product_value(a, 0) == 0,
{
    lemma_small_mod(0, field_order());
}

/// The largest canonical element squares to one: the order less one is
/// congruent to minus one, and its square is congruent to one.
pub proof fn lemma_top_element_squares_to_one()
    ensures
        product_value((field_order() - 1) as nat, (field_order() - 1) as nat) == 1,
{
    let p = field_order() as int;
    assert((p - 1) * (p - 1) == p * (p - 2) + 1) by (nonlinear_arith);
    lemma_mod_multiples_vanish(p - 2, 1, p);
    lemma_small_mod(1, field_order());
}

/// The four-limb little-endian representation is positional and therefore
/// unique: two limb arrays with one value are one array.
pub proof fn lemma_limbs_value_injective(a: [u64; 4], b: [u64; 4])
    requires
        limbs_value(a) == limbs_value(b),
    ensures
        a == b,
{
    broadcast use vstd::array::group_array_axioms;

    let base = 0x10000000000000000int;
    let v: int = limbs_value(a) as int;
    let qa: int = a[1] + a[2] * base + a[3] * base * base;
    let qb: int = b[1] + b[2] * base + b[3] * base * base;
    lemma_fundamental_div_mod_converse_mod(v, base, qa, a[0] as int);
    lemma_fundamental_div_mod_converse_mod(v, base, qb, b[0] as int);
    lemma_fundamental_div_mod_converse_div(v, base, qa, a[0] as int);
    lemma_fundamental_div_mod_converse_div(v, base, qb, b[0] as int);
    lemma_fundamental_div_mod_converse_mod(qa, base, a[2] + a[3] * base, a[1] as int);
    lemma_fundamental_div_mod_converse_mod(qb, base, b[2] + b[3] * base, b[1] as int);
    lemma_fundamental_div_mod_converse_div(qa, base, a[2] + a[3] * base, a[1] as int);
    lemma_fundamental_div_mod_converse_div(qb, base, b[2] + b[3] * base, b[1] as int);
    lemma_fundamental_div_mod_converse_mod(a[2] + a[3] * base, base, a[3] as int, a[2] as int);
    lemma_fundamental_div_mod_converse_mod(b[2] + b[3] * base, base, b[3] as int, b[2] as int);
    lemma_fundamental_div_mod_converse_div(a[2] + a[3] * base, base, a[3] as int, a[2] as int);
    lemma_fundamental_div_mod_converse_div(b[2] + b[3] * base, base, b[3] as int, b[2] as int);
    assert(a =~= b);
}

/// An element is determined by its value: the codec is lossless at the level
/// of whole elements, not only of their integer values.
pub proof fn lemma_value_determines_element(x: ScalarFieldElement, y: ScalarFieldElement)
    requires
        x.value() == y.value(),
    ensures
        x == y,
{
    lemma_limbs_value_injective(x.limbs, y.limbs);
}

/// Reducing both factors modulo the order before multiplying does not change
/// the reduced product.
pub proof fn lemma_reduced_factors(a: nat, b: nat)
    ensures
        product_value(a % field_order(), b % field_order()) == product_value(a, b),
{
    lemma_mul_mod_noop(a as int, b as int, field_order() as int);
}

} // verus!
