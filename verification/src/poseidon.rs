//! The Poseidon hash over the BN256 scalar field, with the width-3, rate-2 permutation.
use vstd::prelude::*;
use halo2_gadgets::poseidon::primitives::{
    generate_constants, ConstantLength, Hash as PoseidonHash, Mds, Spec,
};
use halo2curves::bn256::Fr;
use halo2curves::ff::{Field, PrimeField};

use crate::bytes::le_bytes_nat;
use crate::field::{fr_modulus, FieldElement};

verus! {

/// Poseidon-128 with the x^5 S-box and a width of 3 field elements: 8 full rounds and
/// 56 partial rounds, for 128-bit security with margin.
#[derive(Clone, Copy, Debug)]
pub struct P128Pow5T3;

impl Spec<Fr, 3, 2> for P128Pow5T3 {
    fn full_rounds() -> (r: usize)
        ensures
            r == 8,
    {
        8
    }

    fn partial_rounds() -> (r: usize)
        ensures
            r == 56,
    {
        56
    }

    /// The S-box x^5, by `Field::pow_vartime` of ff; nothing is claimed of it here.
    #[verifier::external_body]
    fn sbox(val: Fr) -> Fr {
        val.pow_vartime([5])
    }

    fn secure_mds() -> (r: usize)
        ensures
            r == 3,
    {
        3
    }

    /// The round constants and MDS matrices, generated by `generate_constants` of
    /// halo2_gadgets from the numbers of rounds and the MDS index above; nothing is
    /// claimed of them here.
    #[verifier::external_body]
    fn constants() -> (Vec<[Fr; 3]>, Mds<Fr, 3>, Mds<Fr, 3>) {
        generate_constants::<Fr, P128Pow5T3, 3, 2>()
    }
}

/// The Poseidon hash (this crate's `P128Pow5T3`, constant length 2) of two field
/// elements, given and returned by their canonical values.
pub uninterp spec fn poseidon2(left: nat, right: nat) -> nat;

/// `Hash::<Fr, P128Pow5T3, ConstantLength<2>, 3, 2>::init().hash` of halo2_gadgets on
/// the two elements with the canonical little-endian encodings `left` and `right`, the
/// result given by `to_repr`. Claimed: the result is a function of the two inputs alone,
/// named `poseidon2`, and it is a field element (below the modulus).
#[verifier::external_body]
fn poseidon_repr(left: [u8; 32], right: [u8; 32]) -> (r: [u8; 32])
    requires
        le_bytes_nat(left@) < fr_modulus(),
        le_bytes_nat(right@) < fr_modulus(),
    ensures
        le_bytes_nat(r@) == poseidon2(le_bytes_nat(left@), le_bytes_nat(right@)),
        le_bytes_nat(r@) < fr_modulus(),
{
    let l = Fr::from_repr(left.into()).unwrap();
    let r = Fr::from_repr(right.into()).unwrap();
    PoseidonHash::<Fr, P128Pow5T3, ConstantLength<2>, 3, 2>::init().hash([l, r]).to_repr().into()
}

/// The Poseidon hash of two field elements.
pub(crate) fn poseidon_hash(left: &FieldElement, right: &FieldElement) -> (r: FieldElement)
    ensures
        r@ == poseidon2(left@, right@),
        r@ < fr_modulus(),
{
    let l = left.to_repr();
    let r = right.to_repr();
    proof {
        use_type_invariant(left);
        use_type_invariant(right);
        left.lemma_canonical();
        right.lemma_canonical();
    }
    let h = poseidon_repr(l, r);
    FieldElement::from_canonical(h)
}

} // verus!
