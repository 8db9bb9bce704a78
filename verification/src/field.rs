//! Elements of the BN256 scalar field, held by their canonical little-endian encoding.
use vstd::prelude::*;
use halo2curves::bn256::Fr;
use halo2curves::ff::PrimeField;

use crate::bytes::{
    le_bytes_nat, le_limbs_nat, lemma_le_bytes_injective, lemma_le_bytes_to_nat_roundtrip,
    lemma_le_bytes_zeros, nat_to_le_bytes,
};

verus! {

/// The BN256 scalar field element of halo2curves, opaque here: it appears only in the
/// Poseidon permutation's specification, whose arithmetic runs in that crate.
#[verifier::external_type_specification]
#[verifier::external_body]
pub struct ExFr(Fr);

/// An engine over the Pasta curves; it has no pairing.
pub struct PastaEngine {}

/// The order of the BN256 scalar field.
pub open spec fn fr_modulus() -> nat {
    0x30644e72e131a029b85045b68181585d2833e84879b9709143e1f593f0000001nat
}

/// An element of the BN256 scalar field `Fp`.
///
/// It is held as the 32 bytes of its canonical representative, most significant first,
/// so that the derived order is the order of the numbers, as the field's own order is.
/// `to_repr` gives the same bytes little-endian, as the field's `to_repr` does.
#[derive(Clone, Copy, Debug, PartialEq, Eq, PartialOrd, Ord)]
pub struct FieldElement {
    be_bytes: [u8; 32],
}

impl View for FieldElement {
    type V = nat;

    /// The canonical representative, a number below the modulus.
    closed spec fn view(&self) -> nat {
        le_bytes_nat(self.be_bytes@.reverse())
    }
}

/// A field element with value `v`, as its bytes would read.
pub open spec fn field_repr(v: nat) -> Seq<u8> {
    nat_to_le_bytes(v, 32)
}

/// The 32 bytes of `b` in reverse order.
fn reverse_bytes(b: &[u8; 32]) -> (r: [u8; 32])
    ensures
        r@ == b@.reverse(),
{
    let mut r = [0u8; 32];
    let mut i: usize = 0;
    while i < 32
        invariant
            i <= 32,
            r@.len() == 32,
            forall|j: int| 0 <= j < i ==> r@[j] == b@[31 - j],
        decreases 32 - i,
    {
        r[i] = b[31 - i];
        i = i + 1;
    }
    assert(r@ =~= b@.reverse());
    r
}

impl FieldElement {
    /// The bytes stand for a number below the modulus; every element keeps this.
    #[verifier::type_invariant]
    pub closed spec fn canonical(self) -> bool {
        le_bytes_nat(self.be_bytes@.reverse()) < fr_modulus()
    }

    /// The canonical little-endian encoding of this element.
    pub closed spec fn repr_bytes(self) -> Seq<u8> {
        self.be_bytes@.reverse()
    }

    /// A canonical element is below the modulus, and its bytes are the encoding of its
    /// value. (`use_type_invariant` gives `canonical` of every element.)
    pub proof fn lemma_canonical(&self)
        requires
            self.canonical(),
        ensures
            self@ < fr_modulus(),
            self.repr_bytes() == field_repr(self@),
            self.repr_bytes().len() == 32,
    {
        lemma_le_bytes_to_nat_roundtrip(self.be_bytes@.reverse());
    }

    /// An element read back from another's encoding (`to_repr`, then `from_repr`) is
    /// that element: one value, one element.
    pub proof fn law_repr_roundtrip(f: FieldElement, decoded: FieldElement)
        requires
            decoded@ == f@,
        ensures
            decoded == f,
    {
        lemma_le_bytes_injective(f.be_bytes@.reverse(), decoded.be_bytes@.reverse());
        assert(f.be_bytes@.reverse().reverse() =~= f.be_bytes@);
        assert(decoded.be_bytes@.reverse().reverse() =~= decoded.be_bytes@);
        assert(f.be_bytes =~= decoded.be_bytes);
    }

    /// The element with the canonical little-endian encoding `repr`.
    pub(crate) fn from_canonical(repr: [u8; 32]) -> (r: FieldElement)
        requires
            le_bytes_nat(repr@) < fr_modulus(),
        ensures
            r.repr_bytes() == repr@,
            r@ == le_bytes_nat(repr@),
    {
        let be_bytes = reverse_bytes(&repr);
        assert(be_bytes@.reverse() =~= repr@);
        FieldElement { be_bytes }
    }

    /// The additive identity.
    pub fn zero() -> (r: FieldElement)
        ensures
            r@ == 0,
    {
        let be_bytes = [0u8; 32];
        proof {
            lemma_le_bytes_zeros(be_bytes@.reverse());
        }
        FieldElement { be_bytes }
    }

    /// The canonical little-endian encoding, as the field's `to_repr` gives it.
    pub fn to_repr(&self) -> (r: [u8; 32])
        ensures
            r@ == self.repr_bytes(),
            r@ == field_repr(self@),
            le_bytes_nat(r@) == self@,
    {
        proof {
            use_type_invariant(self);
            self.lemma_canonical();
        }
        reverse_bytes(&self.be_bytes)
    }

    /// The element with the canonical encoding `bytes`, or `None` where `bytes`
    /// stands for a number not below the modulus.
    pub fn from_repr(bytes: [u8; 32]) -> (r: Option<FieldElement>)
        ensures
            r is Some <==> le_bytes_nat(bytes@) < fr_modulus(),
            r matches Some(f) ==> f@ == le_bytes_nat(bytes@) && f.repr_bytes() == bytes@,
    {
        if fr_repr_is_canonical(bytes) {
            Some(Self::from_canonical(bytes))
        } else {
            None
        }
    }

    /// The element congruent to the 256-bit number with little-endian limbs `limbs`.
    pub fn from_raw(limbs: [u64; 4]) -> (r: FieldElement)
        ensures
            r@ == le_limbs_nat(limbs@) % fr_modulus(),
    {
        let repr = fr_from_raw(limbs);
        Self::from_canonical(repr)
    }
}

/// `Fr::from_raw` of halo2curves, its result given by `to_repr`: `from_raw` takes the
/// number whose little-endian 64-bit limbs are given to its congruent field element (the
/// crate's documentation: "Converts from an integer represented in little endian into
/// its (congruent) representation"). Claimed: the canonical little-endian encoding of
/// that number reduced modulo the field's order.
#[verifier::external_body]
fn fr_from_raw(limbs: [u64; 4]) -> (r: [u8; 32])
    ensures
        le_bytes_nat(r@) == le_limbs_nat(limbs@) % fr_modulus(),
{
    Fr::from_raw(limbs).to_repr().into()
}

/// `Fr::from_repr` of halo2curves, asked whether it gives an element. Claimed: it does
/// exactly where `bytes`, read little-endian, stand for a number below the modulus (the
/// crate's check `is_less_than_modulus`).
#[verifier::external_body]
fn fr_repr_is_canonical(bytes: [u8; 32]) -> (r: bool)
    ensures
        r <==> le_bytes_nat(bytes@) < fr_modulus(),
{
    bool::from(Fr::from_repr(bytes.into()).is_some())
}

} // verus!
