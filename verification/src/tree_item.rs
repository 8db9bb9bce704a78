//! Nodes of a Merkle sum tree: a field element hash and a 64-bit balance.
use vstd::prelude::*;

use crate::bytes::{
    le_bytes_nat, lemma_nat_to_le_bytes_roundtrip, lemma_pow256_8,
    nat_to_le_bytes, u64_from_le_bytes, u64_to_le_bytes,
};
use crate::field::{field_repr, fr_modulus, FieldElement};
use crate::merkle_tree::{Error, ErrorKind};

verus! {

/// Number of bytes of an encoded tree item: the sum's 8, then the hash's 32.
pub const TREE_ITEM_BYTES: usize = 40;

/// A node of a Merkle sum tree.
#[derive(PartialEq, Eq, PartialOrd, Ord, Copy, Clone, Debug)]
pub struct TreeItem {
    pub hash: FieldElement,
    pub sum: u64,
}

/// The encoding of a node with hash value `hash` and balance `sum`: the balance as 8
/// little-endian bytes, then the hash's canonical 32 bytes.
pub open spec fn tree_item_bytes(hash: nat, sum: u64) -> Seq<u8> {
    nat_to_le_bytes(sum as nat, 8) + field_repr(hash)
}

impl Default for TreeItem {
    /// The node with hash zero and balance zero.
    fn default() -> (r: Self)
        ensures
            r.hash@ == 0,
            r.sum == 0,
    {
        Self { hash: FieldElement::zero(), sum: 0u64 }
    }
}

impl TreeItem {
    /// The node with the given hash and balance.
    pub fn new(hash: FieldElement, sum: u64) -> (r: Self)
        ensures
            r.hash == hash,
            r.sum == sum,
    {
        Self { hash, sum }
    }

    /// The node with the given hash and balance zero.
    pub fn from_hash(hash: FieldElement) -> (r: Self)
        ensures
            r.hash == hash,
            r.sum == 0,
    {
        Self { hash, sum: 0u64 }
    }

    /// The node's encoding: its balance as 8 little-endian bytes, then its hash's
    /// canonical 32 bytes.
    pub fn into_vec(self) -> (r: Vec<u8>)
        ensures
            r@ == tree_item_bytes(self.hash@, self.sum),
            r@.len() == TREE_ITEM_BYTES,
    {
        let mut buffer: Vec<u8> = Vec::new();
        let sum_bytes = u64_to_le_bytes(self.sum);
        let hash_bytes = self.hash.to_repr();
        let mut i: usize = 0;
        while i < 8
            invariant
                i <= 8,
                buffer@ == sum_bytes@.subrange(0, i as int),
            decreases 8 - i,
        {
            buffer.push(sum_bytes[i]);
            i = i + 1;
            assert(buffer@ =~= sum_bytes@.subrange(0, i as int));
        }
        assert(sum_bytes@.subrange(0, 8) =~= sum_bytes@);
        let mut k: usize = 0;
        while k < 32
            invariant
                k <= 32,
                buffer@ == sum_bytes@ + hash_bytes@.subrange(0, k as int),
            decreases 32 - k,
        {
            buffer.push(hash_bytes[k]);
            k = k + 1;
            assert(buffer@ =~= sum_bytes@ + hash_bytes@.subrange(0, k as int));
        }
        assert(hash_bytes@.subrange(0, 32) =~= hash_bytes@);
        buffer
    }

    /// Decodes a node: the balance from the first 8 bytes (little-endian), the hash from
    /// the canonical encoding in the remaining bytes. A `HashConversionError` where those
    /// are not 32.
    pub fn try_from_vec(value: Vec<u8>) -> (r: Result<Self, Error>)
        requires
            value@.len() >= 8,
            value@.len() == TREE_ITEM_BYTES ==> le_bytes_nat(value@.subrange(8, 40))
                < fr_modulus(),
        ensures
            r is Ok <==> value@.len() == TREE_ITEM_BYTES,
            r matches Ok(item) ==> item.sum == le_bytes_nat(value@.subrange(0, 8))
                && item.hash@ == le_bytes_nat(value@.subrange(8, 40)),
            r matches Err(e) ==> e.kind == ErrorKind::HashConversionError,
    {
        let sum = u64_from_le_bytes(value.as_slice(), 0);
        if value.len() == TREE_ITEM_BYTES {
            let mut bytes = [0u8; 32];
            let mut i: usize = 0;
            while i < 32
                invariant
                    i <= 32,
                    value@.len() == TREE_ITEM_BYTES,
                    bytes@.len() == 32,
                    forall|j: int| 0 <= j < i ==> bytes@[j] == value@[8 + j],
                decreases 32 - i,
            {
                bytes[i] = value[8 + i];
                i = i + 1;
            }
            assert(bytes@ =~= value@.subrange(8, 40));
            match FieldElement::from_repr(bytes) {
                Some(hash) => Ok(Self { hash, sum }),
                None => Err(Error::new(ErrorKind::HashConversionError)),
            }
        } else {
            Err(Error::new(ErrorKind::HashConversionError))
        }
    }
}

/// Decoding an encoded node gives the node back: the encoding has 40 bytes, its first 8
/// stand for the balance, its last 32 for the hash, and these are canonical.
pub proof fn law_tree_item_roundtrip(hash: nat, sum: u64)
    requires
        hash < fr_modulus(),
    ensures
        tree_item_bytes(hash, sum).len() == TREE_ITEM_BYTES,
        le_bytes_nat(tree_item_bytes(hash, sum).subrange(0, 8)) == sum,
        le_bytes_nat(tree_item_bytes(hash, sum).subrange(8, 40)) == hash,
        le_bytes_nat(tree_item_bytes(hash, sum).subrange(8, 40)) < fr_modulus(),
{
    lemma_pow256_8();
    lemma_nat_to_le_bytes_roundtrip(sum as nat, 8);
    crate::bytes::lemma_pow256_32();
    lemma_nat_to_le_bytes_roundtrip(hash, 32);
    let s = tree_item_bytes(hash, sum);
    assert(s.subrange(0, 8) =~= nat_to_le_bytes(sum as nat, 8));
    assert(s.subrange(8, 40) =~= field_repr(hash));
}

} // verus!
