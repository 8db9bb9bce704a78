//! A hasher that gathers the bytes of two tree items in a buffer and hashes them, for
//! Merkle trees that feed their hasher through writes.
use vstd::prelude::*;

use crate::bytes::{le_bytes_nat, le_bytes_to_limbs};
use crate::field::{fr_modulus, FieldElement};
use crate::merkle_tree::{hash_data, MPTItem, SIZE, SIZE2};
use crate::poseidon::poseidon_hash;

verus! {

/// A buffer of two items' bytes, and the Poseidon hash of its halves.
#[derive(Clone, Copy, Debug)]
pub struct MPTHasher {
    buffer: [u8; SIZE2],
}

impl View for MPTHasher {
    type V = Seq<u8>;

    /// The 64 bytes of the buffer.
    closed spec fn view(&self) -> Seq<u8> {
        self.buffer@
    }
}

/// The buffer `buffer` after writing `bytes`: they replace its first bytes.
pub open spec fn written(buffer: Seq<u8>, bytes: Seq<u8>) -> Seq<u8> {
    bytes + buffer.subrange(bytes.len() as int, buffer.len() as int)
}

impl Default for MPTHasher {
    /// A hasher with a zero buffer.
    fn default() -> (r: Self)
        ensures
            r@ == Seq::new(64, |i: int| 0u8),
    {
        MPTHasher::new()
    }
}

impl MPTHasher {
    /// Every buffer has 64 bytes.
    pub proof fn lemma_buffer_len(&self)
        ensures
            self@.len() == SIZE2,
    {
    }

    /// A hasher with a zero buffer.
    pub fn new() -> (r: MPTHasher)
        ensures
            r@ == Seq::new(64, |i: int| 0u8),
    {
        let r = MPTHasher { buffer: [0u8; SIZE2] };
        assert(r@ =~= Seq::new(64, |i: int| 0u8));
        r
    }

    /// Writes `bytes`, at most 64 of them, over the start of the buffer.
    pub fn write(&mut self, bytes: &[u8])
        requires
            bytes@.len() <= SIZE2,
        ensures
            final(self)@ == written(old(self)@, bytes@),
            final(self)@.len() == SIZE2,
    {
        let n = bytes.len();
        let mut i: usize = 0;
        while i < n
            invariant
                i <= n,
                n == bytes@.len(),
                n <= SIZE2,
                self.buffer@.len() == SIZE2,
                forall|j: int| 0 <= j < i ==> self.buffer@[j] == bytes@[j],
                forall|j: int| i <= j < SIZE2 ==> self.buffer@[j] == old(self).buffer@[j],
            decreases n - i,
        {
            self.buffer[i] = bytes[i];
            i = i + 1;
        }
        assert(self@ =~= written(old(self)@, bytes@));
    }

    /// The item of the Poseidon hash of the field elements of the buffer's two halves;
    /// the buffer stays as it is.
    pub fn hash(&mut self) -> (r: MPTItem)
        ensures
            r@ == hash_data(old(self)@),
            le_bytes_nat(r@) < fr_modulus(),
            final(self)@ == old(self)@,
            final(self)@.len() == SIZE2,
    {
        let left_limbs = le_bytes_to_limbs(self.buffer.as_slice(), 0);
        let right_limbs = le_bytes_to_limbs(self.buffer.as_slice(), SIZE);
        let left = FieldElement::from_raw(left_limbs);
        let right = FieldElement::from_raw(right_limbs);
        let hashed_value = poseidon_hash(&left, &right);
        MPTItem::from_bytes(hashed_value.to_repr())
    }
}

/// Writing two items' 64 bytes into the buffer and hashing it gives what the tree's
/// hasher gives for those bytes, whatever the buffer held before.
pub proof fn law_buffered_hash_agrees(buffer: Seq<u8>, data: Seq<u8>)
    requires
        buffer.len() == SIZE2,
        data.len() == SIZE2,
    ensures
        written(buffer, data) == data,
        hash_data(written(buffer, data)) == hash_data(data),
{
    assert(written(buffer, data) =~= data);
}

} // verus!
