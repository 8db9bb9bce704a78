//! Items of a Merkle tree of 32-byte nodes, and the Poseidon hasher that combines them.
use vstd::prelude::*;

use crate::account::Account;
use crate::bytes::{le_bytes_nat, le_bytes_to_limbs, lemma_pow256_32};
use crate::field::{field_repr, fr_modulus, FieldElement};
use crate::poseidon::{poseidon2, poseidon_hash};

verus! {

/// Number of bytes of a tree item.
pub const SIZE: usize = 0x20;

/// Number of bytes of two tree items side by side.
pub const SIZE2: usize = 0x40;

/// What went wrong in a conversion.
#[derive(Debug, Clone, Copy, PartialEq, Eq)]
pub enum ErrorKind {
    /// The bytes have not the length of a hash.
    HashConversionError,
}

/// An error of the tree: its kind.
#[derive(Debug, Clone, Copy, PartialEq, Eq)]
pub struct Error {
    pub kind: ErrorKind,
}

impl Error {
    /// An error of the given kind.
    pub fn new(kind: ErrorKind) -> (r: Error)
        ensures
            r.kind == kind,
    {
        Error { kind }
    }
}

/// A node of the tree: 32 bytes.
#[derive(PartialEq, Eq, PartialOrd, Ord, Copy, Clone, Debug)]
pub struct MPTItem([u8; SIZE]);

impl View for MPTItem {
    type V = Seq<u8>;

    closed spec fn view(&self) -> Seq<u8> {
        self.0@
    }
}

/// `n` zero bytes.
pub open spec fn zero_bytes(n: nat) -> Seq<u8> {
    Seq::new(n, |i: int| 0u8)
}

/// The item of the first 32 bytes of `bytes`, padded with zeros where `bytes` is shorter.
pub open spec fn prefix_item(bytes: Seq<u8>) -> Seq<u8> {
    Seq::new(32, |i: int| if i < bytes.len() { bytes[i] } else { 0u8 })
}

/// The field element that an item stands for: its bytes read as a little-endian
/// number, reduced modulo the field's order.
pub open spec fn item_field_value(item: Seq<u8>) -> nat {
    le_bytes_nat(item) % fr_modulus()
}

/// What the hasher gives for `data` (32 or 64 bytes): the Poseidon hash of the field
/// elements of its two halves, the second zero where there is none, as 32 bytes.
pub open spec fn hash_data(data: Seq<u8>) -> Seq<u8> {
    let left = item_field_value(data.subrange(0, 32));
    let right = if data.len() >= 64 {
        item_field_value(data.subrange(32, 64))
    } else {
        0
    };
    field_repr(poseidon2(left, right))
}

/// An item read back from another item's bytes (through `into_vec` and
/// `try_from_vec`, `as_ref` and `from_slice`, or `copy_to_slice` and `from_slice`) is that
/// item: the bytes have the length that reading asks for, and they fix the item.
pub proof fn law_item_bytes_roundtrip(item: MPTItem, decoded: MPTItem)
    requires
        decoded@ == item@,
    ensures
        item@.len() == SIZE,
        decoded == item,
{
    assert(decoded.0 =~= item.0);
}

impl Default for MPTItem {
    /// The item of 32 zero bytes.
    fn default() -> (r: Self)
        ensures
            r@ == zero_bytes(32),
    {
        let r = MPTItem([0u8; SIZE]);
        assert(r@ =~= zero_bytes(32));
        r
    }
}

impl MPTItem {
    /// The item with the given bytes.
    pub fn from_bytes(bytes: [u8; SIZE]) -> (r: Self)
        ensures
            r@ == bytes@,
    {
        Self(bytes)
    }

    /// The item with the given bytes; never fails.
    pub fn try_from_array(value: [u8; SIZE]) -> (r: Result<Self, Error>)
        ensures
            r matches Ok(item) && item@ == value@,
    {
        Ok(Self(value))
    }

    /// The item with the bytes of `value`, or a `HashConversionError` where `value`
    /// has not 32 bytes.
    pub fn try_from_vec(value: Vec<u8>) -> (r: Result<Self, Error>)
        ensures
            value@.len() == SIZE <==> r is Ok,
            r matches Ok(item) ==> item@ == value@,
            r matches Err(e) ==> e.kind == ErrorKind::HashConversionError,
    {
        if value.len() == SIZE {
            Ok(Self::from_slice(value.as_slice()))
        } else {
            Err(Error::new(ErrorKind::HashConversionError))
        }
    }

    /// The item of the first 32 bytes of `bytes`, padded with zeros.
    fn from_prefix(bytes: &[u8]) -> (r: Self)
        ensures
            r@ == prefix_item(bytes@),
    {
        let mut buffers = [0u8; SIZE];
        let n = bytes.len();
        let mut i: usize = 0;
        while i < n
            invariant
                i <= n,
                n == bytes@.len(),
                buffers@.len() == SIZE,
                forall|j: int|
                    0 <= j < SIZE ==> buffers@[j] == (if j < i { bytes@[j] } else { 0u8 }),
            decreases n - i,
        {
            if i < SIZE {
                buffers[i] = bytes[i];
            }
            i = i + 1;
        }
        let r = MPTItem(buffers);
        assert(r@ =~= prefix_item(bytes@));
        r
    }

    /// The item of an account: its address bytes, then zeros.
    pub fn from_account(account: &Account) -> (r: Self)
        ensures
            r@ == prefix_item(account.address@),
            r@.subrange(0, 20) == account.address@,
            r@.subrange(20, 32) == zero_bytes(12),
    {
        let r = Self::from_prefix(account.as_bytes());
        assert(r@.subrange(0, 20) =~= account.address@);
        assert(r@.subrange(20, 32) =~= zero_bytes(12));
        r
    }

    /// The item of an address: its 20 bytes, then zeros.
    pub fn from_address(address: &[u8; 20]) -> (r: Self)
        ensures
            r@ == prefix_item(address@),
            r@.subrange(0, 20) == address@,
            r@.subrange(20, 32) == zero_bytes(12),
    {
        let r = Self::from_prefix(address.as_slice());
        assert(r@.subrange(0, 20) =~= address@);
        assert(r@.subrange(20, 32) =~= zero_bytes(12));
        r
    }

    /// The bytes of the item.
    pub fn as_ref(&self) -> (r: &[u8])
        ensures
            r@ == self@,
    {
        self.0.as_slice()
    }

    /// The bytes of the item, in a vector.
    pub fn into_vec(self) -> (r: Vec<u8>)
        ensures
            r@ == self@,
    {
        let mut r: Vec<u8> = Vec::new();
        let mut i: usize = 0;
        while i < SIZE
            invariant
                i <= SIZE,
                r@ == self@.subrange(0, i as int),
            decreases SIZE - i,
        {
            r.push(self.0[i]);
            i = i + 1;
            assert(r@ =~= self@.subrange(0, i as int));
        }
        assert(self@.subrange(0, SIZE as int) =~= self@);
        r
    }

    /// The field element of the item: its bytes read as four little-endian 64-bit
    /// limbs, reduced modulo the field's order.
    pub fn into_field(self) -> (r: FieldElement)
        ensures
            r@ == item_field_value(self@),
    {
        let limbs = le_bytes_to_limbs(self.0.as_slice(), 0);
        assert(self@.subrange(0, 32) =~= self@);
        FieldElement::from_raw(limbs)
    }

    /// Number of bytes of an item.
    pub fn byte_len() -> (r: usize)
        ensures
            r == SIZE,
    {
        SIZE
    }

    /// The item with the given 32 bytes.
    pub fn from_slice(bytes: &[u8]) -> (r: Self)
        requires
            bytes@.len() == SIZE,
        ensures
            r@ == bytes@,
    {
        let mut el = [0u8; SIZE];
        let mut i: usize = 0;
        while i < SIZE
            invariant
                i <= SIZE,
                bytes@.len() == SIZE,
                el@.len() == SIZE,
                forall|j: int| 0 <= j < i ==> el@[j] == bytes@[j],
            decreases SIZE - i,
        {
            el[i] = bytes[i];
            i = i + 1;
        }
        let r = MPTItem(el);
        assert(r@ =~= bytes@);
        r
    }

    /// Writes the item's bytes into `bytes`, which has room for exactly 32.
    pub fn copy_to_slice(&self, bytes: &mut [u8])
        requires
            old(bytes)@.len() == SIZE,
        ensures
            final(bytes)@ == self@,
    {
        let mut i: usize = 0;
        while i < SIZE
            invariant
                i <= SIZE,
                bytes@.len() == SIZE,
                forall|j: int| 0 <= j < i ==> bytes@[j] == self@[j],
            decreases SIZE - i,
        {
            bytes[i] = self.0[i];
            i = i + 1;
        }
        assert(bytes@ =~= self@);
    }
}

/// The hasher of the tree: Poseidon over the field elements of the data's halves.
#[derive(Clone, Copy, Debug)]
pub struct MPTHasher {}

impl MPTHasher {
    /// Hashes 32 bytes (one item) or 64 bytes (two items side by side): the Poseidon
    /// hash of the field elements of the two halves, the second zero for 32 bytes.
    pub fn hash(data: &[u8]) -> (r: MPTItem)
        requires
            data@.len() == SIZE || data@.len() == SIZE2,
        ensures
            r@ == hash_data(data@),
            le_bytes_nat(r@) < fr_modulus(),
    {
        let n = data.len();
        let mut left = FieldElement::zero();
        let mut right = FieldElement::zero();
        if n >= SIZE {
            let limbs = le_bytes_to_limbs(data, 0);
            left = FieldElement::from_raw(limbs);
        }
        if n >= SIZE2 {
            let limbs = le_bytes_to_limbs(data, SIZE);
            right = FieldElement::from_raw(limbs);
        }
        let hashed_value = poseidon_hash(&left, &right);
        MPTItem::from_bytes(hashed_value.to_repr())
    }

    /// Number of bytes of a hash.
    pub fn hash_size() -> (r: usize)
        ensures
            r == SIZE,
    {
        SIZE
    }
}

/// Hashing two items side by side gives the Poseidon hash of their field elements:
/// this is how a parent node comes from its two children.
pub proof fn law_pair_hash(left: MPTItem, right: MPTItem)
    ensures
        (left@ + right@).len() == SIZE2,
        hash_data(left@ + right@) == field_repr(
            poseidon2(item_field_value(left@), item_field_value(right@)),
        ),
{
    assert((left@ + right@).subrange(0, 32) =~= left@);
    assert((left@ + right@).subrange(32, 64) =~= right@);
}

/// Hashing a single item pairs its field element with zero.
pub proof fn law_single_hash(item: MPTItem)
    ensures
        hash_data(item@) == field_repr(poseidon2(item_field_value(item@), 0)),
{
    assert(item@.subrange(0, 32) =~= item@);
}

/// The item of a field element's encoding reads back as that field element: a hash
/// that the hasher gives is a node whose field element is the hash.
pub proof fn law_hash_item_field_value(v: nat)
    requires
        v < fr_modulus(),
    ensures
        field_repr(v).len() == SIZE,
        item_field_value(field_repr(v)) == v,
{
    lemma_pow256_32();
    crate::bytes::lemma_nat_to_le_bytes_roundtrip(v, 32);
    vstd::arithmetic::div_mod::lemma_small_mod(v, fr_modulus());
}

} // verus!
