//! The hasher of the Merkle sum tree: a parent's hash is the Poseidon hash of its
//! children's hashes, and its balance is the sum of theirs.
use vstd::prelude::*;

use crate::poseidon::{poseidon2, poseidon_hash};
use crate::tree_item::{TreeItem, TREE_ITEM_BYTES};

verus! {

/// The Poseidon hasher of the Merkle sum tree.
#[derive(Clone, Copy, Debug, Default)]
pub struct PoseidonAlgorithm {}

/// The hash value of the parent of two nodes with hash values `left` and `right`.
pub open spec fn parent_hash(left: nat, right: nat) -> nat {
    poseidon2(left, right)
}

/// A parent's hash is the Poseidon hash of its children's whole hash values, the left
/// child's first: nothing of either value is dropped, and the order counts.
pub proof fn law_parent_hash(left: nat, right: nat)
    ensures
        parent_hash(left, right) == poseidon2(left, right),
{
}

impl PoseidonAlgorithm {
    /// The parent of `left` and `right`: the Poseidon hash of their hashes, and the sum
    /// of their balances. Without a right node, `left` itself.
    pub fn concat_and_hash(left: &TreeItem, right: Option<&TreeItem>) -> (r: TreeItem)
        requires
            right matches Some(rn) ==> left.sum + rn.sum <= u64::MAX,
        ensures
            right is None ==> r == *left,
            right matches Some(rn) ==> r.hash@ == parent_hash(left.hash@, rn.hash@) && r.sum
                == left.sum + rn.sum,
            right matches Some(rn) ==> r.hash@ == poseidon2(left.hash@, rn.hash@),
    {
        match right {
            Some(right_node) => {
                let hashed_value = poseidon_hash(&left.hash, &right_node.hash);
                let sum_value = left.sum + right_node.sum;
                TreeItem { hash: hashed_value, sum: sum_value }
            },
            None => *left,
        }
    }

    /// Number of bytes of an encoded node.
    pub fn hash_size() -> (r: usize)
        ensures
            r == TREE_ITEM_BYTES,
    {
        TREE_ITEM_BYTES
    }
}

} // verus!
