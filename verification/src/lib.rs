//! Proof of solvency with Merkle sum trees: tree nodes over the BN256 scalar field,
//! their Poseidon hashers, and the walk along a Merkle sum path that a circuit proves.
use vstd::prelude::*;

pub mod account;
pub mod bytes;
pub mod field;
pub mod merkle_path;
pub mod merkle_store;
pub mod merkle_tree;
pub mod poseidon;
pub mod sum_hasher;
pub mod tree_item;

pub use account::Account;
pub use field::{FieldElement, PastaEngine};
pub use merkle_path::{path_root, LayerAssignment, PathCursor};
pub use merkle_tree::{Error, ErrorKind, MPTHasher, MPTItem};
pub use poseidon::P128Pow5T3;
pub use sum_hasher::PoseidonAlgorithm;
pub use tree_item::TreeItem;

verus! {

/// The scalar field of BN256, in which the tree's hashes live.
pub type Fp = FieldElement;

/// The Poseidon specification the trees hash with.
pub type OrchardNullifier = P128Pow5T3;

} // verus!
