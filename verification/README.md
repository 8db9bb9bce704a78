# solvency_proof

Merkle sum trees for proofs of solvency: nodes carry a Poseidon hash over the BN256
scalar field and a 64-bit balance; a parent's hash is the Poseidon hash of its
children's and its balance their sum. A halo2 circuit proves that a leaf, with its
sister nodes, reaches a public root.

- `src/` is the verified library (Verus): byte and limb encodings (`bytes`), field
  elements (`field`), the Poseidon specification and hash (`poseidon`), 32-byte tree
  items and their hashers (`merkle_tree`, `merkle_store`), sum-tree nodes and their
  hasher (`tree_item`, `sum_hasher`), and the walk up a Merkle sum path that the
  circuit follows (`merkle_path`).
- `app/` plugs the library into `rs_merkle`, `merkletree` and halo2: the tree
  adapters, the hash and Merkle sum circuits, and `main`.
- `tests/` runs the library on concrete values.
