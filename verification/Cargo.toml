[package]
name = "solvency_proof"
version = "0.1.0"
edition = "2021"
publish = false

[dependencies]
halo2_proofs = "0.3"
halo2_gadgets = "0.5"
halo2curves = "=0.10.0"
ff_ce = "=0.14.3"
rs_merkle = "=1.5.0"
merkletree = "=0.23.0"
ethers-core = { version = "=2.0.14", default-features = false }
lazy_static = "=1.5.1"
rand = "0.8"
rand_xorshift = "0.3"
