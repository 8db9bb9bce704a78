use halo2_gadgets::poseidon::primitives::{ConstantLength, Hash as PoseidonHash};
use halo2curves::bn256::Fr;
use halo2curves::ff::PrimeField;
use solvency_proof::merkle_tree::ErrorKind;
use solvency_proof::{path_root, FieldElement, PathCursor, PoseidonAlgorithm, TreeItem};

fn poseidon(a: &FieldElement, b: &FieldElement) -> FieldElement {
    let fa = Fr::from_repr(a.to_repr().into()).unwrap();
    let fb = Fr::from_repr(b.to_repr().into()).unwrap();
    let h = PoseidonHash::<Fr, solvency_proof::P128Pow5T3, ConstantLength<2>, 3, 2>::init().hash([fa, fb]);
    FieldElement::from_repr(h.to_repr().into()).unwrap()
}

fn element(v: u64) -> FieldElement {
    FieldElement::from_raw([v, 0, 0, 0])
}

fn node(h: u64, sum: u64) -> TreeItem {
    TreeItem::new(element(h), sum)
}

#[test]
fn tree_item_constructors() {
    let d = TreeItem::default();
    assert_eq!(d.hash, FieldElement::zero());
    assert_eq!(d.sum, 0);
    let n = TreeItem::new(element(4), 9);
    assert_eq!(n.hash, element(4));
    assert_eq!(n.sum, 9);
    let f = TreeItem::from_hash(element(4));
    assert_eq!(f.sum, 0);
    assert_eq!(f.hash, element(4));
}

#[test]
fn tree_item_encoding_layout() {
    let v = node(0x0201, 0x0a0b0c).into_vec();
    assert_eq!(v.len(), 40);
    assert_eq!(&v[..8], &[0x0c, 0x0b, 0x0a, 0, 0, 0, 0, 0]);
    assert_eq!(&v[8..11], &[0x01, 0x02, 0]);
    assert_eq!(&v[11..], &[0u8; 29][..]);
}

#[test]
fn tree_item_round_trip() {
    let n = node(123456789, u64::MAX);
    assert_eq!(TreeItem::try_from_vec(n.into_vec()).unwrap(), n);
}

#[test]
fn tree_item_from_wrong_length_fails() {
    let mut v = node(1, 2).into_vec();
    v.push(0);
    assert_eq!(TreeItem::try_from_vec(v).unwrap_err().kind, ErrorKind::HashConversionError);
    let short = vec![0u8; 39];
    assert!(TreeItem::try_from_vec(short).is_err());
    assert!(TreeItem::try_from_vec(vec![7u8; 8]).is_err());
}

#[test]
fn parent_adds_balances() {
    let l = node(1, 10);
    let r = node(2, 32);
    let p = PoseidonAlgorithm::concat_and_hash(&l, Some(&r));
    assert_eq!(p.sum, 42);
    assert_eq!(p.hash, poseidon(&l.hash, &r.hash));
    assert_ne!(p.hash, PoseidonAlgorithm::concat_and_hash(&r, Some(&l)).hash);
    assert_eq!(PoseidonAlgorithm::hash_size(), 40);
}

#[test]
fn lone_node_is_its_own_parent() {
    let l = node(5, 7);
    assert_eq!(PoseidonAlgorithm::concat_and_hash(&l, None), l);
}

#[test]
fn cursor_follows_index_bits() {
    let leaf = node(3, 1);
    let mut c = PathCursor::start(6, Some(&leaf));
    assert_eq!((c.bit, c.layer_index), (0, 3));
    let e = node(8, 2);
    let a = c.assign(&e);
    assert_eq!(a.left, Some(leaf.hash));
    assert_eq!(a.right, Some(e.hash));
    assert_eq!(a.running_sum, Some(1));
    assert_eq!(a.element_sum, 2);
    assert_eq!(a.aggregated_sum, Some(3));
    assert_eq!(a.layer_index, 3);
    c.advance(&e, Some(element(99)));
    assert_eq!((c.bit, c.layer_index), (1, 1));
    assert_eq!(c.sum, Some(3));
    let a = c.assign(&e);
    assert_eq!(a.left, Some(e.hash));
    assert_eq!(a.right, Some(element(99)));
}

#[test]
fn cursor_without_leaf_knows_no_values() {
    let c = PathCursor::start(1, None);
    assert_eq!(c.bit, 1);
    let a = c.assign(&node(1, 4));
    assert_eq!(a.right, None);
    assert_eq!(a.running_sum, None);
    assert_eq!(a.aggregated_sum, None);
    assert_eq!(a.element_sum, 4);
}

#[test]
fn path_root_matches_pairwise_hashing() {
    // Four leaves; the path of leaf 2 is leaf 3, then the parent of leaves 0 and 1.
    let leaves = [node(10, 1), node(11, 2), node(12, 3), node(13, 4)];
    let p01 = PoseidonAlgorithm::concat_and_hash(&leaves[0], Some(&leaves[1]));
    let p23 = PoseidonAlgorithm::concat_and_hash(&leaves[2], Some(&leaves[3]));
    let root = PoseidonAlgorithm::concat_and_hash(&p01, Some(&p23));
    let path = vec![leaves[3], p01];
    let computed = path_root(2, &leaves[2], &path).unwrap();
    assert_eq!(computed, root);
    assert_eq!(computed.sum, 10);
    let path1 = vec![leaves[0], p23];
    assert_eq!(path_root(1, &leaves[1], &path1).unwrap(), root);
}

#[test]
fn empty_path_has_no_root() {
    assert!(path_root(0, &node(1, 1), &vec![]).is_none());
}
