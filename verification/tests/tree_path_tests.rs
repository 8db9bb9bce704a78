use solvency_proof::{path_root, FieldElement, PoseidonAlgorithm, TreeItem};

#[derive(Clone, Copy, PartialEq, Debug)]
struct Node(TreeItem);

impl From<Node> for Vec<u8> {
    fn from(n: Node) -> Vec<u8> {
        n.0.into_vec()
    }
}

impl TryFrom<Vec<u8>> for Node {
    type Error = solvency_proof::Error;

    fn try_from(value: Vec<u8>) -> Result<Self, Self::Error> {
        TreeItem::try_from_vec(value).map(Node)
    }
}

#[derive(Clone)]
struct SumHasher {}

impl rs_merkle::Hasher for SumHasher {
    type Hash = Node;

    fn hash(data: &[u8]) -> Node {
        Node::try_from(data[..40].to_vec()).unwrap()
    }

    fn concat_and_hash(left: &Node, right: Option<&Node>) -> Node {
        Node(PoseidonAlgorithm::concat_and_hash(&left.0, right.map(|r| &r.0)))
    }

    fn hash_size() -> usize {
        PoseidonAlgorithm::hash_size()
    }
}

fn leaves(n: u64) -> Vec<Node> {
    (0..n)
        .map(|i| Node(TreeItem::new(FieldElement::from_raw([1000 + i, i, 0, 0]), 10 * i + 1)))
        .collect()
}

#[test]
fn every_leaf_path_reaches_the_tree_root() {
    let leaves = leaves(8);
    let tree = rs_merkle::MerkleTree::<SumHasher>::from_leaves(&leaves);
    let root = tree.root().unwrap().0;
    let total: u64 = leaves.iter().map(|l| l.0.sum).sum();
    assert_eq!(root.sum, total);
    for (i, leaf) in leaves.iter().enumerate() {
        let proof = tree.proof(&[i]);
        let path: Vec<TreeItem> = proof.proof_hashes().iter().map(|n| n.0).collect();
        assert_eq!(path.len(), 3);
        assert_eq!(path_root(i, &leaf.0, &path), Some(root));
    }
}

#[test]
fn wrong_index_misses_the_root() {
    let leaves = leaves(4);
    let tree = rs_merkle::MerkleTree::<SumHasher>::from_leaves(&leaves);
    let root = tree.root().unwrap().0;
    let proof = tree.proof(&[2]);
    let path: Vec<TreeItem> = proof.proof_hashes().iter().map(|n| n.0).collect();
    let wrong = path_root(3, &leaves[2].0, &path).unwrap();
    assert_ne!(wrong.hash, root.hash);
    assert_eq!(wrong.sum, root.sum);
}
