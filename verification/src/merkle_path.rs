//! Walking a Merkle sum path from a leaf to the root: at each layer the leaf's position
//! decides which side the running digest goes, and the balances add up.
//!
//! The circuit that proves a path asks, layer by layer, where the running digest and
//! the path element go and which balances it checks; `PathCursor` answers that, and
//! takes the layer's hash back through `advance`. `path_root` walks the whole path with
//! the Poseidon hash.
use vstd::prelude::*;

use crate::field::FieldElement;
use crate::poseidon::poseidon_hash;
use crate::poseidon::poseidon2;
use crate::sum_hasher::parent_hash;
use crate::tree_item::TreeItem;

verus! {

/// The sum of the balances of the nodes of `path`.
pub open spec fn path_sum(path: Seq<TreeItem>) -> nat
    decreases path.len(),
{
    if path.len() == 0 {
        0
    } else {
        path[0].sum as nat + path_sum(path.drop_first())
    }
}

/// The hash value at the top of `path`, starting from a node with hash value `node` at
/// position `index` of its layer: an even position is a left child, an odd one a right
/// child, and the parent's position is half the child's.
pub open spec fn fold_path_hash(index: nat, node: nat, path: Seq<TreeItem>) -> nat
    decreases path.len(),
{
    if path.len() == 0 {
        node
    } else {
        let sister = path[0].hash@;
        let parent = if index % 2 == 0 {
            parent_hash(node, sister)
        } else {
            parent_hash(sister, node)
        };
        fold_path_hash(index / 2, parent, path.drop_first())
    }
}

/// The value of a known quantity plus `b`; unknown stays unknown.
pub open spec fn add_known(a: Option<u64>, b: u64) -> Option<nat> {
    match a {
        Some(x) => Some((x + b) as nat),
        None => None,
    }
}

/// A known balance plus `b` is their exact sum, with no wrapping; an unknown one stays
/// unknown.
pub proof fn law_add_known(a: Option<u64>, b: u64)
    ensures
        a matches Some(x) ==> add_known(a, b) == Some((x + b) as nat) && x + b == (x + b) as nat,
        a is None ==> add_known(a, b) is None,
{
}

/// The fold of an empty path is the node it starts from.
pub proof fn law_fold_path_empty(index: nat, node: nat)
    ensures
        fold_path_hash(index, node, Seq::<TreeItem>::empty()) == node,
{
}

/// One layer of the fold, for every position however large: bit 0 of the position puts
/// the running hash left (0) or right (1) of the sister's whole hash, the Poseidon hash
/// of the pair goes on, and the rest of the path is folded from half the position. With
/// `law_fold_path_empty`, this fixes the fold: at layer `k` it uses bit `k` of the index.
pub proof fn law_fold_path_step(index: nat, node: nat, sister: TreeItem, rest: Seq<TreeItem>)
    ensures
        fold_path_hash(index, node, seq![sister] + rest) == fold_path_hash(
            index / 2,
            if index % 2 == 0 {
                poseidon2(node, sister.hash@)
            } else {
                poseidon2(sister.hash@, node)
            },
            rest,
        ),
{
    assert((seq![sister] + rest).drop_first() =~= rest);
    assert((seq![sister] + rest)[0] == sister);
}

/// What the circuit assigns at one layer of the path.
#[derive(Clone, Copy, Debug)]
pub struct LayerAssignment {
    /// The left input of the layer's hash.
    pub left: Option<FieldElement>,
    /// The right input of the layer's hash.
    pub right: Option<FieldElement>,
    /// The balance gathered below this layer.
    pub running_sum: Option<u64>,
    /// The balance of the path element.
    pub element_sum: u64,
    /// The balance gathered up to this layer: the two above, added.
    pub aggregated_sum: Option<u64>,
    /// The index of the layer's node within the next layer up.
    pub layer_index: usize,
}

/// The state of a walk up a path: the low bit of the current position, the rest of the
/// position, and the digest and balance of the current node (unknown where no leaf was
/// given).
#[derive(Clone, Copy, Debug)]
pub struct PathCursor {
    pub bit: usize,
    pub layer_index: usize,
    pub digest: Option<FieldElement>,
    pub sum: Option<u64>,
}

impl PathCursor {
    /// The position of the current node within its layer.
    pub open spec fn position(self) -> nat {
        (self.bit + 2 * self.layer_index) as nat
    }

    /// The walk's start at the leaf with position `index`.
    pub fn start(index: usize, leaf: Option<&TreeItem>) -> (r: PathCursor)
        ensures
            r.bit == index % 2,
            r.layer_index == index / 2,
            r.position() == index,
            r.digest == (match leaf {
                Some(l) => Some(l.hash),
                None => None::<FieldElement>,
            }),
            r.sum == (match leaf {
                Some(l) => Some(l.sum),
                None => None::<u64>,
            }),
    {
        let (digest, sum) = match leaf {
            Some(v) => (Some(v.hash), Some(v.sum)),
            None => (None, None),
        };
        let bit = index & 1;
        let layer_index = index >> 1;
        assert(index & 1 == index % 2 && index >> 1 == index / 2) by (bit_vector);
        PathCursor { bit, layer_index, digest, sum }
    }

    /// The assignment of the layer whose path element is `elm`: the running digest goes
    /// left for an even position and right for an odd one; the running balance and the
    /// element's are added.
    pub fn assign(&self, elm: &TreeItem) -> (r: LayerAssignment)
        requires
            self.sum matches Some(s) ==> s + elm.sum <= u64::MAX,
        ensures
            self.bit == 0 ==> r.left == self.digest && r.right == Some(elm.hash),
            self.bit != 0 ==> r.left == Some(elm.hash) && r.right == self.digest,
            r.running_sum == self.sum,
            r.element_sum == elm.sum,
            add_known(r.aggregated_sum, 0) == add_known(self.sum, elm.sum),
            self.sum matches Some(s) ==> r.aggregated_sum == Some((s + elm.sum) as u64),
            self.sum is None ==> r.aggregated_sum is None,
            r.layer_index == self.layer_index,
    {
        let (left, right) = if self.bit == 0 {
            (self.digest, Some(elm.hash))
        } else {
            (Some(elm.hash), self.digest)
        };
        let aggregated_sum = match self.sum {
            Some(s) => Some(s + elm.sum),
            None => None,
        };
        LayerAssignment {
            left,
            right,
            running_sum: self.sum,
            element_sum: elm.sum,
            aggregated_sum,
            layer_index: self.layer_index,
        }
    }

    /// Moves up one layer past the path element `elm`; `digest` is the layer's hash.
    pub fn advance(&mut self, elm: &TreeItem, digest: Option<FieldElement>)
        requires
            old(self).sum matches Some(s) ==> s + elm.sum <= u64::MAX,
        ensures
            final(self).digest == digest,
            add_known(final(self).sum, 0) == add_known(old(self).sum, elm.sum),
            old(self).sum matches Some(s) ==> final(self).sum == Some((s + elm.sum) as u64),
            old(self).sum is None ==> final(self).sum is None,
            final(self).bit == old(self).layer_index % 2,
            final(self).layer_index == old(self).layer_index / 2,
            final(self).position() == old(self).layer_index,
    {
        self.sum = match self.sum {
            Some(s) => Some(s + elm.sum),
            None => None,
        };
        self.digest = digest;
        let layer_index = self.layer_index;
        self.bit = layer_index & 1;
        self.layer_index = layer_index >> 1;
        assert(layer_index & 1 == layer_index % 2 && layer_index >> 1 == layer_index / 2)
            by (bit_vector);
    }
}

/// The root of the path from `leaf`, at position `index`, through the sister nodes
/// `path`, bottom first: its hash is the path's fold, its balance the leaf's plus the
/// path's. Nothing where the path is empty.
pub fn path_root(index: usize, leaf: &TreeItem, path: &Vec<TreeItem>) -> (r: Option<TreeItem>)
    requires
        leaf.sum + path_sum(path@) <= u64::MAX,
    ensures
        r is Some <==> path@.len() > 0,
        r matches Some(root) ==> root.hash@ == fold_path_hash(index as nat, leaf.hash@, path@)
            && root.sum == leaf.sum + path_sum(path@),
{
    let mut cursor = PathCursor::start(index, Some(leaf));
    let mut output: Option<FieldElement> = None;
    let n = path.len();
    let mut i: usize = 0;
    proof {
        assert(path@.skip(0) =~= path@);
    }
    while i < n
        invariant
            i <= n,
            n == path@.len(),
            cursor.bit < 2,
            cursor.digest is Some,
            cursor.sum is Some,
            leaf.sum + path_sum(path@) == cursor.sum->0 + path_sum(path@.skip(i as int)),
            leaf.sum + path_sum(path@) <= u64::MAX,
            fold_path_hash(index as nat, leaf.hash@, path@) == fold_path_hash(
                cursor.position(),
                cursor.digest->0@,
                path@.skip(i as int),
            ),
            i > 0 ==> output == cursor.digest,
            i == 0 ==> output is None,
        decreases n - i,
    {
        let elm = &path[i];
        proof {
            assert(path@.skip(i as int).drop_first() =~= path@.skip(i + 1));
            assert(path@.skip(i as int)[0] == *elm);
        }
        let layer = cursor.assign(elm);
        let left = layer.left.unwrap();
        let right = layer.right.unwrap();
        let digest = poseidon_hash(&left, &right);
        proof {
            assert(cursor.position() % 2 == cursor.bit);
            assert(cursor.position() / 2 == cursor.layer_index);
        }
        cursor.advance(elm, Some(digest));
        output = Some(digest);
        i = i + 1;
        proof {
            assert(cursor.bit < 2);
        }
    }
    proof {
        assert(path@.skip(n as int) =~= Seq::<TreeItem>::empty());
    }
    match output {
        Some(hash) => Some(TreeItem { hash, sum: cursor.sum.unwrap() }),
        None => None,
    }
}

} // verus!
