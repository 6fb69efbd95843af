//! Merkle-branch verification against a root.
use crate::crypto::{hash, sha256_of};
use crate::primitives::{Bytes32, Root};
use vstd::prelude::*;

verus! {

/// The concatenation of two chunks.
pub fn concat_chunks(a: &[u8; 32], b: &[u8; 32]) -> (r: Vec<u8>)
    ensures
        r@ == a@ + b@,
{
    let mut r: Vec<u8> = Vec::new();
    let mut i: usize = 0;
    while i < 32
        invariant
            0 <= i <= 32,
            r@ == a@.subrange(0, i as int),
        decreases 32 - i,
    {
        r.push(a[i]);
        i = i + 1;
        assert(r@ =~= a@.subrange(0, i as int));
    }
    let mut j: usize = 0;
    while j < 32
        invariant
            0 <= j <= 32,
            r@ == a@ + b@.subrange(0, j as int),
        decreases 32 - j,
    {
        r.push(b[j]);
        j = j + 1;
        assert(r@ =~= a@ + b@.subrange(0, j as int));
    }
    assert(b@.subrange(0, 32) =~= b@);
    r
}

/// One level up the tree: the node's sibling goes on the left when the
/// node's position is odd, on the right when it is even.
pub open spec fn merkle_step(node: Seq<u8>, sibling: Seq<u8>, odd: bool) -> Seq<u8> {
    if odd {
        sha256_of(sibling + node)
    } else {
        sha256_of(node + sibling)
    }
}

/// The root reached from `node` at position `index` by folding in `count`
/// siblings, starting with `branch[start]`.
pub open spec fn fold_branch(node: Seq<u8>, branch: Seq<Bytes32>, start: nat, count: nat, index: nat) -> Seq<u8>
    decreases count,
{
    if count == 0 {
        node
    } else {
        fold_branch(
            merkle_step(node, branch[start as int]@, index % 2 == 1),
            branch,
            start + 1,
            (count - 1) as nat,
            index / 2,
        )
    }
}

/// The root that `leaf` at `index` reaches through the first `depth` siblings.
pub open spec fn branch_root(leaf: Seq<u8>, branch: Seq<Bytes32>, depth: nat, index: nat) -> Seq<u8> {
    fold_branch(leaf, branch, 0, depth, index)
}

pub open spec fn valid_merkle_branch(leaf: Seq<u8>, branch: Seq<Bytes32>, depth: nat, index: nat, root: Seq<u8>) -> bool {
    depth <= branch.len() && branch_root(leaf, branch, depth, index) == root
}

/// Whether `leaf` at `index` is proved by `branch` to sit under `root`; a
/// branch shorter than `depth` proves nothing.
pub fn is_valid_merkle_branch(leaf: Bytes32, branch: &[Bytes32], depth: usize, index: u64, root: Root) -> (r: bool)
    ensures
        r == valid_merkle_branch(leaf@, branch@, depth as nat, index as nat, root@),
{
    if branch.len() < depth {
        return false;
    }
    let mut value: [u8; 32] = leaf;
    let mut idx: u64 = index;
    let mut i: usize = 0;
    while i < depth
        invariant
            0 <= i <= depth <= branch@.len(),
            fold_branch(value@, branch@, i as nat, (depth - i) as nat, idx as nat)
                == branch_root(leaf@, branch@, depth as nat, index as nat),
        decreases depth - i,
    {
        let sibling: [u8; 32] = branch[i];
        let joined = if idx % 2 == 1 {
            concat_chunks(&sibling, &value)
        } else {
            concat_chunks(&value, &sibling)
        };
        value = hash(joined.as_slice());
        idx = idx / 2;
        i = i + 1;
    }
    assert(fold_branch(value@, branch@, i as nat, 0, idx as nat) == value@);
    let mut k: usize = 0;
    while k < 32
        invariant
            0 <= k <= 32,
            forall|j: int| 0 <= j < k ==> value@[j] == root@[j],
            depth <= branch@.len(),
            value@ == branch_root(leaf@, branch@, depth as nat, index as nat),
        decreases 32 - k,
    {
        if value[k] != root[k] {
            assert(value@[k as int] != root@[k as int]);
            return false;
        }
        k = k + 1;
    }
    assert(value@ =~= root@);
    true
}

/// A root built by folding a leaf through a branch verifies that leaf,
/// branch and index.
pub proof fn lemma_merkle_branch_round_trip(leaf: Seq<u8>, branch: Seq<Bytes32>, depth: nat, index: nat, root: Seq<u8>)
    requires
        depth <= branch.len(),
        root == branch_root(leaf, branch, depth, index),
    ensures
        valid_merkle_branch(leaf, branch, depth, index, root),
{
}

} // verus!
