//! What holds of Merkle proofs: every leaf of a tree has a proof that leads
//! to the tree's root, and a proof that still leads there after the leaf or
//! one of its siblings was changed exhibits two byte strings with the same
//! Keccak-256 digest.
use vstd::prelude::*;
use vstd::bytes::{lemma_auto_spec_u64_to_from_le_bytes, spec_u64_to_le_bytes};
use crate::merkle_proof::{
    keccak256, spec_digest_le, spec_hash_pair, spec_leaf_hash, spec_leaf_preimage,
    spec_pair_preimage, spec_root, spec_verify,
};
use crate::pubkey::Pubkey;

verus! {

/// A tree of digests: a leaf, or an inner node over two subtrees.
pub enum MerkleTree {
    Leaf { digest: [u8; 32] },
    Node { left: Box<MerkleTree>, right: Box<MerkleTree> },
}

impl MerkleTree {
    /// The digest that commits to the whole tree.
    pub open spec fn root(self) -> [u8; 32]
        decreases self,
    {
        match self {
            MerkleTree::Leaf { digest } => digest,
            MerkleTree::Node { left, right } => spec_hash_pair(left.root(), right.root()),
        }
    }

    /// Whether `path` leads from the top of the tree down to a leaf; `false`
    /// turns left and `true` turns right.
    pub open spec fn has_leaf(self, path: Seq<bool>) -> bool
        decreases self,
    {
        match self {
            MerkleTree::Leaf { .. } => path.len() == 0,
            MerkleTree::Node { left, right } => path.len() > 0 && if path[0] {
                right.has_leaf(path.drop_first())
            } else {
                left.has_leaf(path.drop_first())
            },
        }
    }

    /// The digest of the leaf that `path` leads to.
    pub open spec fn leaf(self, path: Seq<bool>) -> [u8; 32]
        recommends
            self.has_leaf(path),
        decreases self,
    {
        match self {
            MerkleTree::Leaf { digest } => digest,
            MerkleTree::Node { left, right } => if path.len() > 0 && path[0] {
                right.leaf(path.drop_first())
            } else {
                left.leaf(path.drop_first())
            },
        }
    }

    /// The genuine proof of the leaf that `path` leads to: the roots of the
    /// subtrees left aside on the way, the lowest first.
    pub open spec fn siblings(self, path: Seq<bool>) -> Seq<[u8; 32]>
        recommends
            self.has_leaf(path),
        decreases self,
    {
        match self {
            MerkleTree::Leaf { .. } => Seq::empty(),
            MerkleTree::Node { left, right } => if path.len() > 0 && path[0] {
                right.siblings(path.drop_first()).push(left.root())
            } else {
                left.siblings(path.drop_first()).push(right.root())
            },
        }
    }
}

/// Whether two different byte strings have the same Keccak-256 digest.
pub open spec fn keccak_collision() -> bool {
    exists|x: Seq<u8>, y: Seq<u8>| x != y && #[trigger] keccak256(x) == #[trigger] keccak256(y)
}

/// Of two digests that differ, the first place at which they differ.
spec fn first_difference(a: [u8; 32], b: [u8; 32], from: int) -> int
    decreases 32 - from,
{
    if from >= 32 {
        32
    } else if a@[from] != b@[from] {
        from
    } else {
        first_difference(a, b, from + 1)
    }
}

proof fn lemma_first_difference(a: [u8; 32], b: [u8; 32], from: int)
    requires
        0 <= from <= 32,
    ensures
        from <= first_difference(a, b, from) <= 32,
        forall|j: int| from <= j < first_difference(a, b, from) ==> a@[j] == b@[j],
        first_difference(a, b, from) < 32 ==> a@[first_difference(a, b, from)]
            != b@[first_difference(a, b, from)],
    decreases 32 - from,
{
    if from < 32 && a@[from] == b@[from] {
        lemma_first_difference(a, b, from + 1);
    }
}

/// Of any two digests one comes no later than the other.
pub proof fn lemma_digest_le_total(a: [u8; 32], b: [u8; 32])
    ensures
        spec_digest_le(a, b) || spec_digest_le(b, a),
{
    lemma_first_difference(a, b, 0);
    let d = first_difference(a, b, 0);
    if d >= 32 {
        assert(a@ =~= b@);
    } else if a@[d] < b@[d] {
        assert(0 <= d < 32 && a@[d] < b@[d] && forall|j: int| 0 <= j < d ==> a@[j] == b@[j]);
    } else {
        assert(0 <= d < 32 && b@[d] < a@[d] && forall|j: int| 0 <= j < d ==> b@[j] == a@[j]);
    }
}

/// Two digests each of which comes no later than the other are the same.
pub proof fn lemma_digest_le_antisymmetric(a: [u8; 32], b: [u8; 32])
    requires
        spec_digest_le(a, b),
        spec_digest_le(b, a),
    ensures
        a == b,
{
    if a@ != b@ {
        let i = choose|i: int|
            0 <= i < 32 && a@[i] < b@[i] && forall|j: int| 0 <= j < i ==> a@[j] == b@[j];
        let k = choose|k: int|
            0 <= k < 32 && b@[k] < a@[k] && forall|j: int| 0 <= j < k ==> b@[j] == a@[j];
        if i < k {
            assert(b@[i] == a@[i]);
        } else if k < i {
            assert(a@[k] == b@[k]);
        }
    }
    assert(a =~= b);
}

/// An inner node's digest does not depend on which child is named first.
pub proof fn lemma_hash_pair_symmetric(a: [u8; 32], b: [u8; 32])
    ensures
        spec_pair_preimage(a, b) == spec_pair_preimage(b, a),
        spec_hash_pair(a, b) == spec_hash_pair(b, a),
{
    lemma_digest_le_total(a, b);
    if spec_digest_le(a, b) && spec_digest_le(b, a) {
        lemma_digest_le_antisymmetric(a, b);
    }
}

/// Completeness: in every tree, the genuine proof of every leaf leads from
/// the leaf to the tree's root, so it is accepted against that root.
pub proof fn law_genuine_proof_verifies(tree: MerkleTree, path: Seq<bool>)
    requires
        tree.has_leaf(path),
    ensures
        spec_root(tree.leaf(path), tree.siblings(path)) == tree.root(),
        spec_verify(tree.siblings(path), tree.root(), tree.leaf(path)),
    decreases tree,
{
    match tree {
        MerkleTree::Leaf { .. } => {},
        MerkleTree::Node { left, right } => {
            let rest = path.drop_first();
            if path[0] {
                law_genuine_proof_verifies(*right, rest);
                let below = right.siblings(rest);
                assert(tree.siblings(path).drop_last() == below);
                assert(tree.siblings(path).last() == left.root());
                lemma_hash_pair_symmetric(right.root(), left.root());
            } else {
                law_genuine_proof_verifies(*left, rest);
                let below = left.siblings(rest);
                assert(tree.siblings(path).drop_last() == below);
                assert(tree.siblings(path).last() == right.root());
            }
        },
    }
}

/// Two pairs of digests with the same bytes in order are the same pair.
proof fn lemma_concat_injective(a: [u8; 32], b: [u8; 32], c: [u8; 32], d: [u8; 32])
    requires
        a@ + b@ == c@ + d@,
    ensures
        a == c,
        b == d,
{
    assert forall|i: int| 0 <= i < 32 implies a@[i] == c@[i] by {
        assert((a@ + b@)[i] == a@[i]);
        assert((c@ + d@)[i] == c@[i]);
    }
    assert forall|i: int| 0 <= i < 32 implies b@[i] == d@[i] by {
        assert((a@ + b@)[i + 32] == b@[i]);
        assert((c@ + d@)[i + 32] == d@[i]);
    }
    assert(a =~= c);
    assert(b =~= d);
}

/// Two different digests combined with the same sibling give different
/// bytes to hash.
proof fn lemma_pair_preimage_binds(x: [u8; 32], y: [u8; 32], sibling: [u8; 32])
    requires
        x != y,
    ensures
        spec_pair_preimage(x, sibling) != spec_pair_preimage(y, sibling),
{
    if spec_pair_preimage(x, sibling) == spec_pair_preimage(y, sibling) {
        if spec_digest_le(x, sibling) {
            if spec_digest_le(y, sibling) {
                lemma_concat_injective(x, sibling, y, sibling);
            } else {
                lemma_concat_injective(x, sibling, sibling, y);
            }
        } else {
            if spec_digest_le(y, sibling) {
                lemma_concat_injective(sibling, x, y, sibling);
            } else {
                lemma_concat_injective(sibling, x, sibling, y);
            }
        }
    }
}

/// One digest combined with two different siblings gives different bytes to
/// hash.
proof fn lemma_pair_preimage_binds_sibling(x: [u8; 32], s: [u8; 32], t: [u8; 32])
    requires
        s != t,
    ensures
        spec_pair_preimage(x, s) != spec_pair_preimage(x, t),
{
    lemma_hash_pair_symmetric(x, s);
    lemma_hash_pair_symmetric(x, t);
    lemma_pair_preimage_binds(s, t, x);
}

/// The bytes hashed for a leaf determine the leaf.
pub proof fn lemma_leaf_preimage_injective(
    index: u64,
    receiver: Pubkey,
    amount: u64,
    other_index: u64,
    other_receiver: Pubkey,
    other_amount: u64,
)
    requires
        spec_leaf_preimage(index, receiver, amount) == spec_leaf_preimage(
            other_index,
            other_receiver,
            other_amount,
        ),
    ensures
        index == other_index,
        receiver == other_receiver,
        amount == other_amount,
{
    lemma_auto_spec_u64_to_from_le_bytes();
    let p = spec_leaf_preimage(index, receiver, amount);
    let q = spec_leaf_preimage(other_index, other_receiver, other_amount);
    assert(p.subrange(0, 8) =~= spec_u64_to_le_bytes(index));
    assert(q.subrange(0, 8) =~= spec_u64_to_le_bytes(other_index));
    assert(p.subrange(8, 40) =~= receiver@);
    assert(q.subrange(8, 40) =~= other_receiver@);
    assert(p.subrange(40, 48) =~= spec_u64_to_le_bytes(amount));
    assert(q.subrange(40, 48) =~= spec_u64_to_le_bytes(other_amount));
    Pubkey::lemma_view_injective(receiver, other_receiver);
}

/// A leaf digest commits to its entitlement: two entitlements with the same
/// digest are the same, or two byte strings collide under Keccak-256.
pub proof fn law_leaf_binding(
    index: u64,
    receiver: Pubkey,
    amount: u64,
    other_index: u64,
    other_receiver: Pubkey,
    other_amount: u64,
)
    requires
        spec_leaf_hash(index, receiver, amount) == spec_leaf_hash(
            other_index,
            other_receiver,
            other_amount,
        ),
    ensures
        (index == other_index && receiver == other_receiver && amount == other_amount)
            || keccak_collision(),
{
    let p = spec_leaf_preimage(index, receiver, amount);
    let q = spec_leaf_preimage(other_index, other_receiver, other_amount);
    if p == q {
        lemma_leaf_preimage_injective(
            index,
            receiver,
            amount,
            other_index,
            other_receiver,
            other_amount,
        );
    } else {
        assert(p != q && keccak256(p) == keccak256(q));
    }
}

/// A proof commits to its leaf: two different leaf digests that the same
/// proof leads to the same root exhibit a collision under Keccak-256.
pub proof fn law_tampered_leaf(leaf: [u8; 32], other: [u8; 32], proof: Seq<[u8; 32]>)
    requires
        leaf != other,
    ensures
        spec_root(leaf, proof) != spec_root(other, proof) || keccak_collision(),
    decreases proof.len(),
{
    if proof.len() > 0 {
        let x = spec_root(leaf, proof.drop_last());
        let y = spec_root(other, proof.drop_last());
        law_tampered_leaf(leaf, other, proof.drop_last());
        if x != y {
            lemma_pair_preimage_binds(x, y, proof.last());
            let p = spec_pair_preimage(x, proof.last());
            let q = spec_pair_preimage(y, proof.last());
            if keccak256(p) == keccak256(q) {
                assert(p != q && keccak256(p) == keccak256(q));
            }
        }
    }
}

/// A root commits to every sibling of a proof: if a proof still leads from
/// the same leaf to the same root after the sibling at `position` was
/// replaced by a different digest, there is a collision under Keccak-256.
pub proof fn law_tampered_sibling(
    leaf: [u8; 32],
    proof: Seq<[u8; 32]>,
    position: int,
    sibling: [u8; 32],
)
    requires
        0 <= position < proof.len(),
        sibling != proof[position],
    ensures
        spec_root(leaf, proof) != spec_root(leaf, proof.update(position, sibling))
            || keccak_collision(),
    decreases proof.len(),
{
    let changed = proof.update(position, sibling);
    if position == proof.len() - 1 {
        assert(changed.drop_last() == proof.drop_last());
        let x = spec_root(leaf, proof.drop_last());
        lemma_pair_preimage_binds_sibling(x, proof.last(), sibling);
        let p = spec_pair_preimage(x, proof.last());
        let q = spec_pair_preimage(x, sibling);
        if keccak256(p) == keccak256(q) {
            assert(p != q && keccak256(p) == keccak256(q));
        }
    } else {
        assert(changed.drop_last() == proof.drop_last().update(position, sibling));
        assert(changed.last() == proof.last());
        law_tampered_sibling(leaf, proof.drop_last(), position, sibling);
        let x = spec_root(leaf, proof.drop_last());
        let y = spec_root(leaf, changed.drop_last());
        if x != y {
            lemma_pair_preimage_binds(x, y, proof.last());
            let p = spec_pair_preimage(x, proof.last());
            let q = spec_pair_preimage(y, proof.last());
            if keccak256(p) == keccak256(q) {
                assert(p != q && keccak256(p) == keccak256(q));
            }
        }
    }
}

/// Soundness up to collisions. If a proof is accepted for the entitlement
/// `(index, receiver, amount)` against a root, then unless two byte strings
/// collide under Keccak-256 it is rejected against that root as soon as the
/// index, the receiver or the amount is changed, and so is every proof that
/// differs from it in one sibling.
pub proof fn law_proof_soundness(
    root: [u8; 32],
    index: u64,
    receiver: Pubkey,
    amount: u64,
    proof: Seq<[u8; 32]>,
    other_index: u64,
    other_receiver: Pubkey,
    other_amount: u64,
    position: int,
    sibling: [u8; 32],
)
    requires
        spec_verify(proof, root, spec_leaf_hash(index, receiver, amount)),
    ensures
        index != other_index || receiver != other_receiver || amount != other_amount
            ==> !spec_verify(
            proof,
            root,
            spec_leaf_hash(other_index, other_receiver, other_amount),
        ) || keccak_collision(),
        0 <= position < proof.len() && sibling != proof[position] ==> !spec_verify(
            proof.update(position, sibling),
            root,
            spec_leaf_hash(index, receiver, amount),
        ) || keccak_collision(),
{
    let leaf = spec_leaf_hash(index, receiver, amount);
    let other = spec_leaf_hash(other_index, other_receiver, other_amount);
    if index != other_index || receiver != other_receiver || amount != other_amount {
        if leaf == other {
            law_leaf_binding(index, receiver, amount, other_index, other_receiver, other_amount);
        } else {
            law_tampered_leaf(leaf, other, proof);
        }
    }
    if 0 <= position < proof.len() && sibling != proof[position] {
        law_tampered_sibling(leaf, proof, position, sibling);
    }
}

} // verus!
