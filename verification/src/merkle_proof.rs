//! Merkle inclusion proofs over Keccak-256.
//!
//! A leaf commits to one entitlement `(index, receiver, amount)`. A proof is the
//! list of sibling digests met on the way from the leaf up to the root. Two
//! digests are always combined smaller first, so a proof carries no left/right
//! bookkeeping.
use vstd::prelude::*;
use vstd::bytes::{spec_u64_to_le_bytes, u64_to_le_bytes};
use crate::pubkey::Pubkey;

verus! {

/// The Keccak-256 digest of a byte string.
pub uninterp spec fn keccak256(data: Seq<u8>) -> [u8; 32];

/// Calls `anchor_lang::solana_program::keccak::hashv` on the single slice
/// `data`. Trusted: the digest returned is the Keccak-256 digest of `data`,
/// the same for the same bytes on every machine.
#[verifier::external_body]
fn keccak(data: &[u8]) -> (digest: [u8; 32])
    ensures
        digest == keccak256(data@),
{
    anchor_lang::solana_program::keccak::hashv(&[data]).to_bytes()
}

/// The bytes a leaf digest is taken over: the index and the amount as eight
/// little-endian bytes each, with the receiver's thirty-two bytes between them.
pub open spec fn spec_leaf_preimage(index: u64, receiver: Pubkey, amount: u64) -> Seq<u8> {
    spec_u64_to_le_bytes(index) + receiver@ + spec_u64_to_le_bytes(amount)
}

/// The digest of the leaf `(index, receiver, amount)`.
pub open spec fn spec_leaf_hash(index: u64, receiver: Pubkey, amount: u64) -> [u8; 32] {
    keccak256(spec_leaf_preimage(index, receiver, amount))
}

/// `a` comes no later than `b` when both are read as big-endian numbers,
/// that is, byte by byte from the front.
pub open spec fn spec_digest_le(a: [u8; 32], b: [u8; 32]) -> bool {
    a@ == b@ || exists|i: int|
        0 <= i < 32 && a@[i] < b@[i] && forall|j: int| 0 <= j < i ==> a@[j] == b@[j]
}

/// The bytes an inner node's digest is taken over: its two children, the
/// smaller first.
pub open spec fn spec_pair_preimage(a: [u8; 32], b: [u8; 32]) -> Seq<u8> {
    if spec_digest_le(a, b) {
        a@ + b@
    } else {
        b@ + a@
    }
}

/// The digest of the inner node with children `a` and `b`.
pub open spec fn spec_hash_pair(a: [u8; 32], b: [u8; 32]) -> [u8; 32] {
    keccak256(spec_pair_preimage(a, b))
}

/// The digest reached from `leaf` by combining it with each sibling of `proof`
/// in turn.
pub open spec fn spec_root(leaf: [u8; 32], proof: Seq<[u8; 32]>) -> [u8; 32]
    decreases proof.len(),
{
    if proof.len() == 0 {
        leaf
    } else {
        spec_hash_pair(spec_root(leaf, proof.drop_last()), proof.last())
    }
}

/// Whether `proof` leads from `leaf` to `root`.
pub open spec fn spec_verify(proof: Seq<[u8; 32]>, root: [u8; 32], leaf: [u8; 32]) -> bool {
    spec_root(leaf, proof) == root
}

/// Appends the thirty-two bytes of `digest` to `out`.
fn push_digest(out: &mut Vec<u8>, digest: &[u8; 32])
    ensures
        final(out)@ == old(out)@ + digest@,
{
    let ghost before = out@;
    let mut i: usize = 0;
    while i < 32
        invariant
            i <= 32,
            out@ == before + digest@.take(i as int),
        decreases 32 - i,
    {
        out.push(digest[i]);
        assert(digest@.take(i + 1) == digest@.take(i as int).push(digest@[i as int]));
        i += 1;
    }
    assert(digest@.take(32) == digest@);
}

/// The bytes a leaf digest is taken over.
pub fn leaf_preimage(index: u64, receiver: &Pubkey, amount: u64) -> (bytes: Vec<u8>)
    ensures
        bytes@ == spec_leaf_preimage(index, *receiver, amount),
        bytes@.len() == 48,
{
    let mut bytes = u64_to_le_bytes(index);
    push_digest(&mut bytes, &receiver.bytes);
    let mut tail = u64_to_le_bytes(amount);
    bytes.append(&mut tail);
    bytes
}

/// The digest of the leaf `(index, receiver, amount)`.
pub fn leaf_hash(index: u64, receiver: &Pubkey, amount: u64) -> (digest: [u8; 32])
    ensures
        digest == spec_leaf_hash(index, *receiver, amount),
{
    let bytes = leaf_preimage(index, receiver, amount);
    keccak(bytes.as_slice())
}

/// Whether `a` comes no later than `b`, byte by byte from the front.
pub fn digest_le(a: &[u8; 32], b: &[u8; 32]) -> (le: bool)
    ensures
        le == spec_digest_le(*a, *b),
{
    let mut i: usize = 0;
    while i < 32
        invariant
            i <= 32,
            forall|j: int| 0 <= j < i ==> a@[j] == b@[j],
        decreases 32 - i,
    {
        if a[i] < b[i] {
            return true;
        }
        if a[i] > b[i] {
            proof {
                let k = i as int;
                assert(a@[k] != b@[k]);
                assert forall|w: int|
                    0 <= w < 32 && a@[w] < b@[w] implies !(forall|j: int|
                        0 <= j < w ==> a@[j] == b@[j]) by {
                    if w > k {
                        assert(a@[k] != b@[k]);
                    }
                }
            }
            return false;
        }
        i += 1;
    }
    assert(a@ =~= b@);
    true
}

/// The bytes an inner node's digest is taken over: `a` and `b`, the smaller
/// first.
pub fn pair_preimage(a: &[u8; 32], b: &[u8; 32]) -> (bytes: Vec<u8>)
    ensures
        bytes@ == spec_pair_preimage(*a, *b),
        bytes@.len() == 64,
{
    let mut bytes: Vec<u8> = Vec::new();
    if digest_le(a, b) {
        push_digest(&mut bytes, a);
        push_digest(&mut bytes, b);
    } else {
        push_digest(&mut bytes, b);
        push_digest(&mut bytes, a);
    }
    bytes
}

/// The digest of the inner node with children `a` and `b`.
pub fn hash_pair(a: &[u8; 32], b: &[u8; 32]) -> (digest: [u8; 32])
    ensures
        digest == spec_hash_pair(*a, *b),
{
    let bytes = pair_preimage(a, b);
    keccak(bytes.as_slice())
}

/// The digest reached from `leaf` by combining it with each sibling of `proof`
/// in turn.
pub fn compute_root(proof: &Vec<[u8; 32]>, leaf: [u8; 32]) -> (root: [u8; 32])
    ensures
        root == spec_root(leaf, proof@),
{
    let mut computed = leaf;
    let mut i: usize = 0;
    while i < proof.len()
        invariant
            i <= proof.len(),
            computed == spec_root(leaf, proof@.take(i as int)),
        decreases proof.len() - i,
    {
        computed = hash_pair(&computed, &proof[i]);
        proof {
            let next = proof@.take(i + 1);
            assert(next.drop_last() == proof@.take(i as int));
            assert(next.last() == proof@[i as int]);
        }
        i += 1;
    }
    assert(proof@.take(proof.len() as int) == proof@);
    computed
}

/// Whether `proof` shows that `leaf` belongs to the tree with root `root`.
pub fn verify(proof: Vec<[u8; 32]>, root: [u8; 32], leaf: [u8; 32]) -> (accepted: bool)
    ensures
        accepted == spec_verify(proof@, root, leaf),
{
    let computed = compute_root(&proof, leaf);
    crate::pubkey::bytes32_eq(&computed, &root)
}

} // verus!
