//! Hashing and Merkleization primitives, taken from outside crates.
use sha2::Digest;
use vstd::prelude::*;

verus! {

/// The SHA-256 digest of a byte string.
pub uninterp spec fn sha256_of(data: Seq<u8>) -> Seq<u8>;

/// The SSZ Merkle root of `chunks` (a multiple of 32 bytes), with the tree
/// widened to `limit` leaves when a limit is given.
pub uninterp spec fn merkle_root_of(chunks: Seq<u8>, limit: Option<usize>) -> Seq<u8>;

#[verifier::external_type_specification]
#[verifier::external_body]
pub struct ExMerkleizationError(ssz_rs::MerkleizationError);

/// Relies on sha2's `Sha256::digest`: the 32-byte SHA-256 digest of `data`.
#[verifier::external_body]
pub(crate) fn hash(data: &[u8]) -> (r: [u8; 32])
    ensures
        r@ == sha256_of(data@),
{
    sha2::Sha256::digest(data).into()
}

/// Whether ssz_rs's `merkleize` accepts `chunks` under `limit`: it refuses a
/// limit below the number of chunks.
pub open spec fn merkleize_accepts(chunks: Seq<u8>, limit: Option<usize>) -> bool {
    match limit {
        Some(l) => chunks.len() / 32 <= l,
        None => true,
    }
}

/// Relies on ssz_rs's `merkleize` (exported under `__internal`): the Merkle
/// root of the chunks, or `InputExceedsLimit` when there are more chunks than
/// the limit allows. The limit is at most half the word range plus one, so
/// widening it to a power of two cannot overflow.
#[verifier::external_body]
pub(crate) fn merkleize(chunks: &[u8], limit: Option<usize>) -> (r: Result<[u8; 32], ssz_rs::MerkleizationError>)
    requires
        chunks@.len() % 32 == 0,
        chunks@.len() / 32 <= usize::MAX / 2 + 1,
        limit matches Some(l) ==> l <= usize::MAX / 2 + 1,
    ensures
        r matches Ok(n) ==> n@ == merkle_root_of(chunks@, limit),
        r is Ok <==> merkleize_accepts(chunks@, limit),
{
    let node = ssz_rs::__internal::merkleize(chunks, limit)?;
    let mut out = [0u8; 32];
    out.copy_from_slice(node.as_ref());
    Ok(out)
}

} // verus!
