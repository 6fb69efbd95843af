//! Commitments (hash tree roots) of the records, built from 32-byte chunks.
use crate::crypto::{hash, merkle_root_of, merkleize, sha256_of};
use crate::primitives::Root;
use vstd::prelude::*;

verus! {

/// Little-endian encoding of `x` in `n` bytes (higher bytes dropped).
pub open spec fn le_bytes(x: nat, n: nat) -> Seq<u8>
    decreases n,
{
    if n == 0 {
        Seq::empty()
    } else {
        seq![(x % 256) as u8] + le_bytes(x / 256, (n - 1) as nat)
    }
}

pub open spec fn zeros(n: nat) -> Seq<u8> {
    Seq::new(n, |i: int| 0u8)
}

/// The chunk of an unsigned 64-bit integer.
pub open spec fn u64_chunk(x: u64) -> Seq<u8> {
    le_bytes(x as nat, 8) + zeros(24)
}

/// The chunk of a boolean.
pub open spec fn bool_chunk(b: bool) -> Seq<u8> {
    seq![if b { 1u8 } else { 0u8 }] + zeros(31)
}

/// Bytes padded with zeros to whole chunks.
pub open spec fn padded(bytes: Seq<u8>) -> Seq<u8> {
    bytes + zeros(((32 - bytes.len() % 32) % 32) as nat)
}

/// The root of a fixed-length byte vector.
pub open spec fn bytes_root(bytes: Seq<u8>) -> Seq<u8> {
    merkle_root_of(padded(bytes), None)
}

/// The root of a container, from the concatenated roots of its fields.
pub open spec fn container_root(fields: Seq<u8>) -> Seq<u8> {
    merkle_root_of(fields, None)
}

/// A list root: the tree over its element roots, widened to its capacity,
/// with its length mixed in.
pub open spec fn list_root(elements: Seq<u8>, limit: usize) -> Seq<u8> {
    sha256_of(merkle_root_of(elements, Some(limit)) + u64_chunk((elements.len() / 32) as u64))
}

/// Appends `b` to `out`.
pub fn push_bytes(out: &mut Vec<u8>, b: &[u8])
    ensures
        final(out)@ == old(out)@ + b@,
{
    let mut i: usize = 0;
    while i < b.len()
        invariant
            0 <= i <= b@.len(),
            out@ == old(out)@ + b@.subrange(0, i as int),
        decreases b@.len() - i,
    {
        out.push(b[i]);
        i = i + 1;
        assert(out@ =~= old(out)@ + b@.subrange(0, i as int));
    }
    assert(b@.subrange(0, b@.len() as int) =~= b@);
}

/// Appends `n` zero bytes to `out`.
pub fn push_zeros(out: &mut Vec<u8>, n: usize)
    ensures
        final(out)@ == old(out)@ + zeros(n as nat),
{
    let mut i: usize = 0;
    while i < n
        invariant
            0 <= i <= n,
            out@ == old(out)@ + zeros(i as nat),
        decreases n - i,
    {
        out.push(0u8);
        i = i + 1;
        assert(out@ =~= old(out)@ + zeros(i as nat));
    }
}

/// Appends the eight little-endian bytes of `x` to `out`.
pub fn push_u64_le(out: &mut Vec<u8>, x: u64)
    ensures
        final(out)@ == old(out)@ + le_bytes(x as nat, 8),
        final(out)@.len() == old(out)@.len() + 8,
{
    let mut v: u64 = x;
    let mut i: usize = 0;
    let ghost start = out@;
    while i < 8
        invariant
            0 <= i <= 8,
            out@.len() == start.len() + i,
            out@ + le_bytes(v as nat, (8 - i) as nat) == start + le_bytes(x as nat, 8),
        decreases 8 - i,
    {
        let ghost before = out@;
        out.push((v % 256) as u8);
        assert(le_bytes(v as nat, (8 - i) as nat) == seq![(v % 256) as u8] + le_bytes((v / 256) as nat, (8 - i - 1) as nat));
        assert(out@ + le_bytes((v / 256) as nat, (8 - i - 1) as nat) =~= before + le_bytes(v as nat, (8 - i) as nat));
        v = v / 256;
        i = i + 1;
    }
    assert(le_bytes(v as nat, 0) =~= Seq::<u8>::empty());
    assert(out@ =~= start + le_bytes(x as nat, 8));
    proof {
        lemma_le_bytes_len(x as nat, 8);
    }
}

/// Appends the chunk of `x` to `out`.
pub fn push_u64_chunk(out: &mut Vec<u8>, x: u64)
    ensures
        final(out)@ == old(out)@ + u64_chunk(x),
        final(out)@.len() == old(out)@.len() + 32,
{
    let ghost start = out@;
    push_u64_le(out, x);
    push_zeros(out, 24);
    assert(out@ =~= start + u64_chunk(x));
}

pub proof fn lemma_le_bytes_len(x: nat, n: nat)
    ensures
        le_bytes(x, n).len() == n,
    decreases n,
{
    if n > 0 {
        lemma_le_bytes_len(x / 256, (n - 1) as nat);
    }
}

/// Appends the chunk of `b` to `out`.
pub fn push_bool_chunk(out: &mut Vec<u8>, b: bool)
    ensures
        final(out)@ == old(out)@ + bool_chunk(b),
        final(out)@.len() == old(out)@.len() + 32,
{
    let ghost start = out@;
    out.push(if b { 1u8 } else { 0u8 });
    push_zeros(out, 31);
    assert(out@ =~= start + bool_chunk(b));
}

/// Merkleizes whole chunks under no limit, which never fails.
pub fn merkleize_fixed(chunks: &Vec<u8>) -> (r: [u8; 32])
    requires
        chunks@.len() % 32 == 0,
    ensures
        r@ == merkle_root_of(chunks@, None),
{
    let n = chunks.len();
    assert(n / 32 <= usize::MAX / 2 + 1);
    match merkleize(chunks.as_slice(), None) {
        Ok(n) => n,
        Err(_) => {
            assert(false);
            [0u8; 32]
        },
    }
}

/// The root of a fixed-length byte vector.
pub fn fixed_bytes_root(bytes: &[u8]) -> (r: Root)
    requires
        bytes@.len() <= 0x1000,
    ensures
        r@ == bytes_root(bytes@),
{
    let mut chunks: Vec<u8> = Vec::new();
    push_bytes(&mut chunks, bytes);
    let pad = (32 - bytes.len() % 32) % 32;
    push_zeros(&mut chunks, pad);
    assert(chunks@ == padded(bytes@));
    merkleize_fixed(&chunks)
}

/// The root of a list whose elements' roots are concatenated in `elements`,
/// or `None` where the list is longer than `limit`.
pub fn list_root_of(elements: &Vec<u8>, limit: usize) -> (r: Result<Root, ssz_rs::MerkleizationError>)
    requires
        elements@.len() % 32 == 0,
        limit <= usize::MAX / 2 + 1,
    ensures
        r matches Ok(x) ==> x@ == list_root(elements@, limit),
        r is Ok <==> elements@.len() / 32 <= limit,
{
    let n = elements.len();
    assert(n / 32 <= usize::MAX / 2 + 1);
    let root = merkleize(elements.as_slice(), Some(limit))?;
    let mut mixed: Vec<u8> = Vec::new();
    push_bytes(&mut mixed, &root);
    let count = (n / 32) as u64;
    push_u64_chunk(&mut mixed, count);
    Ok(hash(mixed.as_slice()))
}

/// The little-endian bytes of each value, in order.
pub open spec fn packed_u64s(xs: Seq<u64>) -> Seq<u8>
    decreases xs.len(),
{
    if xs.len() == 0 {
        Seq::empty()
    } else {
        packed_u64s(xs.drop_last()) + le_bytes(xs.last() as nat, 8)
    }
}

/// The little-endian bytes of each value, in order.
pub fn pack_u64s(xs: &Vec<u64>) -> (r: Vec<u8>)
    ensures
        r@ == packed_u64s(xs@),
        r@.len() == 8 * xs@.len(),
{
    let mut packed: Vec<u8> = Vec::new();
    let mut k: usize = 0;
    while k < xs.len()
        invariant
            0 <= k <= xs@.len(),
            packed@ == packed_u64s(xs@.subrange(0, k as int)),
            packed@.len() == 8 * k,
        decreases xs@.len() - k,
    {
        push_u64_le(&mut packed, xs[k]);
        k = k + 1;
        assert(xs@.subrange(0, k as int).drop_last() =~= xs@.subrange(0, k - 1));
    }
    assert(xs@.subrange(0, k as int) =~= xs@);
    packed
}

/// A list root of basic values: their packed bytes padded to chunks, the
/// tree widened to `limit` chunks, with the number of values mixed in.
pub open spec fn basic_list_root(packed: Seq<u8>, count: u64, limit: usize) -> Seq<u8> {
    sha256_of(merkle_root_of(padded(packed), Some(limit)) + u64_chunk(count))
}

/// The root of a list of basic values packed into `packed`, `count` of them,
/// or an error where the padded bytes exceed `limit` chunks.
pub fn basic_list_root_of(packed: &Vec<u8>, count: u64, limit: usize) -> (r: Result<Root, ssz_rs::MerkleizationError>)
    requires
        limit <= usize::MAX / 2 + 1,
    ensures
        r matches Ok(x) ==> x@ == basic_list_root(packed@, count, limit),
        r is Ok <==> padded(packed@).len() / 32 <= limit,
{
    let mut chunks: Vec<u8> = Vec::new();
    push_bytes(&mut chunks, packed.as_slice());
    let pad = (32 - packed.len() % 32) % 32;
    push_zeros(&mut chunks, pad);
    assert(chunks@ == padded(packed@));
    let n = chunks.len();
    assert(n / 32 <= usize::MAX / 2 + 1);
    let root = merkleize(chunks.as_slice(), Some(limit))?;
    let mut mixed: Vec<u8> = Vec::new();
    push_bytes(&mut mixed, &root);
    push_u64_chunk(&mut mixed, count);
    Ok(hash(mixed.as_slice()))
}

} // verus!
