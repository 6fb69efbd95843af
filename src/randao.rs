//! Folding a block's randomness reveal into the state's accumulator.
use crate::beacon_state::{epoch_at_slot, get_current_epoch, BeaconState, Context};
use crate::crypto::{hash, merkle_root_of, sha256_of};
use crate::deposit::{same_chain_fields, signature_verdict};
use crate::error::Error;
use crate::primitives::{BeaconBlock, BlsPublicKey, BlsSignature, Bytes32, DomainType, Epoch, Root};
use crate::signing::{domain_at_epoch, domain_of, signing_root, signing_root_from, version_at};
use crate::ssz::{merkleize_fixed, push_u64_chunk, u64_chunk};
use vstd::prelude::*;

verus! {

pub open spec fn epoch_root(e: Epoch) -> Seq<u8> {
    merkle_root_of(u64_chunk(e), None)
}

pub open spec fn xor_bytes(a: Seq<u8>, b: Seq<u8>) -> Seq<u8> {
    Seq::new(32, |i: int| a[i] ^ b[i])
}

/// The slot of the accumulator an epoch writes to.
pub open spec fn mix_index(state: BeaconState, context: Context) -> int {
    (epoch_at_slot(state.slot, context.slots_per_epoch) % (state.randao_mixes@.len() as u64)) as int
}

/// The root a proposer signs to reveal randomness: the current epoch under
/// the randomness domain.
pub open spec fn randao_signing_root(state: BeaconState, context: Context) -> Seq<u8> {
    let epoch = epoch_at_slot(state.slot, context.slots_per_epoch);
    signing_root(epoch_root(epoch), domain_of(DomainType::Randao, version_at(state, epoch)@, state.genesis_validators_root@))
}

/// `after` is `before` with the current epoch's mix xored with the reveal's hash.
pub open spec fn randao_mixed(before: BeaconState, after: Seq<Bytes32>, reveal: BlsSignature, context: Context) -> bool {
    let i = mix_index(before, context);
    &&& after.len() == before.randao_mixes@.len()
    &&& forall|j: int| 0 <= j < after.len() && j != i ==> after[j] == before.randao_mixes@[j]
    &&& after[i]@ == xor_bytes(before.randao_mixes@[i]@, sha256_of(reveal@))
}

/// The root of an epoch number.
pub fn epoch_hash_tree_root(epoch: Epoch) -> (r: Root)
    ensures
        r@ == epoch_root(epoch),
{
    let mut chunks: Vec<u8> = Vec::new();
    push_u64_chunk(&mut chunks, epoch);
    assert(chunks@ =~= u64_chunk(epoch));
    merkleize_fixed(&chunks)
}

fn xor_roots(a: &[u8; 32], b: &[u8; 32]) -> (r: [u8; 32])
    ensures
        r@ == xor_bytes(a@, b@),
{
    let mut out: [u8; 32] = [0u8; 32];
    let mut i: usize = 0;
    while i < 32
        invariant
            0 <= i <= 32,
            forall|j: int| 0 <= j < i ==> out@[j] == a@[j] ^ b@[j],
        decreases 32 - i,
    {
        out[i] = a[i] ^ b[i];
        i = i + 1;
    }
    assert(out@ =~= xor_bytes(a@, b@));
    out
}

/// Checks the block's randomness reveal against its proposer's key and mixes
/// it into the current epoch's slot of the accumulator; on a rejected reveal
/// the state is left as it was.
pub fn process_randao<F: Fn(BlsPublicKey, Root, BlsSignature) -> bool>(
    state: &mut BeaconState,
    block: &BeaconBlock,
    context: &Context,
    verify_signature: F,
) -> (r: Result<(), Error>)
    requires
        context.valid(),
        old(state).wf(),
        block.proposer_index < old(state).validators@.len(),
        forall|pk: BlsPublicKey, root: Root, sig: BlsSignature| call_requires(verify_signature, (pk, root, sig)),
    ensures
        ({
            let o = *old(state);
            let n = *final(state);
            let verdict_of = |v: bool| signature_verdict(
                verify_signature,
                o.validators@[block.proposer_index as int].pubkey,
                randao_signing_root(o, *context),
                block.body.randao_reveal,
                v,
            );
            &&& r is Ok || (r matches Err(Error::InvalidSignature))
            &&& r is Err ==> n == o && verdict_of(false)
            &&& r is Ok ==> {
                &&& verdict_of(true)
                &&& n.wf()
                &&& same_chain_fields(o, n)
                &&& n.latest_block_header == o.latest_block_header
                &&& n.eth1_deposit_index == o.eth1_deposit_index
                &&& n.validators@ == o.validators@
                &&& n.balances@ == o.balances@
                &&& randao_mixed(o, n.randao_mixes@, block.body.randao_reveal, *context)
            }
        }),
{
    let epoch = get_current_epoch(state, context);
    let pubkey = state.validators[block.proposer_index].pubkey;
    let epoch_root = epoch_hash_tree_root(epoch);
    let domain = domain_at_epoch(state, DomainType::Randao, epoch);
    let root = signing_root_from(&epoch_root, &domain);
    if !verify_signature(pubkey, root, block.body.randao_reveal) {
        return Err(Error::InvalidSignature);
    }
    let i = (epoch % (state.randao_mixes.len() as u64)) as usize;
    let reveal_hash = hash(&block.body.randao_reveal);
    let mixed = xor_roots(&state.randao_mixes[i], &reveal_hash);
    state.randao_mixes.set(i, mixed);
    Ok(())
}

} // verus!
