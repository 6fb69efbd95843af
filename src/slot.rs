//! The state's commitment, slot processing and slot advancement.
use crate::beacon_state::{epoch_at_slot, BeaconState, Context};
use crate::block::{concat_roots, eth1_data_root};
use crate::crypto::merkle_root_of;
use crate::deposit::same_chain_fields;
use crate::epoch::{process_effective_balance_updates, process_randao_mixes_reset, requantized};
use crate::error::{Error, InvalidOperation};
use crate::genesis::{registry_root, validators_hash_tree_root};
use crate::primitives::{Bytes32, Fork, Root};
use crate::signing::{checkpoint_root, header_root, HashTreeRoot};
use crate::ssz::{
    basic_list_root, basic_list_root_of, bytes_root, container_root, fixed_bytes_root,
    merkleize_fixed, pack_u64s, packed_u64s, push_bytes, push_u64_chunk, u64_chunk, zeros,
};
use crate::registry::{process_registry_updates, registry_updated};
use crate::validator::root_eq;
use vstd::prelude::*;

verus! {

pub open spec fn fork_root(f: Fork) -> Seq<u8> {
    container_root(bytes_root(f.previous_version@) + bytes_root(f.current_version@) + u64_chunk(f.epoch))
}

/// Chunks that a balance list of `limit` entries may fill: four per chunk.
pub open spec fn balance_chunk_limit(limit: usize) -> usize {
    (limit / 4 + if limit % 4 == 0 { 0usize } else { 1usize }) as usize
}

pub open spec fn balances_root(balances: Seq<u64>, limit: usize) -> Seq<u8> {
    basic_list_root(packed_u64s(balances), balances.len() as u64, balance_chunk_limit(limit))
}

pub open spec fn mixes_root(mixes: Seq<Bytes32>) -> Seq<u8> {
    merkle_root_of(concat_roots(mixes.map(|i: int, m: Bytes32| bytes_root(m@))), None)
}

/// The commitment of a state, its registry and balances bounded by the
/// context's registry limit.
pub open spec fn state_root(s: BeaconState, context: Context) -> Seq<u8> {
    let limit = context.validator_registry_limit as usize;
    container_root(
        u64_chunk(s.genesis_time) + bytes_root(s.genesis_validators_root@) + u64_chunk(s.slot) + fork_root(s.fork)
            + header_root(s.latest_block_header) + eth1_data_root(s.eth1_data) + u64_chunk(s.eth1_deposit_index)
            + registry_root(s.validators@, limit) + balances_root(s.balances@, limit) + mixes_root(s.randao_mixes@)
            + checkpoint_root(s.previous_justified_checkpoint) + checkpoint_root(s.current_justified_checkpoint)
            + checkpoint_root(s.finalized_checkpoint),
    )
}

impl HashTreeRoot for Fork {
    open spec fn root_spec(&self) -> Seq<u8> {
        fork_root(*self)
    }

    fn hash_tree_root(&self) -> (r: Root) {
        let mut chunks: Vec<u8> = Vec::new();
        let p = fixed_bytes_root(&self.previous_version);
        push_bytes(&mut chunks, &p);
        let c = fixed_bytes_root(&self.current_version);
        push_bytes(&mut chunks, &c);
        push_u64_chunk(&mut chunks, self.epoch);
        assert(chunks@ =~= bytes_root(self.previous_version@) + bytes_root(self.current_version@) + u64_chunk(
            self.epoch,
        ));
        merkleize_fixed(&chunks)
    }
}

fn balances_hash_tree_root(balances: &Vec<u64>, limit: usize) -> (r: Result<Root, Error>)
    requires
        limit <= usize::MAX / 2 + 1,
        balances@.len() <= limit,
    ensures
        r matches Ok(x) ==> x@ == balances_root(balances@, limit),
        r is Ok,
{
    let packed = pack_u64s(balances);
    let k = balances.len();
    let count = balances.len() as u64;
    let chunk_limit = limit / 4 + if limit % 4 == 0 { 0usize } else { 1usize };
    assert(crate::ssz::padded(packed@).len() / 32 <= chunk_limit) by (nonlinear_arith)
        requires
            crate::ssz::padded(packed@).len() == packed@.len() + ((32 - packed@.len() % 32) % 32),
            packed@.len() == 8 * k,
            k <= limit,
            chunk_limit == limit / 4 + if limit % 4 == 0 { 0usize } else { 1usize };
    match basic_list_root_of(&packed, count, chunk_limit) {
        Ok(x) => Ok(x),
        Err(e) => {
            assert(false);
            Err(Error::MerkleizationError(e))
        },
    }
}

fn mixes_hash_tree_root(mixes: &Vec<Bytes32>) -> (r: Root)
    ensures
        r@ == mixes_root(mixes@),
{
    let ghost roots = mixes@.map(|i: int, m: Bytes32| bytes_root(m@));
    let mut chunks: Vec<u8> = Vec::new();
    let mut k: usize = 0;
    while k < mixes.len()
        invariant
            0 <= k <= mixes@.len(),
            roots == mixes@.map(|i: int, m: Bytes32| bytes_root(m@)),
            chunks@ == concat_roots(roots.subrange(0, k as int)),
            chunks@.len() == 32 * k,
        decreases mixes@.len() - k,
    {
        let r = fixed_bytes_root(&mixes[k]);
        push_bytes(&mut chunks, &r);
        k = k + 1;
        assert(roots.subrange(0, k as int).drop_last() =~= roots.subrange(0, k - 1));
    }
    assert(roots.subrange(0, k as int) =~= roots);
    merkleize_fixed(&chunks)
}

/// The commitment of `state`, or an error when its registry exceeds the
/// context's limit.
pub fn state_hash_tree_root(state: &BeaconState, context: &Context) -> (r: Result<Root, Error>)
    requires
        context.valid(),
        state.wf(),
    ensures
        r matches Ok(x) ==> x@ == state_root(*state, *context),
        r is Ok <==> state.validators@.len() <= context.validator_registry_limit as usize,
{
    let limit = context.validator_registry_limit as usize;
    let validators = validators_hash_tree_root(&state.validators, limit)?;
    let balances = balances_hash_tree_root(&state.balances, limit)?;
    let mixes = mixes_hash_tree_root(&state.randao_mixes);
    let mut chunks: Vec<u8> = Vec::new();
    push_u64_chunk(&mut chunks, state.genesis_time);
    let gvr = fixed_bytes_root(&state.genesis_validators_root);
    push_bytes(&mut chunks, &gvr);
    push_u64_chunk(&mut chunks, state.slot);
    let fork = state.fork.hash_tree_root();
    push_bytes(&mut chunks, &fork);
    let header = state.latest_block_header.hash_tree_root();
    push_bytes(&mut chunks, &header);
    let eth1 = state.eth1_data.hash_tree_root();
    push_bytes(&mut chunks, &eth1);
    push_u64_chunk(&mut chunks, state.eth1_deposit_index);
    push_bytes(&mut chunks, &validators);
    push_bytes(&mut chunks, &balances);
    push_bytes(&mut chunks, &mixes);
    let pj = state.previous_justified_checkpoint.hash_tree_root();
    push_bytes(&mut chunks, &pj);
    let cj = state.current_justified_checkpoint.hash_tree_root();
    push_bytes(&mut chunks, &cj);
    let fin = state.finalized_checkpoint.hash_tree_root();
    push_bytes(&mut chunks, &fin);
    assert(chunks@ =~= u64_chunk(state.genesis_time) + bytes_root(state.genesis_validators_root@) + u64_chunk(
        state.slot,
    ) + fork_root(state.fork) + header_root(state.latest_block_header) + eth1_data_root(state.eth1_data)
        + u64_chunk(state.eth1_deposit_index) + registry_root(state.validators@, limit) + balances_root(
        state.balances@,
        limit,
    ) + mixes_root(state.randao_mixes@) + checkpoint_root(state.previous_justified_checkpoint) + checkpoint_root(
        state.current_justified_checkpoint,
    ) + checkpoint_root(state.finalized_checkpoint));
    Ok(merkleize_fixed(&chunks))
}

/// The header's state root after slot processing: a zero one is filled with
/// the commitment of the state as the slot ends, any other is kept.
pub open spec fn chained_state_root(o: BeaconState, context: Context) -> Seq<u8> {
    if o.latest_block_header.state_root@ == zeros(32) {
        state_root(o, context)
    } else {
        o.latest_block_header.state_root@
    }
}

/// Closes the current slot: a block header still waiting for its state root
/// gets the commitment of the state as it stands.
pub fn process_slot(state: &mut BeaconState, context: &Context) -> (r: Result<(), Error>)
    requires
        context.valid(),
        old(state).wf(),
    ensures
        r is Ok <==> old(state).validators@.len() <= context.validator_registry_limit as usize,
        r is Err ==> *final(state) == *old(state),
        r is Ok ==> {
            &&& final(state).wf()
            &&& same_chain_fields(*old(state), *final(state))
            &&& final(state).randao_mixes@ == old(state).randao_mixes@
            &&& final(state).eth1_deposit_index == old(state).eth1_deposit_index
            &&& final(state).validators@ == old(state).validators@
            &&& final(state).balances@ == old(state).balances@
            &&& final(state).latest_block_header.slot == old(state).latest_block_header.slot
            &&& final(state).latest_block_header.proposer_index == old(state).latest_block_header.proposer_index
            &&& final(state).latest_block_header.parent_root == old(state).latest_block_header.parent_root
            &&& final(state).latest_block_header.body_root == old(state).latest_block_header.body_root
            &&& final(state).latest_block_header.state_root@ == chained_state_root(*old(state), *context)
        },
{
    let previous_state_root = match state_hash_tree_root(state, context) {
        Ok(x) => x,
        Err(e) => {
            return Err(e);
        },
    };
    let zero: [u8; 32] = [0u8; 32];
    assert(zero@ =~= zeros(32));
    if root_eq(&state.latest_block_header.state_root, &zero) {
        state.latest_block_header.state_root = previous_state_root;
    }
    Ok(())
}

/// Moves `state` to the next slot: the slot is closed, and when the next
/// slot starts an epoch, the registry is updated, effective balances are
/// re-quantized and the randomness mix is carried into the new epoch's slot.
/// The finalized epoch must not run ahead of the current one; genesis
/// establishes that and slot advancement keeps it.
pub fn advance_slot(state: BeaconState, context: &Context) -> (r: Result<BeaconState, Error>)
    requires
        context.valid(),
        state.wf(),
        state.finality_in_past(*context),
    ensures
        state.slot == u64::MAX ==> (r matches Err(Error::InvalidOperation(InvalidOperation::Overflow))),
        state.slot < u64::MAX ==> (r is Ok <==> state.validators@.len() <= context.validator_registry_limit as usize
            && ((state.slot + 1) % (context.slots_per_epoch as int) == 0 ==> epoch_at_slot(
            state.slot,
            context.slots_per_epoch,
        ) + 1 + context.max_seed_lookahead <= u64::MAX)),
        r matches Ok(n) ==> {
            let boundary = (state.slot + 1) % (context.slots_per_epoch as int) == 0;
            let epoch = epoch_at_slot(state.slot, context.slots_per_epoch) as int;
            let len = state.randao_mixes@.len() as int;
            &&& n.wf()
            &&& n.finality_in_past(*context)
            &&& n.slot == state.slot + 1
            &&& n.genesis_time == state.genesis_time
            &&& n.genesis_validators_root == state.genesis_validators_root
            &&& n.fork == state.fork
            &&& n.eth1_data == state.eth1_data
            &&& n.eth1_deposit_index == state.eth1_deposit_index
            &&& n.latest_block_header.state_root@ == chained_state_root(state, *context)
            &&& n.latest_block_header.body_root == state.latest_block_header.body_root
            &&& n.balances@ == state.balances@
            &&& !boundary ==> n.validators@ == state.validators@ && n.randao_mixes@ == state.randao_mixes@
            &&& boundary ==> {
                &&& n.validators@.len() == state.validators@.len()
                &&& forall|i: int| 0 <= i < n.validators@.len() ==> #[trigger] n.validators@[i] == requantized(
                    registry_updated(
                        state.validators@,
                        state.finalized_checkpoint.epoch,
                        epoch_at_slot(state.slot, context.slots_per_epoch),
                        *context,
                    )[i],
                    state.balances@[i],
                    *context,
                )
                &&& n.randao_mixes@ == state.randao_mixes@.update((epoch + 1) % len, state.randao_mixes@[epoch % len])
            }
        },
{
    if state.slot == u64::MAX {
        return Err(Error::InvalidOperation(InvalidOperation::Overflow));
    }
    let mut next = state;
    match process_slot(&mut next, context) {
        Ok(()) => {},
        Err(e) => {
            return Err(e);
        },
    }
    if (next.slot + 1) % context.slots_per_epoch == 0 {
        next = match process_registry_updates(next, context) {
            Ok(n) => n,
            Err(e) => {
                return Err(e);
            },
        };
        process_effective_balance_updates(&mut next, context);
        process_randao_mixes_reset(&mut next, context);
    }
    next.slot = next.slot + 1;
    assert(next.slot as int / context.slots_per_epoch as int >= (next.slot - 1) as int / context.slots_per_epoch as int)
        by (nonlinear_arith)
        requires context.slots_per_epoch > 0, next.slot >= 1;
    Ok(next)
}

} // verus!
