//! The chain state and the protocol constants threaded through every transition.
use crate::primitives::{
    BlsPublicKey,    BeaconBlockHeader, Bytes32, Checkpoint, Epoch, Eth1Data, Fork, Gwei, Root, Slot, Validator,
    Version,
};
use vstd::prelude::*;

verus! {

/// Protocol constants; read-only during a transition.
#[derive(Clone, Copy, Debug)]
pub struct Context {
    pub slots_per_epoch: u64,
    pub genesis_delay: u64,
    pub max_effective_balance: Gwei,
    pub effective_balance_increment: Gwei,
    pub epochs_per_historical_vector: u64,
    pub genesis_fork_version: Version,
    pub validator_registry_limit: u64,
    pub max_seed_lookahead: u64,
    pub min_validator_withdrawability_delay: u64,
    pub min_per_epoch_churn_limit: u64,
    pub churn_limit_quotient: u64,
    pub epochs_per_slashings_vector: u64,
    pub shard_committee_period: u64,
}

impl Context {
    /// The constants that division and quantization rely on are non-zero,
    /// and the registry's capacity is one a tree over this machine's words
    /// can be widened to.
    pub open spec fn valid(&self) -> bool {
        &&& self.slots_per_epoch > 0
        &&& self.effective_balance_increment > 0
        &&& self.epochs_per_historical_vector > 0
        &&& self.churn_limit_quotient > 0
        &&& self.validator_registry_limit <= usize::MAX / 2 + 1
    }
}

/// The versioned chain state.
#[derive(Clone, Debug)]
pub struct BeaconState {
    pub genesis_time: u64,
    pub genesis_validators_root: Root,
    pub slot: Slot,
    pub fork: Fork,
    pub latest_block_header: BeaconBlockHeader,
    pub eth1_data: Eth1Data,
    pub eth1_deposit_index: u64,
    pub validators: Vec<Validator>,
    pub balances: Vec<Gwei>,
    pub randao_mixes: Vec<Bytes32>,
    pub previous_justified_checkpoint: Checkpoint,
    pub current_justified_checkpoint: Checkpoint,
    pub finalized_checkpoint: Checkpoint,
    pub current_sync_committee: Vec<BlsPublicKey>,
    pub next_sync_committee: Vec<BlsPublicKey>,
}

/// A validator's epoch markers are in lifecycle order.
pub open spec fn epochs_ordered(v: Validator) -> bool {
    &&& v.activation_eligibility_epoch <= v.activation_epoch
    &&& v.activation_epoch <= v.exit_epoch
    &&& v.exit_epoch <= v.withdrawable_epoch
}

impl BeaconState {
    /// The invariants every state reached by a successful transition keeps.
    pub open spec fn wf(&self) -> bool {
        &&& self.balances@.len() == self.validators@.len()
        &&& self.randao_mixes@.len() > 0
        &&& forall|i: int| 0 <= i < self.validators@.len() ==> epochs_ordered(#[trigger] self.validators@[i])
    }
}

/// Two states agree on every field but the sync committees.
pub open spec fn agrees_but_committees(a: BeaconState, b: BeaconState) -> bool {
    &&& a.genesis_time == b.genesis_time
    &&& a.genesis_validators_root == b.genesis_validators_root
    &&& a.slot == b.slot
    &&& a.fork == b.fork
    &&& a.latest_block_header == b.latest_block_header
    &&& a.eth1_data == b.eth1_data
    &&& a.eth1_deposit_index == b.eth1_deposit_index
    &&& a.validators@ == b.validators@
    &&& a.balances@ == b.balances@
    &&& a.randao_mixes@ == b.randao_mixes@
    &&& a.previous_justified_checkpoint == b.previous_justified_checkpoint
    &&& a.current_justified_checkpoint == b.current_justified_checkpoint
    &&& a.finalized_checkpoint == b.finalized_checkpoint
}

impl BeaconState {
    /// The finalized epoch does not run ahead of the state's current epoch.
    pub open spec fn finality_in_past(&self, context: Context) -> bool {
        self.finalized_checkpoint.epoch <= epoch_at_slot(self.slot, context.slots_per_epoch)
    }
}

/// The epoch a slot falls in.
pub open spec fn epoch_at_slot(slot: Slot, slots_per_epoch: u64) -> Epoch {
    (slot / slots_per_epoch) as Epoch
}

/// The epoch of the state's current slot.
pub fn get_current_epoch(state: &BeaconState, context: &Context) -> (r: Epoch)
    requires
        context.slots_per_epoch > 0,
    ensures
        r == epoch_at_slot(state.slot, context.slots_per_epoch),
{
    state.slot / context.slots_per_epoch
}

} // verus!
