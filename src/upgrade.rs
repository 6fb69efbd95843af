//! Moving a state across a protocol-version boundary.
use crate::beacon_state::{epoch_at_slot, get_current_epoch, BeaconState, Context};
use crate::primitives::{Fork, Version};
use vstd::prelude::*;

verus! {

/// Re-labels `state` for `new_version` at the state's current epoch: the old
/// current version becomes the previous one, and every other field is kept.
pub fn upgrade(state: BeaconState, new_version: Version, context: &Context) -> (r: BeaconState)
    requires
        context.valid(),
    ensures
        r.fork.previous_version == state.fork.current_version,
        r.fork.current_version == new_version,
        r.fork.epoch == epoch_at_slot(state.slot, context.slots_per_epoch),
        r.genesis_time == state.genesis_time,
        r.genesis_validators_root == state.genesis_validators_root,
        r.slot == state.slot,
        r.latest_block_header == state.latest_block_header,
        r.eth1_data == state.eth1_data,
        r.eth1_deposit_index == state.eth1_deposit_index,
        r.validators@ == state.validators@,
        r.balances@ == state.balances@,
        r.randao_mixes@ == state.randao_mixes@,
        r.previous_justified_checkpoint == state.previous_justified_checkpoint,
        r.current_justified_checkpoint == state.current_justified_checkpoint,
        r.finalized_checkpoint == state.finalized_checkpoint,
        state.wf() ==> r.wf(),
{
    let epoch = get_current_epoch(&state, context);
    let mut next = state;
    next.fork = Fork { previous_version: next.fork.current_version, current_version: new_version, epoch };
    next
}

} // verus!
