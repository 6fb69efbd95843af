//! End-of-epoch bookkeeping that the state's fields support: effective
//! balances re-quantized and the randomness mix carried into the next epoch.
use crate::beacon_state::{epoch_at_slot, epochs_ordered, get_current_epoch, BeaconState, Context};
use crate::deposit::same_chain_fields;
use crate::primitives::Validator;
use crate::validator::{quantize_effective_balance, quantized};
use vstd::prelude::*;

verus! {

/// `v` with its effective balance re-quantized from `balance`.
pub open spec fn requantized(v: Validator, balance: u64, context: Context) -> Validator {
    Validator {
        effective_balance: quantized(balance, context.effective_balance_increment, context.max_effective_balance),
        ..v
    }
}

/// Sets every validator's effective balance to its balance quantized to the
/// increment and capped at the maximum.
pub fn process_effective_balance_updates(state: &mut BeaconState, context: &Context)
    requires
        context.valid(),
        old(state).wf(),
    ensures
        final(state).wf(),
        same_chain_fields(*old(state), *final(state)),
        final(state).latest_block_header == old(state).latest_block_header,
        final(state).eth1_deposit_index == old(state).eth1_deposit_index,
        final(state).randao_mixes@ == old(state).randao_mixes@,
        final(state).balances@ == old(state).balances@,
        final(state).validators@.len() == old(state).validators@.len(),
        forall|i: int| 0 <= i < final(state).validators@.len() ==> #[trigger] final(state).validators@[i] == requantized(
            old(state).validators@[i],
            old(state).balances@[i],
            *context,
        ),
{
    let ghost before = *state;
    let mut i: usize = 0;
    while i < state.validators.len()
        invariant
            0 <= i <= state.validators@.len(),
            context.valid(),
            state.validators@.len() == before.validators@.len(),
            state.balances@ == before.balances@,
            state.randao_mixes@ == before.randao_mixes@,
            same_chain_fields(before, *state),
            state.latest_block_header == before.latest_block_header,
            state.eth1_deposit_index == before.eth1_deposit_index,
            before.wf(),
            forall|j: int| 0 <= j < i ==> #[trigger] state.validators@[j] == requantized(before.validators@[j], before.balances@[j], *context),
            forall|j: int| i <= j < state.validators@.len() ==> #[trigger] state.validators@[j] == before.validators@[j],
        decreases state.validators@.len() - i,
    {
        let mut v = state.validators[i];
        v.effective_balance = quantize_effective_balance(
            state.balances[i],
            context.effective_balance_increment,
            context.max_effective_balance,
        );
        state.validators.set(i, v);
        i = i + 1;
    }
    assert forall|j: int| 0 <= j < state.validators@.len() implies epochs_ordered(#[trigger] state.validators@[j]) by {
        assert(epochs_ordered(before.validators@[j]));
    }
}

/// The accumulator slot of the epoch after the current one starts from the
/// current epoch's mix.
pub fn process_randao_mixes_reset(state: &mut BeaconState, context: &Context)
    requires
        context.valid(),
        old(state).wf(),
    ensures
        ({
            let o = *old(state);
            let n = *final(state);
            let len = o.randao_mixes@.len() as int;
            let epoch = epoch_at_slot(o.slot, context.slots_per_epoch) as int;
            &&& n.wf()
            &&& same_chain_fields(o, n)
            &&& n.latest_block_header == o.latest_block_header
            &&& n.eth1_deposit_index == o.eth1_deposit_index
            &&& n.validators@ == o.validators@
            &&& n.balances@ == o.balances@
            &&& n.randao_mixes@ == o.randao_mixes@.update((epoch + 1) % len, o.randao_mixes@[epoch % len])
        }),
{
    let epoch = get_current_epoch(state, context);
    let len = state.randao_mixes.len() as u64;
    let current = (epoch % len) as usize;
    let next = ((epoch % len + 1) % len) as usize;
    assert(((epoch as int) + 1) % (len as int) == ((epoch % len) as int + 1) % (len as int)) by (nonlinear_arith)
        requires len > 0;
    let mix = state.randao_mixes[current];
    state.randao_mixes.set(next, mix);
}

} // verus!
