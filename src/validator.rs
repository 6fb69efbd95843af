//! Predicates and quantization over a single validator record.
use crate::beacon_state::BeaconState;
use crate::primitives::{AttestationData, Epoch, Gwei, Validator, FAR_FUTURE_EPOCH};
use vstd::prelude::*;

verus! {

pub open spec fn is_active(v: Validator, epoch: Epoch) -> bool {
    v.activation_epoch <= epoch && epoch < v.exit_epoch
}

pub fn is_active_validator(validator: Validator, epoch: Epoch) -> (r: bool)
    ensures
        r == is_active(validator, epoch),
{
    validator.activation_epoch <= epoch && epoch < validator.exit_epoch
}

/// Not yet queued for activation, and already at the maximum effective balance.
pub fn is_eligible_for_activation_queue(validator: Validator, max_effective_balance: Gwei) -> (r: bool)
    ensures
        r == (validator.activation_eligibility_epoch == FAR_FUTURE_EPOCH
            && validator.effective_balance == max_effective_balance),
{
    validator.activation_eligibility_epoch == FAR_FUTURE_EPOCH
        && validator.effective_balance == max_effective_balance
}

/// Queued at or before the last finalized epoch, and not yet activated.
pub fn is_eligible_for_activation(state: BeaconState, validator: Validator) -> (r: bool)
    ensures
        r == (validator.activation_eligibility_epoch <= state.finalized_checkpoint.epoch
            && validator.activation_epoch == FAR_FUTURE_EPOCH),
{
    validator.activation_eligibility_epoch <= state.finalized_checkpoint.epoch
        && validator.activation_epoch == FAR_FUTURE_EPOCH
}

/// Not slashed, active, and not yet withdrawable.
pub open spec fn is_slashable(v: Validator, epoch: Epoch) -> bool {
    !v.slashed && is_active(v, epoch) && epoch < v.withdrawable_epoch
}

pub fn is_slashable_validator(validator: Validator, epoch: Epoch) -> (r: bool)
    ensures
        r == is_slashable(validator, epoch),
{
    !validator.slashed && is_active_validator(validator, epoch) && epoch < validator.withdrawable_epoch
}

/// Two attestation votes are slashable together: a double vote (different
/// data, same target epoch) or a surround vote (the first's source and target
/// strictly enclose the second's).
pub open spec fn slashable_pair(d1: AttestationData, d2: AttestationData) -> bool {
    (d1 != d2 && d1.target.epoch == d2.target.epoch)
        || (d1.source.epoch < d2.source.epoch && d2.target.epoch < d1.target.epoch)
}

pub fn root_eq(a: &[u8; 32], b: &[u8; 32]) -> (r: bool)
    ensures
        r == (*a == *b),
        r == (a@ == b@),
{
    let mut i: usize = 0;
    while i < 32
        invariant
            0 <= i <= 32,
            forall|j: int| 0 <= j < i ==> a@[j] == b@[j],
        decreases 32 - i,
    {
        if a[i] != b[i] {
            assert(a@[i as int] != b@[i as int]);
            return false;
        }
        i = i + 1;
    }
    assert(*a =~= *b);
    true
}

/// Field-by-field equality of attestation data.
pub fn attestation_data_eq(d1: &AttestationData, d2: &AttestationData) -> (r: bool)
    ensures
        r == (*d1 == *d2),
{
    d1.slot == d2.slot && d1.index == d2.index
        && root_eq(&d1.beacon_block_root, &d2.beacon_block_root)
        && d1.source.epoch == d2.source.epoch && root_eq(&d1.source.root, &d2.source.root)
        && d1.target.epoch == d2.target.epoch && root_eq(&d1.target.root, &d2.target.root)
}

pub fn is_slashable_attestation_data(data_1: AttestationData, data_2: AttestationData) -> (r: bool)
    ensures
        r == slashable_pair(data_1, data_2),
{
    let double_vote = !attestation_data_eq(&data_1, &data_2) && data_1.target.epoch == data_2.target.epoch;
    let surround_vote = data_1.source.epoch < data_2.source.epoch
        && data_2.target.epoch < data_1.target.epoch;
    double_vote || surround_vote
}

/// A vote is never slashable against itself; two different votes for the
/// same target epoch are; a vote whose source and target strictly surround
/// another's is; and no other pair is.
pub proof fn lemma_slashable_attestation_data(d1: AttestationData, d2: AttestationData)
    ensures
        !slashable_pair(d1, d1),
        d1 != d2 && d1.target.epoch == d2.target.epoch ==> slashable_pair(d1, d2),
        d1.source.epoch < d2.source.epoch && d2.target.epoch < d1.target.epoch ==> slashable_pair(d1, d2),
        !(d1 != d2 && d1.target.epoch == d2.target.epoch)
            && !(d1.source.epoch < d2.source.epoch && d2.target.epoch < d1.target.epoch)
            ==> !slashable_pair(d1, d2),
{
}

/// `min(balance - balance % increment, max)`.
pub open spec fn quantized(balance: Gwei, increment: Gwei, max: Gwei) -> Gwei {
    let floor = (balance - balance % increment) as Gwei;
    if floor < max { floor } else { max }
}

/// The balance rounded down to the increment, capped at the maximum.
pub fn quantize_effective_balance(balance: Gwei, increment: Gwei, max: Gwei) -> (r: Gwei)
    requires
        increment > 0,
    ensures
        r == quantized(balance, increment, max),
{
    assert(balance % increment <= balance) by (nonlinear_arith)
        requires increment > 0;
    let floor = balance - balance % increment;
    if floor < max { floor } else { max }
}

/// Quantizing an already quantized balance changes nothing, whenever the
/// maximum is itself a multiple of the increment (as every protocol
/// configuration has it).
pub proof fn lemma_quantize_idempotent(balance: Gwei, increment: Gwei, max: Gwei)
    requires
        increment > 0,
        max % increment == 0,
    ensures
        quantized(quantized(balance, increment, max), increment, max) == quantized(balance, increment, max),
{
    assert(balance % increment <= balance) by (nonlinear_arith)
        requires increment > 0;
    let floor = (balance - balance % increment) as Gwei;
    assert(floor % increment == 0) by (nonlinear_arith)
        requires floor == balance - balance % increment, increment > 0, balance % increment <= balance;
}

} // verus!
