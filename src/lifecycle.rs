//! Validator lifecycle transitions: exit through the churn-limited queue,
//! and slashing.
use crate::beacon_state::{epoch_at_slot, epochs_ordered, get_current_epoch, BeaconState, Context};
use crate::deposit::same_chain_fields;
use crate::error::{Error, InvalidOperation};
use crate::primitives::{Epoch, Validator, ValidatorIndex, FAR_FUTURE_EPOCH};
use crate::validator::{is_active, is_active_validator};
use vstd::prelude::*;

verus! {

/// The first epoch at which a change made now can take effect.
pub open spec fn activation_exit_epoch(epoch: Epoch, context: Context) -> int {
    epoch + 1 + context.max_seed_lookahead
}

/// The latest scheduled exit among the first `n` validators, or zero.
pub open spec fn latest_exit(validators: Seq<Validator>, n: nat) -> u64
    decreases n,
{
    if n == 0 {
        0
    } else {
        let rest = latest_exit(validators, (n - 1) as nat);
        let e = validators[n - 1].exit_epoch;
        if e != FAR_FUTURE_EPOCH && e > rest { e } else { rest }
    }
}

/// How many of the first `n` validators exit at `epoch`.
pub open spec fn exits_at(validators: Seq<Validator>, epoch: int, n: nat) -> nat
    decreases n,
{
    if n == 0 {
        0
    } else {
        exits_at(validators, epoch, (n - 1) as nat) + if validators[n - 1].exit_epoch == epoch { 1nat } else { 0nat }
    }
}

/// How many of the first `n` validators are active at `epoch`.
pub open spec fn active_count(validators: Seq<Validator>, epoch: Epoch, n: nat) -> nat
    decreases n,
{
    if n == 0 {
        0
    } else {
        active_count(validators, epoch, (n - 1) as nat) + if is_active(validators[n - 1], epoch) { 1nat } else { 0nat }
    }
}

/// How many validators may join the exit queue in one epoch.
pub open spec fn churn_limit(validators: Seq<Validator>, epoch: Epoch, context: Context) -> int {
    let by_size = active_count(validators, epoch, validators.len()) / (context.churn_limit_quotient as nat);
    if by_size > context.min_per_epoch_churn_limit { by_size as int } else { context.min_per_epoch_churn_limit as int }
}

/// The exit epoch a validator leaving at `epoch` is given: the later of the
/// latest scheduled exit and the first epoch a change can take effect, moved
/// one epoch on when that epoch's churn is used up.
pub open spec fn exit_queue_epoch(validators: Seq<Validator>, epoch: Epoch, context: Context) -> int {
    let earliest = activation_exit_epoch(epoch, context);
    let latest = latest_exit(validators, validators.len()) as int;
    let q = if latest > earliest { latest } else { earliest };
    if exits_at(validators, q, validators.len()) >= churn_limit(validators, epoch, context) { q + 1 } else { q }
}

pub proof fn lemma_counts_bounded(validators: Seq<Validator>, epoch: Epoch, e: int, n: nat)
    requires
        n <= validators.len(),
    ensures
        active_count(validators, epoch, n) <= n,
        exits_at(validators, e, n) <= n,
    decreases n,
{
    if n > 0 {
        lemma_counts_bounded(validators, epoch, e, (n - 1) as nat);
    }
}

fn compute_exit_queue_epoch(validators: &Vec<Validator>, epoch: Epoch, context: &Context) -> (r: Option<u64>)
    requires
        context.valid(),
    ensures
        r matches Some(q) ==> q == exit_queue_epoch(validators@, epoch, *context),
        r is None <==> exit_queue_epoch(validators@, epoch, *context) > u64::MAX,
{
    if epoch > u64::MAX - 1 || epoch + 1 > u64::MAX - context.max_seed_lookahead {
        assert(exit_queue_epoch(validators@, epoch, *context) >= activation_exit_epoch(epoch, *context));
        return None;
    }
    let earliest = epoch + 1 + context.max_seed_lookahead;
    let mut latest: u64 = 0;
    let mut active: u64 = 0;
    let mut k: usize = 0;
    while k < validators.len()
        invariant
            0 <= k <= validators@.len(),
            latest == latest_exit(validators@, k as nat),
            active == active_count(validators@, epoch, k as nat),
        decreases validators@.len() - k,
    {
        proof {
            lemma_counts_bounded(validators@, epoch, 0, (k + 1) as nat);
        }
        let e = validators[k].exit_epoch;
        if e != FAR_FUTURE_EPOCH && e > latest {
            latest = e;
        }
        if is_active_validator(validators[k], epoch) {
            active = active + 1;
        }
        k = k + 1;
    }
    let q = if latest > earliest { latest } else { earliest };
    let mut exiting: u64 = 0;
    let mut j: usize = 0;
    while j < validators.len()
        invariant
            0 <= j <= validators@.len(),
            exiting == exits_at(validators@, q as int, j as nat),
        decreases validators@.len() - j,
    {
        proof {
            lemma_counts_bounded(validators@, epoch, q as int, (j + 1) as nat);
        }
        if validators[j].exit_epoch == q {
            exiting = exiting + 1;
        }
        j = j + 1;
    }
    let by_size = active / context.churn_limit_quotient;
    let limit = if by_size > context.min_per_epoch_churn_limit { by_size } else { context.min_per_epoch_churn_limit };
    if exiting >= limit {
        if q == u64::MAX {
            return None;
        }
        Some(q + 1)
    } else {
        Some(q)
    }
}

/// The registry with validator `index` replaced by `v`, everything else kept.
pub open spec fn registry_with(state: BeaconState, n: BeaconState, index: int, v: Validator) -> bool {
    &&& same_chain_fields(state, n)
    &&& n.latest_block_header == state.latest_block_header
    &&& n.randao_mixes@ == state.randao_mixes@
    &&& n.eth1_deposit_index == state.eth1_deposit_index
    &&& n.balances@ == state.balances@
    &&& n.validators@ == state.validators@.update(index, v)
}

/// `v` leaving through the exit queue at `queue`.
pub open spec fn exited(v: Validator, queue: int, context: Context) -> Validator {
    Validator {
        exit_epoch: queue as u64,
        withdrawable_epoch: (queue + context.min_validator_withdrawability_delay) as u64,
        ..v
    }
}

/// Schedules validator `index`'s exit through the churn-limited queue; a
/// validator already exiting is left alone. Only a validator that has been
/// activated may exit.
pub fn initiate_validator_exit(state: &mut BeaconState, index: ValidatorIndex, context: &Context) -> (r: Result<(), Error>)
    requires
        context.valid(),
        old(state).wf(),
        index < old(state).validators@.len(),
        old(state).validators@[index as int].activation_epoch <= epoch_at_slot(old(state).slot, context.slots_per_epoch),
    ensures
        ({
            let o = *old(state);
            let v = o.validators@[index as int];
            let q = exit_queue_epoch(o.validators@, epoch_at_slot(o.slot, context.slots_per_epoch), *context);
            &&& v.exit_epoch != FAR_FUTURE_EPOCH ==> r is Ok && *final(state) == o
            &&& v.exit_epoch == FAR_FUTURE_EPOCH ==> {
                &&& r is Err <==> q + context.min_validator_withdrawability_delay > u64::MAX
                &&& r is Err ==> (r matches Err(Error::InvalidOperation(InvalidOperation::Overflow))) && *final(state) == o
                &&& r is Ok ==> registry_with(o, *final(state), index as int, exited(v, q, *context))
            }
            &&& r is Ok ==> final(state).wf()
        }),
{
    let v = state.validators[index];
    if v.exit_epoch != FAR_FUTURE_EPOCH {
        return Ok(());
    }
    let epoch = get_current_epoch(state, context);
    let q = match compute_exit_queue_epoch(&state.validators, epoch, context) {
        Some(q) => q,
        None => {
            return Err(Error::InvalidOperation(InvalidOperation::Overflow));
        },
    };
    if q > u64::MAX - context.min_validator_withdrawability_delay {
        return Err(Error::InvalidOperation(InvalidOperation::Overflow));
    }
    let mut w = v;
    w.exit_epoch = q;
    w.withdrawable_epoch = q + context.min_validator_withdrawability_delay;
    state.validators.set(index, w);
    proof {
        let o = *old(state);
        assert(q >= activation_exit_epoch(epoch, *context));
        assert forall|j: int| 0 <= j < state.validators@.len() implies epochs_ordered(#[trigger] state.validators@[j]) by {
            if j != index {
                assert(state.validators@[j] == o.validators@[j]);
            }
        }
    }
    Ok(())
}

/// `v` marked slashed, its withdrawal held back to at least the slashing
/// penalty delay past its exit.
pub open spec fn slashed(v: Validator, context: Context) -> Validator {
    let held = v.exit_epoch + context.epochs_per_slashings_vector;
    Validator {
        slashed: true,
        withdrawable_epoch: if held > v.withdrawable_epoch { held as u64 } else { v.withdrawable_epoch },
        ..v
    }
}

/// Slashing validator `i` at `epoch` would run an epoch past the largest one.
pub open spec fn slash_overflows(validators: Seq<Validator>, i: int, epoch: Epoch, context: Context) -> bool {
    let v = validators[i];
    let q = exit_queue_epoch(validators, epoch, context);
    let leaving = if v.exit_epoch == FAR_FUTURE_EPOCH { exited(v, q, context) } else { v };
    (v.exit_epoch == FAR_FUTURE_EPOCH && q + context.min_validator_withdrawability_delay > u64::MAX)
        || leaving.exit_epoch + context.epochs_per_slashings_vector > u64::MAX
}

/// Slashes validator `index`: it is sent through the exit queue if not yet
/// exiting, marked slashed, and kept from withdrawing until the slashing
/// penalty delay after its exit has passed.
pub fn slash_validator(state: &mut BeaconState, index: ValidatorIndex, context: &Context) -> (r: Result<(), Error>)
    requires
        context.valid(),
        old(state).wf(),
        index < old(state).validators@.len(),
        old(state).validators@[index as int].activation_epoch <= epoch_at_slot(old(state).slot, context.slots_per_epoch),
    ensures
        ({
            let o = *old(state);
            let v = o.validators@[index as int];
            let q = exit_queue_epoch(o.validators@, epoch_at_slot(o.slot, context.slots_per_epoch), *context);
            let leaving = if v.exit_epoch == FAR_FUTURE_EPOCH { exited(v, q, *context) } else { v };
            &&& r is Err ==> (r matches Err(Error::InvalidOperation(InvalidOperation::Overflow))) && *final(state) == o
            &&& r is Err <==> slash_overflows(o.validators@, index as int, epoch_at_slot(o.slot, context.slots_per_epoch), *context)
            &&& r is Ok ==> final(state).wf() && registry_with(o, *final(state), index as int, slashed(leaving, *context))
        }),
{
    let ghost o = *state;
    let v = state.validators[index];
    let ghost q = exit_queue_epoch(o.validators@, epoch_at_slot(o.slot, context.slots_per_epoch), *context);
    if v.exit_epoch == FAR_FUTURE_EPOCH {
        let epoch = get_current_epoch(state, context);
        if let Some(q) = compute_exit_queue_epoch(&state.validators, epoch, context) {
            if q > u64::MAX - context.epochs_per_slashings_vector {
                return Err(Error::InvalidOperation(InvalidOperation::Overflow));
            }
        }
    } else if v.exit_epoch > u64::MAX - context.epochs_per_slashings_vector {
        return Err(Error::InvalidOperation(InvalidOperation::Overflow));
    }
    match initiate_validator_exit(state, index, context) {
        Ok(()) => {},
        Err(e) => {
            return Err(e);
        },
    }
    let mut w = state.validators[index];
    assert(w == (if v.exit_epoch == FAR_FUTURE_EPOCH { exited(v, q, *context) } else { v }));
    w.slashed = true;
    let held = w.exit_epoch + context.epochs_per_slashings_vector;
    if held > w.withdrawable_epoch {
        w.withdrawable_epoch = held;
    }
    let ghost mid = *state;
    state.validators.set(index, w);
    proof {
        assert(state.validators@ =~= o.validators@.update(index as int, w));
        assert forall|j: int| 0 <= j < state.validators@.len() implies epochs_ordered(#[trigger] state.validators@[j]) by {
            if j != index {
                assert(state.validators@[j] == mid.validators@[j]);
            }
        }
    }
    Ok(())
}

} // verus!
