//! Registry updates at an epoch boundary: validators at the maximum balance
//! join the activation queue, and the queue's head is activated.
use crate::beacon_state::{epoch_at_slot, epochs_ordered, get_current_epoch, BeaconState, Context};
use crate::deposit::same_chain_fields;
use crate::error::{Error, InvalidOperation};
use crate::lifecycle::{active_count, churn_limit, lemma_counts_bounded};
use crate::primitives::{Epoch, Validator, FAR_FUTURE_EPOCH};
use crate::validator::is_active_validator;
use vstd::prelude::*;

verus! {

/// `v` placed in the activation queue from the next epoch when it is not yet
/// queued and its effective balance is at the maximum.
pub open spec fn mark_eligible(v: Validator, epoch: Epoch, context: Context) -> Validator {
    if v.activation_eligibility_epoch == FAR_FUTURE_EPOCH && v.effective_balance == context.max_effective_balance {
        Validator { activation_eligibility_epoch: (epoch + 1) as u64, ..v }
    } else {
        v
    }
}

/// `v` waits in the activation queue: queued no later than the finalized
/// epoch, and not yet activated.
pub open spec fn in_queue(v: Validator, finalized: Epoch) -> bool {
    v.activation_eligibility_epoch <= finalized && v.activation_epoch == FAR_FUTURE_EPOCH
}

/// `j` comes before `i` in the queue: queued earlier, or at the same epoch
/// with a lower index.
pub open spec fn queued_before(validators: Seq<Validator>, j: int, i: int) -> bool {
    validators[j].activation_eligibility_epoch < validators[i].activation_eligibility_epoch
        || (validators[j].activation_eligibility_epoch == validators[i].activation_eligibility_epoch && j < i)
}

/// How many of the first `n` validators wait in the queue ahead of `i`.
pub open spec fn queue_rank(validators: Seq<Validator>, finalized: Epoch, i: int, n: nat) -> nat
    decreases n,
{
    if n == 0 {
        0
    } else {
        queue_rank(validators, finalized, i, (n - 1) as nat) + if in_queue(validators[n - 1], finalized)
            && queued_before(validators, n - 1, i) { 1nat } else { 0nat }
    }
}

/// Every validator marked.
pub open spec fn marked_registry(validators: Seq<Validator>, epoch: Epoch, context: Context) -> Seq<Validator> {
    validators.map(|k: int, v: Validator| mark_eligible(v, epoch, context))
}

/// Validator `i` after the update: marked, and activated at the first epoch
/// a change can take effect when it is queued with fewer than the churn
/// limit ahead of it.
pub open spec fn updated_validator(validators: Seq<Validator>, finalized: Epoch, epoch: Epoch, context: Context, i: int) -> Validator {
    let marked = marked_registry(validators, epoch, context);
    if in_queue(marked[i], finalized) && queue_rank(marked, finalized, i, marked.len()) < churn_limit(
        validators,
        epoch,
        context,
    ) {
        Validator { activation_epoch: (epoch + 1 + context.max_seed_lookahead) as u64, ..marked[i] }
    } else {
        marked[i]
    }
}

/// The registry after the update.
pub open spec fn registry_updated(validators: Seq<Validator>, finalized: Epoch, epoch: Epoch, context: Context) -> Seq<Validator> {
    Seq::new(validators.len(), |i: int| updated_validator(validators, finalized, epoch, context, i))
}

fn rank_in_queue(snapshot: &Vec<Validator>, finalized: Epoch, i: usize) -> (r: u64)
    requires
        i < snapshot@.len(),
    ensures
        r == queue_rank(snapshot@, finalized, i as int, snapshot@.len()),
{
    let mut count: u64 = 0;
    let mut j: usize = 0;
    while j < snapshot.len()
        invariant
            0 <= j <= snapshot@.len(),
            i < snapshot@.len(),
            count == queue_rank(snapshot@, finalized, i as int, j as nat),
            count <= j,
        decreases snapshot@.len() - j,
    {
        let w = snapshot[j];
        let v = snapshot[i];
        if w.activation_eligibility_epoch <= finalized && w.activation_epoch == FAR_FUTURE_EPOCH
            && (w.activation_eligibility_epoch < v.activation_eligibility_epoch
                || (w.activation_eligibility_epoch == v.activation_eligibility_epoch && j < i)) {
            count = count + 1;
        }
        j = j + 1;
    }
    count
}

/// Marks the validators that join the activation queue and activates the
/// head of the queue, at most the churn limit of them.
pub fn process_registry_updates(state: BeaconState, context: &Context) -> (r: Result<BeaconState, Error>)
    requires
        context.valid(),
        state.wf(),
        state.finality_in_past(*context),
    ensures
        ({
            let epoch = epoch_at_slot(state.slot, context.slots_per_epoch);
            &&& r is Err <==> epoch + 1 + context.max_seed_lookahead > u64::MAX
            &&& r is Err ==> (r matches Err(Error::InvalidOperation(InvalidOperation::Overflow)))
            &&& r matches Ok(n) ==> {
                &&& n.wf()
                &&& same_chain_fields(state, n)
                &&& n.latest_block_header == state.latest_block_header
                &&& n.randao_mixes@ == state.randao_mixes@
                &&& n.eth1_deposit_index == state.eth1_deposit_index
                &&& n.balances@ == state.balances@
                &&& n.validators@ == registry_updated(state.validators@, state.finalized_checkpoint.epoch, epoch, *context)
            }
        }),
{
    let epoch = get_current_epoch(&state, context);
    if epoch > u64::MAX - 1 || epoch + 1 > u64::MAX - context.max_seed_lookahead {
        return Err(Error::InvalidOperation(InvalidOperation::Overflow));
    }
    let activation = epoch + 1 + context.max_seed_lookahead;
    let finalized = state.finalized_checkpoint.epoch;
    let ghost original = state.validators@;
    let ghost marked = marked_registry(original, epoch, *context);
    let mut active: u64 = 0;
    let mut snapshot: Vec<Validator> = Vec::new();
    let mut k: usize = 0;
    while k < state.validators.len()
        invariant
            0 <= k <= original.len(),
            original == state.validators@,
            marked == marked_registry(original, epoch, *context),
            epoch + 1 <= u64::MAX,
            active == active_count(original, epoch, k as nat),
            snapshot@ == marked.subrange(0, k as int),
        decreases original.len() - k,
    {
        proof {
            lemma_counts_bounded(original, epoch, 0, (k + 1) as nat);
        }
        let mut v = state.validators[k];
        if is_active_validator(v, epoch) {
            active = active + 1;
        }
        if v.activation_eligibility_epoch == FAR_FUTURE_EPOCH && v.effective_balance == context.max_effective_balance {
            v.activation_eligibility_epoch = epoch + 1;
        }
        snapshot.push(v);
        k = k + 1;
        assert(snapshot@ =~= marked.subrange(0, k as int));
    }
    assert(snapshot@ =~= marked);
    let by_size = active / context.churn_limit_quotient;
    let limit = if by_size > context.min_per_epoch_churn_limit { by_size } else { context.min_per_epoch_churn_limit };
    let ghost target = registry_updated(original, finalized, epoch, *context);
    let mut next = state;
    let mut i: usize = 0;
    while i < snapshot.len()
        invariant
            0 <= i <= snapshot@.len(),
            snapshot@ == marked,
            marked == marked_registry(original, epoch, *context),
            marked.len() == original.len(),
            next.validators@.len() == original.len(),
            limit == churn_limit(original, epoch, *context),
            activation == epoch + 1 + context.max_seed_lookahead,
            finalized == state.finalized_checkpoint.epoch,
            target == registry_updated(original, finalized, epoch, *context),
            forall|j: int| 0 <= j < i ==> #[trigger] next.validators@[j] == target[j],
            forall|j: int| i <= j < original.len() ==> #[trigger] next.validators@[j] == original[j],
            same_chain_fields(state, next),
            next.latest_block_header == state.latest_block_header,
            next.randao_mixes@ == state.randao_mixes@,
            next.eth1_deposit_index == state.eth1_deposit_index,
            next.balances@ == state.balances@,
            next.finalized_checkpoint == state.finalized_checkpoint,
        decreases snapshot@.len() - i,
    {
        let mut v = snapshot[i];
        if v.activation_eligibility_epoch <= finalized && v.activation_epoch == FAR_FUTURE_EPOCH {
            let rank = rank_in_queue(&snapshot, finalized, i);
            if rank < limit {
                v.activation_epoch = activation;
            }
        }
        proof {
            assert(target[i as int] == updated_validator(original, finalized, epoch, *context, i as int));
            assert(v == target[i as int]);
        }
        next.validators.set(i, v);
        i = i + 1;
    }
    assert(next.validators@ =~= target);
    proof {
        assert forall|j: int| 0 <= j < next.validators@.len() implies epochs_ordered(#[trigger] next.validators@[j]) by {
            assert(epochs_ordered(original[j]));
            assert(next.validators@[j] == target[j]);
        }
    }
    Ok(next)
}

} // verus!
