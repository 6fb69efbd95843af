//! Voluntary exits.
use crate::beacon_state::{epoch_at_slot, get_current_epoch, BeaconState, Context};
use crate::deposit::signature_verdict;
use crate::error::{Error, InvalidOperation};
use crate::lifecycle::{exit_queue_epoch, exited, initiate_validator_exit, registry_with};
use crate::primitives::{Validator, BlsPublicKey, BlsSignature, DomainType, Root, SignedVoluntaryExit, VoluntaryExit, FAR_FUTURE_EPOCH};
use crate::signing::{domain_at_epoch, domain_of, signing_root, signing_root_from, version_at, HashTreeRoot};
use crate::ssz::{container_root, merkleize_fixed, push_u64_chunk, u64_chunk};
use crate::validator::{is_active, is_active_validator};
use vstd::prelude::*;

verus! {

pub open spec fn voluntary_exit_root(e: VoluntaryExit) -> Seq<u8> {
    container_root(u64_chunk(e.epoch) + u64_chunk(e.validator_index as u64))
}

impl HashTreeRoot for VoluntaryExit {
    open spec fn root_spec(&self) -> Seq<u8> {
        voluntary_exit_root(*self)
    }

    fn hash_tree_root(&self) -> (r: Root) {
        let mut chunks: Vec<u8> = Vec::new();
        push_u64_chunk(&mut chunks, self.epoch);
        push_u64_chunk(&mut chunks, self.validator_index as u64);
        assert(chunks@ =~= u64_chunk(self.epoch) + u64_chunk(self.validator_index as u64));
        merkleize_fixed(&chunks)
    }
}

/// The exit may be requested: the validator is known and active, not yet
/// exiting, the exit's epoch has come, and the validator has been active
/// for the minimum period.
pub open spec fn exit_allowed(state: BeaconState, validators: Seq<Validator>, e: VoluntaryExit, context: Context) -> bool {
    let epoch = epoch_at_slot(state.slot, context.slots_per_epoch);
    &&& e.validator_index < validators.len()
    &&& is_active(validators[e.validator_index as int], epoch)
    &&& validators[e.validator_index as int].exit_epoch == FAR_FUTURE_EPOCH
    &&& epoch >= e.epoch
    &&& epoch >= validators[e.validator_index as int].activation_epoch + context.shard_committee_period
}

/// The root a validator signs to leave: the exit under the exit domain of
/// the exit's own epoch.
pub open spec fn exit_signing_root(state: BeaconState, e: VoluntaryExit) -> Seq<u8> {
    signing_root(voluntary_exit_root(e), domain_of(DomainType::VoluntaryExit, version_at(state, e.epoch)@, state.genesis_validators_root@))
}

/// The registry after validator `i` leaves through the exit queue as it stands.
pub open spec fn exit_step(validators: Seq<Validator>, i: int, epoch: u64, context: Context) -> Seq<Validator> {
    validators.update(i, exited(validators[i], exit_queue_epoch(validators, epoch, context), context))
}

/// The registry after the first `n` voluntary exits, each applied to the
/// registry the previous ones left.
pub open spec fn exits_fold(
    validators: Seq<Validator>,
    exits: Seq<SignedVoluntaryExit>,
    epoch: u64,
    context: Context,
    n: nat,
) -> Seq<Validator>
    decreases n,
{
    if n == 0 {
        validators
    } else {
        let prev = exits_fold(validators, exits, epoch, context, (n - 1) as nat);
        exit_step(prev, exits[n - 1].message.validator_index as int, epoch, context)
    }
}

/// Processes a voluntary exit: when allowed and signed by the validator, the
/// validator joins the exit queue. On error the state is left as it was.
pub fn process_voluntary_exit<F: Fn(BlsPublicKey, Root, BlsSignature) -> bool>(
    state: &mut BeaconState,
    signed_exit: &SignedVoluntaryExit,
    context: &Context,
    verify_signature: F,
) -> (r: Result<(), Error>)
    requires
        context.valid(),
        old(state).wf(),
        forall|pk: BlsPublicKey, root: Root, sig: BlsSignature| call_requires(verify_signature, (pk, root, sig)),
    ensures
        ({
            let o = *old(state);
            let e = signed_exit.message;
            let i = e.validator_index as int;
            let q = exit_queue_epoch(o.validators@, epoch_at_slot(o.slot, context.slots_per_epoch), *context);
            &&& !exit_allowed(o, o.validators@, e, *context) <==> (r matches Err(Error::InvalidOperation(InvalidOperation::ExitNotAllowed)))
            &&& (r matches Err(Error::InvalidOperation(InvalidOperation::Overflow))) ==> exit_allowed(o, o.validators@, e, *context)
                && signature_verdict(verify_signature, o.validators@[i].pubkey, exit_signing_root(o, e), signed_exit.signature, true)
                && q + context.min_validator_withdrawability_delay > u64::MAX
            &&& r is Err ==> *final(state) == o
            &&& r is Err ==> (r matches Err(Error::InvalidOperation(InvalidOperation::ExitNotAllowed)))
                || (r matches Err(Error::InvalidSignature))
                || (r matches Err(Error::InvalidOperation(InvalidOperation::Overflow)))
            &&& (r matches Err(Error::InvalidSignature)) ==> exit_allowed(o, o.validators@, e, *context) && signature_verdict(
                verify_signature,
                o.validators@[i].pubkey,
                exit_signing_root(o, e),
                signed_exit.signature,
                false,
            )
            &&& r is Ok ==> {
                &&& exit_allowed(o, o.validators@, e, *context)
                &&& signature_verdict(verify_signature, o.validators@[i].pubkey, exit_signing_root(o, e), signed_exit.signature, true)
                &&& final(state).wf()
                &&& registry_with(o, *final(state), i, exited(o.validators@[i], q, *context))
                &&& q + context.min_validator_withdrawability_delay <= u64::MAX
            }
        }),
{
    let e = signed_exit.message;
    let epoch = get_current_epoch(state, context);
    if e.validator_index >= state.validators.len() {
        return Err(Error::InvalidOperation(InvalidOperation::ExitNotAllowed));
    }
    let v = state.validators[e.validator_index];
    if !is_active_validator(v, epoch) || v.exit_epoch != FAR_FUTURE_EPOCH || epoch < e.epoch
        || v.activation_epoch > u64::MAX - context.shard_committee_period
        || epoch < v.activation_epoch + context.shard_committee_period {
        return Err(Error::InvalidOperation(InvalidOperation::ExitNotAllowed));
    }
    let domain = domain_at_epoch(state, DomainType::VoluntaryExit, e.epoch);
    let message_root = e.hash_tree_root();
    let root = signing_root_from(&message_root, &domain);
    let ok = verify_signature(v.pubkey, root, signed_exit.signature);
    assert(signature_verdict(verify_signature, v.pubkey, exit_signing_root(*state, e), signed_exit.signature, ok));
    if !ok {
        return Err(Error::InvalidSignature);
    }
    initiate_validator_exit(state, e.validator_index, context)
}

} // verus!
