//! Attester slashings: two conflicting votes, each validly signed, get their
//! common attesters slashed.
use crate::attestation::{aggregate_verdict, all_known, attestation_signing_root, attesting_pubkeys, has_duplicates, is_valid_indexed_attestation};
use crate::beacon_state::{epoch_at_slot, get_current_epoch, BeaconState, Context};
use crate::deposit::same_chain_fields;
use crate::error::{Error, InvalidOperation};
use crate::lifecycle::{slash_overflows, exit_queue_epoch, exited, slash_validator, slashed};
use crate::primitives::{
    BeaconBlockHeader, DomainType, ProposerSlashing, SignedBeaconBlockHeader, AttesterSlashing, BlsPublicKey, BlsSignature, IndexedAttestation, Root, Validator, ValidatorIndex,
    FAR_FUTURE_EPOCH,
};
use crate::deposit::signature_verdict;
use crate::signing::{domain_at_epoch, domain_of, header_root, signing_root, signing_root_from, version_at, HashTreeRoot};
use crate::validator::{root_eq, is_slashable, is_slashable_attestation_data, is_slashable_validator, slashable_pair};
use vstd::prelude::*;

verus! {

/// The attestation passes every check of an indexed attestation, its
/// aggregate signature accepted by `fast_aggregate_verify`.
pub open spec fn attestation_accepted<F: Fn(Vec<BlsPublicKey>, Root, BlsSignature) -> bool>(
    state: BeaconState,
    validators: Seq<Validator>,
    a: IndexedAttestation,
    fast_aggregate_verify: F,
) -> bool {
    let s = a.attesting_indices@;
    &&& s.len() > 0
    &&& !has_duplicates(s)
    &&& all_known(validators, s)
    &&& aggregate_verdict(
        fast_aggregate_verify,
        attesting_pubkeys(validators, s),
        attestation_signing_root(state, a),
        a.signature,
        true,
    )
}

/// `e` is one of the errors an indexed attestation can be rejected with.
pub open spec fn is_attestation_error(e: Error) -> bool {
    match e {
        Error::InvalidOperation(op) => match op {
            InvalidOperation::EmptyAttestingIndices => true,
            InvalidOperation::DuplicateAttestingIndices => true,
            InvalidOperation::UnknownValidatorIndex => true,
            _ => false,
        },
        Error::InvalidSignature => true,
        _ => false,
    }
}

/// The check of an indexed attestation fails with `e`: no indices, a
/// repeated index, an unknown index, or an aggregate signature that
/// `fast_aggregate_verify` rejects, whichever comes first.
pub open spec fn attestation_rejected<F: Fn(Vec<BlsPublicKey>, Root, BlsSignature) -> bool>(
    state: BeaconState,
    validators: Seq<Validator>,
    a: IndexedAttestation,
    fast_aggregate_verify: F,
    e: Error,
) -> bool {
    let s = a.attesting_indices@;
    match e {
        Error::InvalidOperation(op) => match op {
            InvalidOperation::EmptyAttestingIndices => s.len() == 0,
            InvalidOperation::DuplicateAttestingIndices => s.len() > 0 && has_duplicates(s),
            InvalidOperation::UnknownValidatorIndex => s.len() > 0 && !has_duplicates(s) && !all_known(
                validators,
                s,
            ),
            _ => false,
        },
        Error::InvalidSignature => s.len() > 0 && !has_duplicates(s) && all_known(validators, s)
            && aggregate_verdict(
            fast_aggregate_verify,
            attesting_pubkeys(validators, s),
            attestation_signing_root(state, a),
            a.signature,
            false,
        ),
        _ => false,
    }
}

/// Validator `i` of the registry attested in both votes and may be slashed at `epoch`.
pub open spec fn slashed_by(validators: Seq<Validator>, s: AttesterSlashing, epoch: u64, i: int) -> bool {
    &&& s.attestation_1.attesting_indices@.contains(i as ValidatorIndex)
    &&& s.attestation_2.attesting_indices@.contains(i as ValidatorIndex)
    &&& 0 <= i < validators.len()
    &&& is_slashable(validators[i], epoch)
}

/// The registry after slashing validator `i`: it joins the exit queue as it
/// stands if not yet exiting, and is marked slashed.
pub open spec fn slash_step(validators: Seq<Validator>, i: int, epoch: u64, context: Context) -> Seq<Validator> {
    let v = validators[i];
    let q = exit_queue_epoch(validators, epoch, context);
    let leaving = if v.exit_epoch == FAR_FUTURE_EPOCH { exited(v, q, context) } else { v };
    validators.update(i, slashed(leaving, context))
}

/// The registry after slashing, in ascending index order, each of the first
/// `n` validators that the slashing catches.
pub open spec fn slashings_after(validators: Seq<Validator>, s: AttesterSlashing, epoch: u64, context: Context, n: nat) -> Seq<Validator>
    decreases n,
{
    if n == 0 {
        validators
    } else {
        let prev = slashings_after(validators, s, epoch, context, (n - 1) as nat);
        if slashed_by(validators, s, epoch, n - 1) {
            slash_step(prev, n - 1, epoch, context)
        } else {
            prev
        }
    }
}

/// The registry after the first `n` attester slashings, each applied to the
/// registry the previous ones left.
pub open spec fn slashings_fold(
    validators: Seq<Validator>,
    slashings: Seq<AttesterSlashing>,
    epoch: u64,
    context: Context,
    n: nat,
) -> Seq<Validator>
    decreases n,
{
    if n == 0 {
        validators
    } else {
        let prev = slashings_fold(validators, slashings, epoch, context, (n - 1) as nat);
        slashings_after(prev, slashings[n - 1], epoch, context, prev.len())
    }
}

/// The registry after the first `n` proposer slashings, each slashing its
/// proposer in the registry the previous ones left.
pub open spec fn proposer_fold(
    validators: Seq<Validator>,
    slashings: Seq<ProposerSlashing>,
    epoch: u64,
    context: Context,
    n: nat,
) -> Seq<Validator>
    decreases n,
{
    if n == 0 {
        validators
    } else {
        let prev = proposer_fold(validators, slashings, epoch, context, (n - 1) as nat);
        slash_step(prev, slashings[n - 1].signed_header_1.message.proposer_index as int, epoch, context)
    }
}

fn contains_index(s: &Vec<ValidatorIndex>, i: ValidatorIndex) -> (r: bool)
    ensures
        r == s@.contains(i),
{
    let mut k: usize = 0;
    while k < s.len()
        invariant
            0 <= k <= s@.len(),
            forall|j: int| 0 <= j < k ==> s@[j] != i,
        decreases s@.len() - k,
    {
        if s[k] == i {
            return true;
        }
        k = k + 1;
    }
    false
}

/// Processes an attester slashing: the two votes must be slashable together
/// and each a valid indexed attestation; then every validator in both, in
/// ascending index order, that is slashable now is slashed. A slashing that
/// slashes nobody is rejected.
pub fn process_attester_slashing<F: Fn(Vec<BlsPublicKey>, Root, BlsSignature) -> bool + Copy>(
    state: BeaconState,
    attester_slashing: &AttesterSlashing,
    context: &Context,
    fast_aggregate_verify: F,
) -> (r: Result<BeaconState, Error>)
    requires
        context.valid(),
        state.wf(),
        forall|keys: Vec<BlsPublicKey>, root: Root, sig: BlsSignature|
            call_requires(fast_aggregate_verify, (keys, root, sig)),
    ensures
        ({
            let a1 = attester_slashing.attestation_1;
            let a2 = attester_slashing.attestation_2;
            let epoch = epoch_at_slot(state.slot, context.slots_per_epoch);
            &&& !slashable_pair(a1.data, a2.data) <==> (r matches Err(
                Error::InvalidOperation(InvalidOperation::NotSlashable),
            ))
            &&& match r {
                Err(e) => is_attestation_error(e) ==> slashable_pair(a1.data, a2.data) && (attestation_rejected(state, state.validators@,
                    a1,
                    fast_aggregate_verify,
                    e,
                ) || (attestation_accepted(state, state.validators@, a1, fast_aggregate_verify) && attestation_rejected(state, state.validators@,
                    a2,
                    fast_aggregate_verify,
                    e,
                ))),
                Ok(_) => true,
            }
            &&& (r matches Err(Error::InvalidOperation(InvalidOperation::NoSlashableAttester))) ==> {
                &&& slashable_pair(a1.data, a2.data)
                &&& attestation_accepted(state, state.validators@, a1, fast_aggregate_verify)
                &&& attestation_accepted(state, state.validators@, a2, fast_aggregate_verify)
                &&& !exists|i: int| slashed_by(state.validators@, *attester_slashing, epoch, i)
            }
            &&& (r matches Err(Error::InvalidOperation(InvalidOperation::Overflow))) ==> {
                &&& slashable_pair(a1.data, a2.data)
                &&& attestation_accepted(state, state.validators@, a1, fast_aggregate_verify)
                &&& attestation_accepted(state, state.validators@, a2, fast_aggregate_verify)
                &&& exists|i: int| #[trigger] slashed_by(state.validators@, *attester_slashing, epoch, i) && slash_overflows(
                    slashings_after(state.validators@, *attester_slashing, epoch, *context, i as nat),
                    i,
                    epoch,
                    *context,
                )
            }
            &&& r is Err ==> (r matches Err(Error::InvalidOperation(InvalidOperation::NotSlashable)))
                || (r matches Err(Error::InvalidOperation(InvalidOperation::EmptyAttestingIndices)))
                || (r matches Err(Error::InvalidOperation(InvalidOperation::DuplicateAttestingIndices)))
                || (r matches Err(Error::InvalidOperation(InvalidOperation::UnknownValidatorIndex)))
                || (r matches Err(Error::InvalidSignature))
                || (r matches Err(Error::InvalidOperation(InvalidOperation::Overflow)))
                || (r matches Err(Error::InvalidOperation(InvalidOperation::NoSlashableAttester)))
            &&& r matches Ok(n) ==> {
                &&& slashable_pair(a1.data, a2.data)
                &&& attestation_accepted(state, state.validators@, a1, fast_aggregate_verify)
                &&& attestation_accepted(state, state.validators@, a2, fast_aggregate_verify)
                &&& exists|i: int| slashed_by(state.validators@, *attester_slashing, epoch, i)
                &&& n.wf()
                &&& same_chain_fields(state, n)
                &&& n.latest_block_header == state.latest_block_header
                &&& n.randao_mixes@ == state.randao_mixes@
                &&& n.eth1_deposit_index == state.eth1_deposit_index
                &&& n.balances@ == state.balances@
                &&& n.validators@.len() == state.validators@.len()
                &&& n.validators@ == slashings_after(state.validators@, *attester_slashing, epoch, *context, state.validators@.len() as nat)
                &&& forall|i: int| #[trigger] slashed_by(state.validators@, *attester_slashing, epoch, i) ==> !slash_overflows(
                    slashings_after(state.validators@, *attester_slashing, epoch, *context, i as nat),
                    i,
                    epoch,
                    *context,
                )
                &&& forall|i: int| #[trigger] slashed_by(state.validators@, *attester_slashing, epoch, i) ==> n.validators@[i].slashed
                &&& forall|i: int| 0 <= i < n.validators@.len() && !slashed_by(state.validators@, *attester_slashing, epoch, i)
                    ==> #[trigger] n.validators@[i] == state.validators@[i]
            }
        }),
{
    let a1 = &attester_slashing.attestation_1;
    let a2 = &attester_slashing.attestation_2;
    if !is_slashable_attestation_data(a1.data, a2.data) {
        return Err(Error::InvalidOperation(InvalidOperation::NotSlashable));
    }
    match is_valid_indexed_attestation(&state, a1, fast_aggregate_verify) {
        Ok(()) => {},
        Err(e) => {
            return Err(e);
        },
    }
    match is_valid_indexed_attestation(&state, a2, fast_aggregate_verify) {
        Ok(()) => {},
        Err(e) => {
            return Err(e);
        },
    }
    let epoch = get_current_epoch(&state, context);
    let mut next = state;
    let mut any_slashed = false;
    let mut i: usize = 0;
    while i < next.validators.len()
        invariant
            0 <= i <= next.validators@.len(),
            context.valid(),
            epoch == epoch_at_slot(state.slot, context.slots_per_epoch),
            *a1 == attester_slashing.attestation_1,
            *a2 == attester_slashing.attestation_2,
            slashable_pair(attester_slashing.attestation_1.data, attester_slashing.attestation_2.data),
            attestation_accepted(state, state.validators@, attester_slashing.attestation_1, fast_aggregate_verify),
            attestation_accepted(state, state.validators@, attester_slashing.attestation_2, fast_aggregate_verify),
            next.wf(),
            next.slot == state.slot,
            same_chain_fields(state, next),
            next.latest_block_header == state.latest_block_header,
            next.randao_mixes@ == state.randao_mixes@,
            next.eth1_deposit_index == state.eth1_deposit_index,
            next.balances@ == state.balances@,
            next.validators@.len() == state.validators@.len(),
            forall|j: int| 0 <= j < i && #[trigger] slashed_by(state.validators@, *attester_slashing, epoch, j) ==> next.validators@[j].slashed,
            forall|j: int| 0 <= j < next.validators@.len() && !(j < i && slashed_by(state.validators@, *attester_slashing, epoch, j))
                ==> #[trigger] next.validators@[j] == state.validators@[j],
            any_slashed <==> exists|j: int| 0 <= j < i && slashed_by(state.validators@, *attester_slashing, epoch, j),
            next.validators@ == slashings_after(state.validators@, *attester_slashing, epoch, *context, i as nat),
            forall|j: int| 0 <= j < i && #[trigger] slashed_by(state.validators@, *attester_slashing, epoch, j) ==> !slash_overflows(
                slashings_after(state.validators@, *attester_slashing, epoch, *context, j as nat),
                j,
                epoch,
                *context,
            ),
        decreases next.validators@.len() - i,
    {
        let in_both = contains_index(&a1.attesting_indices, i) && contains_index(&a2.attesting_indices, i);
        if in_both && is_slashable_validator(next.validators[i], epoch) {
            assert(next.validators@[i as int] == state.validators@[i as int]);
            let ghost before = next;
            match slash_validator(&mut next, i, context) {
                Ok(()) => {},
                Err(e) => {
                    assert(slashed_by(state.validators@, *attester_slashing, epoch, i as int));
                    return Err(e);
                },
            }
            proof {
                assert(slashed_by(state.validators@, *attester_slashing, epoch, i as int));
                assert forall|j: int| 0 <= j < next.validators@.len() && j != i implies #[trigger] next.validators@[j] == before.validators@[j] by {}
            }
            any_slashed = true;
        } else {
            assert(!slashed_by(state.validators@, *attester_slashing, epoch, i as int));
        }
        i = i + 1;
    }
    if !any_slashed {
        return Err(Error::InvalidOperation(InvalidOperation::NoSlashableAttester));
    }
    Ok(next)
}

/// The root a proposer signs for a header: the header's root under the
/// proposer domain of the header's own epoch.
pub open spec fn header_signing_root(state: BeaconState, h: BeaconBlockHeader, context: Context) -> Seq<u8> {
    signing_root(
        header_root(h),
        domain_of(
            DomainType::BeaconProposer,
            version_at(state, epoch_at_slot(h.slot, context.slots_per_epoch))@,
            state.genesis_validators_root@,
        ),
    )
}

/// The two headers conflict: same slot and proposer, different contents,
/// and the proposer is a slashable validator.
pub open spec fn proposer_slashable(state: BeaconState, validators: Seq<Validator>, s: ProposerSlashing, context: Context) -> bool {
    let h1 = s.signed_header_1.message;
    let h2 = s.signed_header_2.message;
    &&& h1.slot == h2.slot
    &&& h1.proposer_index == h2.proposer_index
    &&& h1 != h2
    &&& h1.proposer_index < validators.len()
    &&& is_slashable(validators[h1.proposer_index as int], epoch_at_slot(state.slot, context.slots_per_epoch))
}

fn header_eq(a: &BeaconBlockHeader, b: &BeaconBlockHeader) -> (r: bool)
    ensures
        r == (*a == *b),
{
    a.slot == b.slot && a.proposer_index == b.proposer_index && root_eq(&a.parent_root, &b.parent_root)
        && root_eq(&a.state_root, &b.state_root) && root_eq(&a.body_root, &b.body_root)
}

/// Whether `verify_signature` accepts the header's signature by `pubkey`.
fn header_signature_ok<F: Fn(BlsPublicKey, Root, BlsSignature) -> bool>(
    state: &BeaconState,
    signed: &SignedBeaconBlockHeader,
    pubkey: &BlsPublicKey,
    context: &Context,
    verify_signature: &F,
) -> (r: bool)
    requires
        context.valid(),
        forall|pk: BlsPublicKey, root: Root, sig: BlsSignature| call_requires(*verify_signature, (pk, root, sig)),
    ensures
        signature_verdict(*verify_signature, *pubkey, header_signing_root(*state, signed.message, *context), signed.signature, r),
{
    let header_epoch = signed.message.slot / context.slots_per_epoch;
    let domain = domain_at_epoch(state, DomainType::BeaconProposer, header_epoch);
    let header_root = signed.message.hash_tree_root();
    let root = signing_root_from(&header_root, &domain);
    verify_signature(*pubkey, root, signed.signature)
}

/// Processes a proposer slashing: the headers must conflict and each carry
/// the proposer's signature; then the proposer is slashed. On error the
/// state is left as it was.
pub fn process_proposer_slashing<F: Fn(BlsPublicKey, Root, BlsSignature) -> bool>(
    state: &mut BeaconState,
    proposer_slashing: &ProposerSlashing,
    context: &Context,
    verify_signature: F,
) -> (r: Result<(), Error>)
    requires
        context.valid(),
        old(state).wf(),
        forall|pk: BlsPublicKey, root: Root, sig: BlsSignature| call_requires(verify_signature, (pk, root, sig)),
    ensures
        ({
            let o = *old(state);
            let s = *proposer_slashing;
            let i = s.signed_header_1.message.proposer_index as int;
            let epoch = epoch_at_slot(o.slot, context.slots_per_epoch);
            &&& !proposer_slashable(o, o.validators@, s, *context) <==> (r matches Err(
                Error::InvalidOperation(InvalidOperation::ProposerNotSlashable),
            ))
            &&& (r matches Err(Error::InvalidSignature)) ==> proposer_slashable(o, o.validators@, s, *context) && (signature_verdict(
                verify_signature,
                o.validators@[i].pubkey,
                header_signing_root(o, s.signed_header_1.message, *context),
                s.signed_header_1.signature,
                false,
            ) || signature_verdict(
                verify_signature,
                o.validators@[i].pubkey,
                header_signing_root(o, s.signed_header_2.message, *context),
                s.signed_header_2.signature,
                false,
            ))
            &&& (r matches Err(Error::InvalidOperation(InvalidOperation::Overflow))) ==> proposer_slashable(o, o.validators@, s, *context)
                && slash_overflows(o.validators@, i, epoch, *context)
            &&& r is Err ==> *final(state) == o
            &&& r is Err ==> (r matches Err(Error::InvalidOperation(InvalidOperation::ProposerNotSlashable)))
                || (r matches Err(Error::InvalidSignature))
                || (r matches Err(Error::InvalidOperation(InvalidOperation::Overflow)))
            &&& r is Ok ==> {
                &&& proposer_slashable(o, o.validators@, s, *context)
                &&& signature_verdict(
                    verify_signature,
                    o.validators@[i].pubkey,
                    header_signing_root(o, s.signed_header_1.message, *context),
                    s.signed_header_1.signature,
                    true,
                )
                &&& signature_verdict(
                    verify_signature,
                    o.validators@[i].pubkey,
                    header_signing_root(o, s.signed_header_2.message, *context),
                    s.signed_header_2.signature,
                    true,
                )
                &&& final(state).wf()
                &&& same_chain_fields(o, *final(state))
                &&& final(state).latest_block_header == o.latest_block_header
                &&& final(state).randao_mixes@ == o.randao_mixes@
                &&& final(state).eth1_deposit_index == o.eth1_deposit_index
                &&& final(state).balances@ == o.balances@
                &&& final(state).validators@ == slash_step(o.validators@, i, epoch, *context)
                &&& !slash_overflows(o.validators@, i, epoch, *context)
            }
        }),
{
    let h1 = &proposer_slashing.signed_header_1.message;
    let h2 = &proposer_slashing.signed_header_2.message;
    let epoch = get_current_epoch(state, context);
    if h1.slot != h2.slot || h1.proposer_index != h2.proposer_index || header_eq(h1, h2)
        || h1.proposer_index >= state.validators.len()
        || !is_slashable_validator(state.validators[h1.proposer_index], epoch) {
        return Err(Error::InvalidOperation(InvalidOperation::ProposerNotSlashable));
    }
    let pubkey = state.validators[h1.proposer_index].pubkey;
    if !header_signature_ok(state, &proposer_slashing.signed_header_1, &pubkey, context, &verify_signature) {
        return Err(Error::InvalidSignature);
    }
    if !header_signature_ok(state, &proposer_slashing.signed_header_2, &pubkey, context, &verify_signature) {
        return Err(Error::InvalidSignature);
    }
    slash_validator(state, h1.proposer_index, context)
}

} // verus!
