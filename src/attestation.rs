//! Validity of indexed attestations.
use crate::beacon_state::BeaconState;
use crate::error::{Error, InvalidOperation};
use crate::primitives::{BlsPublicKey, BlsSignature, DomainType, IndexedAttestation, Root, Validator, ValidatorIndex};
use crate::signing::{attestation_data_root, domain_at_epoch, domain_of, signing_root, version_at, HashTreeRoot, signing_root_from};
use std::collections::HashSet;
use vstd::prelude::*;

verus! {

/// Some index occurs twice.
pub open spec fn has_duplicates(s: Seq<ValidatorIndex>) -> bool {
    exists|i: int, j: int| 0 <= i < j < s.len() && s[i] == s[j]
}

/// Every index names a validator of the registry.
pub open spec fn all_known(validators: Seq<Validator>, s: Seq<ValidatorIndex>) -> bool {
    forall|k: int| 0 <= k < s.len() ==> s[k] < validators.len()
}

/// The public keys of the attesters, in the order of the indices.
pub open spec fn attesting_pubkeys(validators: Seq<Validator>, s: Seq<ValidatorIndex>) -> Seq<BlsPublicKey> {
    s.map(|k: int, i: ValidatorIndex| validators[i as int].pubkey)
}

/// The root the attesters of `a` sign, under the attester domain of its target epoch.
pub open spec fn attestation_signing_root(state: BeaconState, a: IndexedAttestation) -> Seq<u8> {
    signing_root(
        attestation_data_root(a.data),
        domain_of(DomainType::BeaconAttester, version_at(state, a.data.target.epoch)@, state.genesis_validators_root@),
    )
}

/// The aggregate verifier returned `verdict` on these keys, message and signature.
pub open spec fn aggregate_verdict<F: Fn(Vec<BlsPublicKey>, Root, BlsSignature) -> bool>(
    fast_aggregate_verify: F,
    pubkeys: Seq<BlsPublicKey>,
    message: Seq<u8>,
    signature: BlsSignature,
    verdict: bool,
) -> bool {
    exists|keys: Vec<BlsPublicKey>, root: Root|
        keys@ == pubkeys && root@ == message && call_ensures(fast_aggregate_verify, (keys, root, signature), verdict)
}

fn first_duplicate_free(s: &Vec<ValidatorIndex>) -> (r: bool)
    ensures
        r == !has_duplicates(s@),
{
    broadcast use vstd::std_specs::hash::group_hash_axioms;

    let mut seen: HashSet<ValidatorIndex> = HashSet::new();
    let mut i: usize = 0;
    while i < s.len()
        invariant
            0 <= i <= s@.len(),
            forall|a: int, b: int| 0 <= a < b < i ==> s@[a] != s@[b],
            forall|x: ValidatorIndex| seen@.contains(x) <==> exists|j: int| 0 <= j < i && s@[j] == x,
        decreases s@.len() - i,
    {
        let fresh = seen.insert(s[i]);
        if !fresh {
            let ghost j = choose|j: int| 0 <= j < i && s@[j] == s@[i as int];
            assert(s@[j] == s@[i as int]);
            return false;
        }
        proof {
            assert forall|x: ValidatorIndex| seen@.contains(x) <==> exists|j: int| 0 <= j < i + 1 && s@[j] == x by {
                if seen@.contains(x) && x != s@[i as int] {
                    let j = choose|j: int| 0 <= j < i && s@[j] == x;
                    assert(0 <= j < i + 1 && s@[j] == x);
                }
                if x == s@[i as int] {
                    assert(0 <= i < i + 1 && s@[i as int] == x);
                }
            }
        }
        i = i + 1;
    }
    true
}

/// Checks an indexed attestation: its indices are non-empty, pairwise
/// distinct and name known validators, and `fast_aggregate_verify` accepts
/// the aggregate signature of their keys over the attestation's signing root.
pub fn is_valid_indexed_attestation<F: Fn(Vec<BlsPublicKey>, Root, BlsSignature) -> bool>(
    state: &BeaconState,
    indexed_attestation: &IndexedAttestation,
    fast_aggregate_verify: F,
) -> (r: Result<(), Error>)
    requires
        forall|keys: Vec<BlsPublicKey>, root: Root, sig: BlsSignature|
            call_requires(fast_aggregate_verify, (keys, root, sig)),
    ensures
        ({
            let s = indexed_attestation.attesting_indices@;
            let keys = attesting_pubkeys(state.validators@, s);
            let msg = attestation_signing_root(*state, *indexed_attestation);
            let sig = indexed_attestation.signature;
            &&& s.len() == 0 ==> (r matches Err(Error::InvalidOperation(InvalidOperation::EmptyAttestingIndices)))
            &&& s.len() > 0 && has_duplicates(s) ==> (r matches Err(
                Error::InvalidOperation(InvalidOperation::DuplicateAttestingIndices),
            ))
            &&& s.len() > 0 && !has_duplicates(s) && !all_known(state.validators@, s) ==> (r matches Err(
                Error::InvalidOperation(InvalidOperation::UnknownValidatorIndex),
            ))
            &&& s.len() > 0 && !has_duplicates(s) && all_known(state.validators@, s) ==> {
                &&& r is Ok || (r matches Err(Error::InvalidSignature))
                &&& r is Ok ==> aggregate_verdict(fast_aggregate_verify, keys, msg, sig, true)
                &&& (r matches Err(Error::InvalidSignature)) ==> aggregate_verdict(
                    fast_aggregate_verify,
                    keys,
                    msg,
                    sig,
                    false,
                )
            }
        }),
{
    let indices = &indexed_attestation.attesting_indices;
    if indices.len() == 0 {
        return Err(Error::InvalidOperation(InvalidOperation::EmptyAttestingIndices));
    }
    if !first_duplicate_free(indices) {
        return Err(Error::InvalidOperation(InvalidOperation::DuplicateAttestingIndices));
    }
    let mut pubkeys: Vec<BlsPublicKey> = Vec::new();
    let mut k: usize = 0;
    while k < indices.len()
        invariant
            0 <= k <= indices@.len(),
            indices@ == indexed_attestation.attesting_indices@,
            indices@.len() > 0,
            !has_duplicates(indices@),
            pubkeys@ == attesting_pubkeys(state.validators@, indices@.subrange(0, k as int)),
            all_known(state.validators@, indices@.subrange(0, k as int)),
        decreases indices@.len() - k,
    {
        let i = indices[k];
        if i >= state.validators.len() {
            assert(!all_known(state.validators@, indices@));
            return Err(Error::InvalidOperation(InvalidOperation::UnknownValidatorIndex));
        }
        pubkeys.push(state.validators[i].pubkey);
        k = k + 1;
        assert(pubkeys@ =~= attesting_pubkeys(state.validators@, indices@.subrange(0, k as int)));
    }
    assert(indices@.subrange(0, k as int) =~= indices@);
    let domain = domain_at_epoch(state, DomainType::BeaconAttester, indexed_attestation.data.target.epoch);
    let data_root = indexed_attestation.data.hash_tree_root();
    let signing_root = signing_root_from(&data_root, &domain);
    let ghost keys = pubkeys@;
    let ok = fast_aggregate_verify(pubkeys, signing_root, indexed_attestation.signature);
    if ok {
        Ok(())
    } else {
        Err(Error::InvalidSignature)
    }
}

} // verus!
