//! Deposit processing: proof of inclusion, then top-up or admission.
use crate::beacon_state::{epochs_ordered, BeaconState, Context};
use crate::error::{Error, InvalidOperation};
use crate::merkle::{is_valid_merkle_branch, valid_merkle_branch};
use crate::primitives::{
    BlsPublicKey, BlsSignature, Deposit, DepositData, DomainType, Root, Validator, FAR_FUTURE_EPOCH,
};
use crate::signing::{compute_domain, domain_of, signing_root, signing_root_from};
use crate::ssz::{
    bytes_root, container_root, fixed_bytes_root, merkleize_fixed, push_bytes, push_u64_chunk,
    u64_chunk, zeros,
};
use crate::validator::{quantize_effective_balance, quantized};
use vstd::prelude::*;

verus! {

/// Depth of the deposit contract's Merkle tree.
pub const DEPOSIT_CONTRACT_TREE_DEPTH: usize = 32;

pub open spec fn deposit_message_root(d: DepositData) -> Seq<u8> {
    container_root(bytes_root(d.pubkey@) + bytes_root(d.withdrawal_credentials@) + u64_chunk(d.amount))
}

pub open spec fn deposit_data_root(d: DepositData) -> Seq<u8> {
    container_root(
        bytes_root(d.pubkey@) + bytes_root(d.withdrawal_credentials@) + u64_chunk(d.amount) + bytes_root(
            d.signature@,
        ),
    )
}

/// Deposits are signed under the genesis fork version on no particular chain.
pub open spec fn deposit_domain(context: Context) -> Seq<u8> {
    domain_of(DomainType::Deposit, context.genesis_fork_version@, zeros(32))
}

/// The record admitted for a new public key.
pub open spec fn validator_from_deposit(d: DepositData, context: Context) -> Validator {
    Validator {
        pubkey: d.pubkey,
        withdrawal_credentials: d.withdrawal_credentials,
        effective_balance: quantized(d.amount, context.effective_balance_increment, context.max_effective_balance),
        slashed: false,
        activation_eligibility_epoch: FAR_FUTURE_EPOCH,
        activation_epoch: FAR_FUTURE_EPOCH,
        exit_epoch: FAR_FUTURE_EPOCH,
        withdrawable_epoch: FAR_FUTURE_EPOCH,
    }
}

/// `j` is the first validator holding `pubkey`.
pub open spec fn first_with_pubkey(validators: Seq<Validator>, pubkey: BlsPublicKey, j: int) -> bool {
    &&& 0 <= j < validators.len()
    &&& validators[j].pubkey@ == pubkey@
    &&& forall|k: int| 0 <= k < j ==> validators[k].pubkey@ != pubkey@
}

pub open spec fn has_pubkey(validators: Seq<Validator>, pubkey: BlsPublicKey) -> bool {
    exists|k: int| 0 <= k < validators.len() && validators[k].pubkey@ == pubkey@
}

/// The signature verifier returned `verdict` on this key, message and signature.
pub open spec fn signature_verdict<F: Fn(BlsPublicKey, Root, BlsSignature) -> bool>(
    verify_signature: F,
    pubkey: BlsPublicKey,
    message: Seq<u8>,
    signature: BlsSignature,
    verdict: bool,
) -> bool {
    exists|root: Root| root@ == message && call_ensures(verify_signature, (pubkey, root, signature), verdict)
}

/// The deposit's proof places its data at the state's next deposit index
/// under the state's deposit root.
pub open spec fn deposit_proof_valid(state: BeaconState, deposit: Deposit) -> bool {
    valid_merkle_branch(
        deposit_data_root(deposit.data),
        deposit.proof@,
        (DEPOSIT_CONTRACT_TREE_DEPTH + 1) as nat,
        state.eth1_deposit_index as nat,
        state.eth1_data.deposit_root@,
    )
}

/// The fields that neither deposits, block headers nor randomness reveals touch are equal.
pub open spec fn same_chain_fields(a: BeaconState, b: BeaconState) -> bool {
    &&& a.genesis_time == b.genesis_time
    &&& a.genesis_validators_root == b.genesis_validators_root
    &&& a.slot == b.slot
    &&& a.fork == b.fork
    &&& a.eth1_data == b.eth1_data
    &&& a.previous_justified_checkpoint == b.previous_justified_checkpoint
    &&& a.current_justified_checkpoint == b.current_justified_checkpoint
    &&& a.finalized_checkpoint == b.finalized_checkpoint
    &&& a.current_sync_committee@ == b.current_sync_committee@
    &&& a.next_sync_committee@ == b.next_sync_committee@
}

/// Everything but the registry, the balances and the deposit index is kept.
pub open spec fn same_outside_registry(a: BeaconState, b: BeaconState) -> bool {
    &&& same_chain_fields(a, b)
    &&& a.latest_block_header == b.latest_block_header
    &&& a.randao_mixes@ == b.randao_mixes@
}

/// The registry and balances after one deposit: a known key is topped up at
/// its first index; a new key is admitted when `admitted`, else nothing changes.
pub open spec fn registry_step(
    validators: Seq<Validator>,
    balances: Seq<u64>,
    d: DepositData,
    admitted: bool,
    context: Context,
) -> (Seq<Validator>, Seq<u64>) {
    if has_pubkey(validators, d.pubkey) {
        let j = choose|j: int| first_with_pubkey(validators, d.pubkey, j);
        (validators, balances.update(j, (balances[j] + d.amount) as u64))
    } else if admitted {
        (validators.push(validator_from_deposit(d, context)), balances.push(d.amount))
    } else {
        (validators, balances)
    }
}

/// The registry and balances after the first `n` deposits, the `i`th new key
/// being admitted as `admitted[i]` says.
pub open spec fn registry_after(
    validators: Seq<Validator>,
    balances: Seq<u64>,
    deposits: Seq<Deposit>,
    admitted: Seq<bool>,
    n: nat,
    context: Context,
) -> (Seq<Validator>, Seq<u64>)
    decreases n,
{
    if n == 0 {
        (validators, balances)
    } else {
        let prev = registry_after(validators, balances, deposits, admitted, (n - 1) as nat, context);
        registry_step(prev.0, prev.1, deposits[n - 1].data, admitted[n - 1], context)
    }
}

/// The registry after `n` deposits depends on the first `n` admission
/// decisions only.
pub proof fn lemma_registry_after_prefix(
    validators: Seq<Validator>,
    balances: Seq<u64>,
    deposits: Seq<Deposit>,
    a1: Seq<bool>,
    a2: Seq<bool>,
    n: nat,
    context: Context,
)
    requires
        forall|i: int| 0 <= i < n ==> a1[i] == a2[i],
    ensures
        registry_after(validators, balances, deposits, a1, n, context) == registry_after(
            validators,
            balances,
            deposits,
            a2,
            n,
            context,
        ),
    decreases n,
{
    if n > 0 {
        lemma_registry_after_prefix(validators, balances, deposits, a1, a2, (n - 1) as nat, context);
    }
}

/// The root of a deposit's data, the leaf its proof starts from.
pub fn deposit_data_hash_tree_root(d: &DepositData) -> (r: Root)
    ensures
        r@ == deposit_data_root(*d),
{
    let mut chunks: Vec<u8> = Vec::new();
    let pk = fixed_bytes_root(&d.pubkey);
    push_bytes(&mut chunks, &pk);
    let wc = fixed_bytes_root(&d.withdrawal_credentials);
    push_bytes(&mut chunks, &wc);
    push_u64_chunk(&mut chunks, d.amount);
    let sig = fixed_bytes_root(&d.signature);
    push_bytes(&mut chunks, &sig);
    assert(chunks@ =~= bytes_root(d.pubkey@) + bytes_root(d.withdrawal_credentials@) + u64_chunk(d.amount)
        + bytes_root(d.signature@));
    merkleize_fixed(&chunks)
}

/// The root of the message a depositor signs.
pub fn deposit_message_hash_tree_root(d: &DepositData) -> (r: Root)
    ensures
        r@ == deposit_message_root(*d),
{
    let mut chunks: Vec<u8> = Vec::new();
    let pk = fixed_bytes_root(&d.pubkey);
    push_bytes(&mut chunks, &pk);
    let wc = fixed_bytes_root(&d.withdrawal_credentials);
    push_bytes(&mut chunks, &wc);
    push_u64_chunk(&mut chunks, d.amount);
    assert(chunks@ =~= bytes_root(d.pubkey@) + bytes_root(d.withdrawal_credentials@) + u64_chunk(d.amount));
    merkleize_fixed(&chunks)
}

fn pubkey_eq(a: &BlsPublicKey, b: &BlsPublicKey) -> (r: bool)
    ensures
        r == (a@ == b@),
{
    let mut i: usize = 0;
    while i < 48
        invariant
            0 <= i <= 48,
            forall|j: int| 0 <= j < i ==> a@[j] == b@[j],
        decreases 48 - i,
    {
        if a[i] != b[i] {
            return false;
        }
        i = i + 1;
    }
    assert(a@ =~= b@);
    true
}

/// The index of the first validator holding `pubkey`, if any.
pub fn find_validator_index(validators: &Vec<Validator>, pubkey: &BlsPublicKey) -> (r: Option<usize>)
    ensures
        r matches Some(j) ==> first_with_pubkey(validators@, *pubkey, j as int),
        r is None <==> !has_pubkey(validators@, *pubkey),
{
    let mut k: usize = 0;
    while k < validators.len()
        invariant
            0 <= k <= validators@.len(),
            forall|i: int| 0 <= i < k ==> validators@[i].pubkey@ != pubkey@,
        decreases validators@.len() - k,
    {
        if pubkey_eq(&validators[k].pubkey, pubkey) {
            return Some(k);
        }
        k = k + 1;
    }
    None
}

/// The record admitted for a new public key.
pub fn get_validator_from_deposit(d: &DepositData, context: &Context) -> (r: Validator)
    requires
        context.valid(),
    ensures
        r == validator_from_deposit(*d, *context),
{
    Validator {
        pubkey: d.pubkey,
        withdrawal_credentials: d.withdrawal_credentials,
        effective_balance: quantize_effective_balance(
            d.amount,
            context.effective_balance_increment,
            context.max_effective_balance,
        ),
        slashed: false,
        activation_eligibility_epoch: FAR_FUTURE_EPOCH,
        activation_epoch: FAR_FUTURE_EPOCH,
        exit_epoch: FAR_FUTURE_EPOCH,
        withdrawable_epoch: FAR_FUTURE_EPOCH,
    }
}

/// Applies one deposit: its proof must place it at the next deposit index
/// under the deposit root. A known public key has its balance topped up; a
/// new one is admitted when `verify_signature` accepts the depositor's
/// signature, and the deposit is otherwise consumed with no effect. On error
/// the state is left as it was.
pub fn process_deposit<F: Fn(BlsPublicKey, Root, BlsSignature) -> bool>(
    state: &mut BeaconState,
    deposit: &Deposit,
    context: &Context,
    verify_signature: F,
) -> (r: Result<(), Error>)
    requires
        context.valid(),
        old(state).wf(),
        forall|pk: BlsPublicKey, root: Root, sig: BlsSignature| call_requires(verify_signature, (pk, root, sig)),
    ensures
        ({
            let o = *old(state);
            let n = *final(state);
            let d = deposit.data;
            let known = has_pubkey(o.validators@, d.pubkey);
            let msg = signing_root(deposit_message_root(d), deposit_domain(*context));
            &&& r is Err ==> n == o
            &&& !deposit_proof_valid(o, *deposit) <==> (r matches Err(
                Error::InvalidOperation(InvalidOperation::InvalidDepositProof),
            ))
            &&& (r matches Err(Error::InvalidOperation(InvalidOperation::Overflow))) ==> deposit_proof_valid(o, *deposit)
                && (o.eth1_deposit_index == u64::MAX || (known && exists|j: int|
                    first_with_pubkey(o.validators@, d.pubkey, j) && o.balances@[j] + d.amount > u64::MAX))
            &&& (r matches Err(Error::InvalidOperation(InvalidOperation::RegistryFull))) ==> deposit_proof_valid(o, *deposit)
                && !known && o.validators@.len() >= context.validator_registry_limit
                && signature_verdict(verify_signature, d.pubkey, msg, d.signature, true)
            &&& r is Err ==> (r matches Err(Error::InvalidOperation(InvalidOperation::InvalidDepositProof)))
                || (r matches Err(Error::InvalidOperation(InvalidOperation::Overflow)))
                || (r matches Err(Error::InvalidOperation(InvalidOperation::RegistryFull)))
            &&& r is Ok ==> {
                &&& deposit_proof_valid(o, *deposit)
                &&& n.eth1_deposit_index == o.eth1_deposit_index + 1
                &&& n.validators@.len() > o.validators@.len() ==> o.validators@.len() < context.validator_registry_limit
                &&& o.eth1_deposit_index < u64::MAX
                &&& forall|j: int| first_with_pubkey(o.validators@, d.pubkey, j) ==> o.balances@[j] + d.amount <= u64::MAX
                &&& n.validators@ == o.validators@ || n.validators@ == o.validators@.push(
                    validator_from_deposit(d, *context),
                )
                &&& (n.validators@, n.balances@) == registry_step(
                    o.validators@,
                    o.balances@,
                    d,
                    n.validators@.len() > o.validators@.len(),
                    *context,
                )
                &&& same_outside_registry(o, n)
                &&& n.wf()
                &&& forall|j: int| first_with_pubkey(o.validators@, d.pubkey, j) ==> {
                    &&& n.validators@ == o.validators@
                    &&& n.balances@ == o.balances@.update(j, (o.balances@[j] + d.amount) as u64)
                }
                &&& !known ==> {
                    ||| {
                        &&& n.validators@ == o.validators@.push(validator_from_deposit(d, *context))
                        &&& n.balances@ == o.balances@.push(d.amount)
                        &&& signature_verdict(verify_signature, d.pubkey, msg, d.signature, true)
                    }
                    ||| {
                        &&& n.validators@ == o.validators@
                        &&& n.balances@ == o.balances@
                        &&& signature_verdict(verify_signature, d.pubkey, msg, d.signature, false)
                    }
                }
            }
        }),
{
    let leaf = deposit_data_hash_tree_root(&deposit.data);
    if !is_valid_merkle_branch(
        leaf,
        deposit.proof.as_slice(),
        DEPOSIT_CONTRACT_TREE_DEPTH + 1,
        state.eth1_deposit_index,
        state.eth1_data.deposit_root,
    ) {
        return Err(Error::InvalidOperation(InvalidOperation::InvalidDepositProof));
    }
    if state.eth1_deposit_index == u64::MAX {
        return Err(Error::InvalidOperation(InvalidOperation::Overflow));
    }
    let d = &deposit.data;
    match find_validator_index(&state.validators, &d.pubkey) {
        Some(j) => {
            let balance = state.balances[j];
            if balance > u64::MAX - d.amount {
                assert(first_with_pubkey(state.validators@, d.pubkey, j as int));
                return Err(Error::InvalidOperation(InvalidOperation::Overflow));
            }
            state.eth1_deposit_index = state.eth1_deposit_index + 1;
            state.balances.set(j, balance + d.amount);
            proof {
                assert forall|k: int| first_with_pubkey(old(state).validators@, d.pubkey, k) implies k == j by {
                    if k < j {
                        assert(old(state).validators@[k].pubkey@ != d.pubkey@);
                    } else if k > j {
                        assert(old(state).validators@[j as int].pubkey@ != d.pubkey@);
                    }
                }
                let c = choose|k: int| first_with_pubkey(old(state).validators@, d.pubkey, k);
                assert(first_with_pubkey(old(state).validators@, d.pubkey, j as int));
                assert(c == j);
            }
            Ok(())
        },
        None => {
            let message_root = deposit_message_hash_tree_root(d);
            let zero_root: [u8; 32] = [0u8; 32];
            assert(zero_root@ =~= zeros(32));
            let domain = compute_domain(DomainType::Deposit, &context.genesis_fork_version, &zero_root);
            let root = signing_root_from(&message_root, &domain);
            let ok = verify_signature(d.pubkey, root, d.signature);
            assert(signature_verdict(
                verify_signature,
                d.pubkey,
                signing_root(deposit_message_root(*d), deposit_domain(*context)),
                d.signature,
                ok,
            ));
            if ok {
                if state.validators.len() as u64 >= context.validator_registry_limit {
                    return Err(Error::InvalidOperation(InvalidOperation::RegistryFull));
                }
                let v = get_validator_from_deposit(d, context);
                state.eth1_deposit_index = state.eth1_deposit_index + 1;
                state.validators.push(v);
                state.balances.push(d.amount);
                assert(epochs_ordered(v));
            } else {
                state.eth1_deposit_index = state.eth1_deposit_index + 1;
            }
            Ok(())
        },
    }
}

} // verus!
