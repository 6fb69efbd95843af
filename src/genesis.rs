//! Construction of the genesis state from the deposit contract's history.
use crate::beacon_state::{agrees_but_committees, epoch_at_slot, BeaconState, Context};
use crate::block::{
    attester_slashing_root, body_hash_tree_root, concat_roots, deposit_root, proposer_slashing_root,
    signed_exit_root, MAX_ATTESTER_SLASHINGS, MAX_DEPOSITS, MAX_PROPOSER_SLASHINGS, MAX_VOLUNTARY_EXITS,
};
use crate::deposit::{
    deposit_data_hash_tree_root, deposit_data_root, deposit_domain, deposit_message_root, first_with_pubkey,
    has_pubkey, lemma_registry_after_prefix, process_deposit, registry_after, same_outside_registry,
    signature_verdict, DEPOSIT_CONTRACT_TREE_DEPTH,
};
use crate::error::{Error, InvalidOperation};
use crate::merkle::valid_merkle_branch;
use crate::primitives::{
    AttesterSlashing, BeaconBlockBody, BeaconBlockHeader, BlsPublicKey, BlsSignature, Checkpoint, Deposit,
    DepositData, Eth1Data, Fork, Hash32, ProposerSlashing, Root, SignedVoluntaryExit, Validator,
    FAR_FUTURE_EPOCH, GENESIS_EPOCH, GENESIS_SLOT,
};
use crate::signing::{signing_root, validator_root, HashTreeRoot};
use crate::ssz::{bytes_root, container_root, list_root, list_root_of, push_bytes, u64_chunk, zeros};
use crate::validator::{quantize_effective_balance, quantized};
use vstd::prelude::*;

verus! {

/// Capacity of the deposit-data list the deposit root commits to.
pub const DEPOSIT_DATA_LIST_BOUND: u64 = 0x1_0000_0000;

/// The concatenated roots of a registry.
pub open spec fn registry_chunks(validators: Seq<Validator>) -> Seq<u8> {
    concat_roots(validators.map(|i: int, v: Validator| validator_root(v)))
}

/// The commitment of a registry bounded by `limit`.
pub open spec fn registry_root(validators: Seq<Validator>, limit: usize) -> Seq<u8> {
    list_root(registry_chunks(validators), limit)
}

/// The concatenated roots of the data of the first `n` deposits.
pub open spec fn deposit_leaves(deposits: Seq<Deposit>, n: int) -> Seq<u8> {
    concat_roots(deposits.subrange(0, n).map(|i: int, d: Deposit| deposit_data_root(d.data)))
}

/// What the genesis pass leaves in each validator: its effective balance
/// quantized from its balance, and activation at genesis exactly when that
/// reaches the maximum.
pub open spec fn genesis_finalized(v: Validator, balance: u64, context: Context) -> bool {
    &&& v.effective_balance == quantized(balance, context.effective_balance_increment, context.max_effective_balance)
    &&& (v.activation_epoch == GENESIS_EPOCH) == (v.effective_balance == context.max_effective_balance)
    &&& v.effective_balance == context.max_effective_balance ==> v.activation_eligibility_epoch == GENESIS_EPOCH
}

/// A validator after the genesis pass: its effective balance quantized from
/// `balance`, and activated at genesis when that reaches the maximum.
pub open spec fn genesis_validator(v: Validator, balance: u64, context: Context) -> Validator {
    let eff = quantized(balance, context.effective_balance_increment, context.max_effective_balance);
    let at_max = eff == context.max_effective_balance;
    Validator {
        pubkey: v.pubkey,
        withdrawal_credentials: v.withdrawal_credentials,
        effective_balance: eff,
        slashed: v.slashed,
        activation_eligibility_epoch: if at_max { GENESIS_EPOCH } else { v.activation_eligibility_epoch },
        activation_epoch: if at_max { GENESIS_EPOCH } else { v.activation_epoch },
        exit_epoch: v.exit_epoch,
        withdrawable_epoch: v.withdrawable_epoch,
    }
}

/// `n`'s registry is what replaying `deposits` from an empty registry leaves,
/// new keys admitted as `admitted` says, after the genesis pass.
pub open spec fn genesis_registry(n: BeaconState, deposits: Seq<Deposit>, admitted: Seq<bool>, context: Context) -> bool {
    let replayed = registry_after(Seq::empty(), Seq::empty(), deposits, admitted, deposits.len(), context);
    &&& admitted.len() == deposits.len()
    &&& n.balances@ == replayed.1
    &&& n.validators@.len() == replayed.0.len()
    &&& forall|i: int| 0 <= i < n.validators@.len() ==> #[trigger] n.validators@[i] == genesis_validator(replayed.0[i], n.balances@[i], context)
}

/// The registry and balances after replaying the first `k` deposits from an
/// empty registry, new keys admitted as `admitted` says.
pub open spec fn genesis_prefix(deposits: Seq<Deposit>, admitted: Seq<bool>, k: int, context: Context) -> (Seq<Validator>, Seq<u64>) {
    registry_after(Seq::empty(), Seq::empty(), deposits, admitted, k as nat, context)
}

/// The message a depositor signs.
pub open spec fn deposit_message(d: DepositData, context: Context) -> Seq<u8> {
    signing_root(deposit_message_root(d), deposit_domain(context))
}

/// Each of the first `n` deposits that brought a new key admitted it exactly
/// when `verify_signature` accepted the depositor's signature.
pub open spec fn admissions_follow<F: Fn(BlsPublicKey, Root, BlsSignature) -> bool>(
    deposits: Seq<Deposit>,
    admitted: Seq<bool>,
    n: int,
    context: Context,
    verify_signature: F,
) -> bool {
    forall|k: int|
        0 <= k < n && !has_pubkey(#[trigger] genesis_prefix(deposits, admitted, k, context).0, deposits[k].data.pubkey)
            ==> signature_verdict(
            verify_signature,
            deposits[k].data.pubkey,
            deposit_message(deposits[k].data, context),
            deposits[k].data.signature,
            admitted[k],
        )
}

/// Deposit `k` fails when replayed after the first `k`: its proof does not
/// place it at index `k` under the root of the first `k + 1` deposits, or a
/// top-up overflows, or a new key would overfill the registry.
pub open spec fn genesis_deposit_fails<F: Fn(BlsPublicKey, Root, BlsSignature) -> bool>(
    deposits: Seq<Deposit>,
    admitted: Seq<bool>,
    k: int,
    context: Context,
    verify_signature: F,
) -> bool {
    let reg = genesis_prefix(deposits, admitted, k, context);
    let d = deposits[k].data;
    ||| !valid_merkle_branch(
        deposit_data_root(d),
        deposits[k].proof@,
        (DEPOSIT_CONTRACT_TREE_DEPTH + 1) as nat,
        k as nat,
        list_root(deposit_leaves(deposits, k + 1), DEPOSIT_DATA_LIST_BOUND as usize),
    )
    ||| has_pubkey(reg.0, d.pubkey) && exists|j: int| first_with_pubkey(reg.0, d.pubkey, j) && reg.1[j] + d.amount > u64::MAX
    ||| !has_pubkey(reg.0, d.pubkey) && reg.0.len() >= context.validator_registry_limit && signature_verdict(
        verify_signature,
        d.pubkey,
        deposit_message(d, context),
        d.signature,
        true,
    )
}

/// Deposit `k` succeeds when replayed after the first `k`: its proof places
/// it at index `k` under the root of the first `k + 1` deposits, a top-up
/// does not overflow, and a new key admitted finds room in the registry.
pub open spec fn genesis_deposit_ok(deposits: Seq<Deposit>, admitted: Seq<bool>, k: int, context: Context) -> bool {
    let reg = genesis_prefix(deposits, admitted, k, context);
    let d = deposits[k].data;
    &&& valid_merkle_branch(
        deposit_data_root(d),
        deposits[k].proof@,
        (DEPOSIT_CONTRACT_TREE_DEPTH + 1) as nat,
        k as nat,
        list_root(deposit_leaves(deposits, k + 1), DEPOSIT_DATA_LIST_BOUND as usize),
    )
    &&& forall|j: int| first_with_pubkey(reg.0, d.pubkey, j) ==> reg.1[j] + d.amount <= u64::MAX
    &&& !has_pubkey(reg.0, d.pubkey) && admitted[k] ==> reg.0.len() < context.validator_registry_limit
}

/// `select_sync_committee` answered `committee` when asked about `state`.
pub open spec fn committee_selected<H: Fn(&BeaconState) -> Vec<BlsPublicKey>>(
    select_sync_committee: H,
    state: BeaconState,
    committee: Seq<BlsPublicKey>,
) -> bool {
    exists|c: Vec<BlsPublicKey>| c@ == committee && call_ensures(select_sync_committee, (&state,), c)
}

/// A validator's four epoch markers are all still the sentinel.
pub open spec fn unset_markers(v: Validator) -> bool {
    &&& v.activation_eligibility_epoch == FAR_FUTURE_EPOCH
    &&& v.activation_epoch == FAR_FUTURE_EPOCH
    &&& v.exit_epoch == FAR_FUTURE_EPOCH
    &&& v.withdrawable_epoch == FAR_FUTURE_EPOCH
}

/// The root of the empty block body the genesis header commits to.
pub open spec fn empty_body_root() -> Seq<u8> {
    container_root(
        bytes_root(zeros(96)) + container_root(bytes_root(zeros(32)) + u64_chunk(0) + bytes_root(zeros(32)))
            + bytes_root(zeros(32)) + list_root(Seq::empty(), MAX_PROPOSER_SLASHINGS) + list_root(
            Seq::empty(),
            MAX_ATTESTER_SLASHINGS,
        ) + list_root(Seq::empty(), MAX_DEPOSITS) + list_root(Seq::empty(), MAX_VOLUNTARY_EXITS),
    )
}

/// A header whose slot, proposer, parent and state root are zero, with the
/// empty body's root.
pub open spec fn is_header_zero_but_body(h: BeaconBlockHeader) -> bool {
    &&& h.slot == GENESIS_SLOT
    &&& h.proposer_index == 0
    &&& h.parent_root@ == zeros(32)
    &&& h.state_root@ == zeros(32)
    &&& h.body_root@ == empty_body_root()
}

/// The commitment of a registry: each validator's root, under the registry's capacity.
pub fn validators_hash_tree_root(validators: &Vec<Validator>, limit: usize) -> (r: Result<Root, Error>)
    requires
        limit <= usize::MAX / 2 + 1,
    ensures
        r matches Ok(x) ==> x@ == registry_root(validators@, limit),
        r is Ok <==> validators@.len() <= limit,
{
    let ghost roots = validators@.map(|i: int, v: Validator| validator_root(v));
    let mut chunks: Vec<u8> = Vec::new();
    let mut k: usize = 0;
    while k < validators.len()
        invariant
            0 <= k <= validators@.len(),
            roots == validators@.map(|i: int, v: Validator| validator_root(v)),
            chunks@ == concat_roots(roots.subrange(0, k as int)),
            chunks@.len() == 32 * k,
        decreases validators@.len() - k,
    {
        let r = validators[k].hash_tree_root();
        push_bytes(&mut chunks, &r);
        k = k + 1;
        assert(roots.subrange(0, k as int).drop_last() =~= roots.subrange(0, k - 1));
    }
    assert(roots.subrange(0, k as int) =~= roots);
    match list_root_of(&chunks, limit) {
        Ok(x) => Ok(x),
        Err(e) => Err(Error::MerkleizationError(e)),
    }
}

/// Builds the genesis state: `genesis_time` is the Eth1 timestamp plus the
/// genesis delay, every randomness mix is the Eth1 block hash, and each
/// deposit is replayed through ordinary deposit processing against the root
/// of the deposits so far. Then effective balances are quantized, validators
/// at the maximum are activated at genesis, and the registry's commitment
/// becomes the genesis validators root.
pub fn initialize_beacon_state_from_eth1<
    F: Fn(BlsPublicKey, Root, BlsSignature) -> bool + Copy,
    H: Fn(&BeaconState) -> Vec<BlsPublicKey>,
>(
    eth1_block_hash: Hash32,
    eth1_timestamp: u64,
    deposits: &[Deposit],
    context: &Context,
    verify_signature: F,
    select_sync_committee: H,
) -> (r: Result<BeaconState, Error>)
    requires
        forall|s: BeaconState| call_requires(select_sync_committee, (&s,)),
        context.valid(),
        eth1_timestamp + context.genesis_delay <= u64::MAX,
        forall|pk: BlsPublicKey, root: Root, sig: BlsSignature| call_requires(verify_signature, (pk, root, sig)),
    ensures
        r is Err ==> {
            ||| usize::MAX / 2 + 1 < DEPOSIT_DATA_LIST_BOUND
            ||| deposits@.len() > DEPOSIT_DATA_LIST_BOUND
            ||| exists|admitted: Seq<bool>, k: int|
                0 <= k < deposits@.len() && admitted.len() == k && admissions_follow(
                    deposits@,
                    admitted,
                    k,
                    *context,
                    verify_signature,
                ) && genesis_deposit_fails(deposits@, admitted, k, *context, verify_signature)
        },
        r matches Ok(n) ==> {
            &&& n.wf()
            &&& n.finality_in_past(*context)
            &&& exists|s1: BeaconState, s2: BeaconState|
                committee_selected(select_sync_committee, s1, n.current_sync_committee@) && committee_selected(
                    select_sync_committee,
                    s2,
                    n.next_sync_committee@,
                ) && agrees_but_committees(s1, n) && agrees_but_committees(s2, n) && s1.current_sync_committee@.len()
                    == 0 && s2.current_sync_committee@ == n.current_sync_committee@
            &&& n.latest_block_header.slot == GENESIS_SLOT
            &&& n.latest_block_header.proposer_index == 0
            &&& n.latest_block_header.parent_root@ == zeros(32)
            &&& n.latest_block_header.state_root@ == zeros(32)
            &&& n.latest_block_header.body_root@ == empty_body_root()
            &&& deposits@.len() == 0 ==> n.eth1_data.deposit_root@ == zeros(32)
            &&& n.genesis_time == eth1_timestamp + context.genesis_delay
            &&& n.slot == GENESIS_SLOT
            &&& n.fork.previous_version == context.genesis_fork_version
            &&& n.fork.current_version == context.genesis_fork_version
            &&& n.fork.epoch == GENESIS_EPOCH
            &&& n.eth1_data.block_hash == eth1_block_hash
            &&& n.eth1_data.deposit_count == deposits@.len()
            &&& n.eth1_deposit_index == deposits@.len()
            &&& deposits@.len() > 0 ==> n.eth1_data.deposit_root@ == list_root(
                deposit_leaves(deposits@, deposits@.len() as int),
                DEPOSIT_DATA_LIST_BOUND as usize,
            )
            &&& n.randao_mixes@ == Seq::new(context.epochs_per_historical_vector as nat, |i: int| eth1_block_hash)
            &&& n.validators@.len() <= deposits@.len()
            &&& forall|i: int| 0 <= i < n.validators@.len() ==> genesis_finalized(
                #[trigger] n.validators@[i],
                n.balances@[i],
                *context,
            )
            &&& n.genesis_validators_root@ == registry_root(n.validators@, context.validator_registry_limit as usize)
            &&& forall|i: int| 0 <= i < n.validators@.len() ==> {
                &&& (#[trigger] n.validators@[i]).exit_epoch == FAR_FUTURE_EPOCH
                &&& n.validators@[i].withdrawable_epoch == FAR_FUTURE_EPOCH
                &&& n.validators@[i].effective_balance != context.max_effective_balance ==> {
                    &&& n.validators@[i].activation_eligibility_epoch == FAR_FUTURE_EPOCH
                    &&& n.validators@[i].activation_epoch == FAR_FUTURE_EPOCH
                }
            }
            &&& exists|admitted: Seq<bool>|
                genesis_registry(n, deposits@, admitted, *context) && admissions_follow(
                    deposits@,
                    admitted,
                    deposits@.len() as int,
                    *context,
                    verify_signature,
                ) && forall|k: int| 0 <= k < deposits@.len() ==> #[trigger] genesis_deposit_ok(
                    deposits@,
                    admitted,
                    k,
                    *context,
                )
        },
{
    if DEPOSIT_DATA_LIST_BOUND > (usize::MAX / 2 + 1) as u64 {
        return Err(Error::InvalidOperation(InvalidOperation::Overflow));
    }
    let fork = Fork {
        previous_version: context.genesis_fork_version,
        current_version: context.genesis_fork_version,
        epoch: GENESIS_EPOCH,
    };
    let eth1_data = Eth1Data {
        deposit_root: [0u8; 32],
        deposit_count: deposits.len() as u64,
        block_hash: eth1_block_hash,
    };
    let empty_body = BeaconBlockBody {
        randao_reveal: [0u8; 96],
        eth1_data: Eth1Data { deposit_root: [0u8; 32], deposit_count: 0, block_hash: [0u8; 32] },
        graffiti: [0u8; 32],
        proposer_slashings: Vec::new(),
        attester_slashings: Vec::new(),
        deposits: Vec::new(),
        voluntary_exits: Vec::new(),
    };
    let body_root = match body_hash_tree_root(&empty_body) {
        Ok(x) => x,
        Err(e) => {
            assert(false);
            return Err(e);
        },
    };
    proof {
        assert(empty_body.randao_reveal@ =~= zeros(96));
        assert(empty_body.graffiti@ =~= zeros(32));
        assert(empty_body.eth1_data.deposit_root@ =~= zeros(32));
        assert(empty_body.eth1_data.block_hash@ =~= zeros(32));
        assert(empty_body.proposer_slashings@.map(|i: int, s: ProposerSlashing| proposer_slashing_root(s)) =~= Seq::empty());
        assert(empty_body.attester_slashings@.map(|i: int, s: AttesterSlashing| attester_slashing_root(s)) =~= Seq::empty());
        assert(empty_body.deposits@.map(|i: int, d: Deposit| deposit_root(d)) =~= Seq::empty());
        assert(empty_body.voluntary_exits@.map(|i: int, e: SignedVoluntaryExit| signed_exit_root(e)) =~= Seq::empty());
        assert(concat_roots(Seq::<Seq<u8>>::empty()) =~= Seq::<u8>::empty());
        assert(body_root@ == empty_body_root());
    }
    let latest_block_header = BeaconBlockHeader {
        slot: GENESIS_SLOT,
        proposer_index: 0,
        parent_root: [0u8; 32],
        state_root: [0u8; 32],
        body_root,
    };
    let mut randao_mixes: Vec<[u8; 32]> = Vec::new();
    let mut m: u64 = 0;
    while m < context.epochs_per_historical_vector
        invariant
            0 <= m <= context.epochs_per_historical_vector,
            randao_mixes@ == Seq::new(m as nat, |i: int| eth1_block_hash),
        decreases context.epochs_per_historical_vector - m,
    {
        randao_mixes.push(eth1_block_hash);
        m = m + 1;
        assert(randao_mixes@ =~= Seq::new(m as nat, |i: int| eth1_block_hash));
    }
    assert(latest_block_header.parent_root@ =~= zeros(32));
    assert(latest_block_header.state_root@ =~= zeros(32));
    assert(eth1_data.deposit_root@ =~= zeros(32));
    let zero_checkpoint = Checkpoint { epoch: GENESIS_EPOCH, root: [0u8; 32] };
    let mut state = BeaconState {
        genesis_time: eth1_timestamp + context.genesis_delay,
        genesis_validators_root: [0u8; 32],
        slot: GENESIS_SLOT,
        fork,
        latest_block_header,
        eth1_data,
        eth1_deposit_index: 0,
        validators: Vec::new(),
        balances: Vec::new(),
        randao_mixes,
        previous_justified_checkpoint: zero_checkpoint,
        current_justified_checkpoint: zero_checkpoint,
        finalized_checkpoint: zero_checkpoint,
        current_sync_committee: Vec::new(),
        next_sync_committee: Vec::new(),
    };
    let list_bound = DEPOSIT_DATA_LIST_BOUND as usize;
    let mut leaves: Vec<u8> = Vec::new();
    let ghost mut admitted: Seq<bool> = Seq::empty();
    assert(state.validators@ =~= Seq::<Validator>::empty());
    assert(state.balances@ =~= Seq::<u64>::empty());
    let mut k: usize = 0;
    while k < deposits.len()
        invariant
            0 <= k <= deposits@.len(),
            context.valid(),
            forall|pk: BlsPublicKey, root: Root, sig: BlsSignature| call_requires(verify_signature, (pk, root, sig)),
            state.wf(),
            state.genesis_time == eth1_timestamp + context.genesis_delay,
            state.slot == GENESIS_SLOT,
            state.fork == fork,
            state.eth1_data.block_hash == eth1_block_hash,
            state.eth1_data.deposit_count == deposits@.len(),
            state.eth1_deposit_index == k,
            k > 0 ==> state.eth1_data.deposit_root@ == list_root(deposit_leaves(deposits@, k as int), DEPOSIT_DATA_LIST_BOUND as usize),
            list_bound == DEPOSIT_DATA_LIST_BOUND as usize,
            state.randao_mixes@ == Seq::new(context.epochs_per_historical_vector as nat, |i: int| eth1_block_hash),
            state.validators@.len() <= k,
            forall|i: int| 0 <= i < state.validators@.len() ==> unset_markers(#[trigger] state.validators@[i]),
            forall|j: int| 0 <= j < k ==> #[trigger] genesis_deposit_ok(deposits@, admitted, j, *context),
            leaves@ == deposit_leaves(deposits@, k as int),
            leaves@.len() == 32 * k,
            admitted.len() == k,
            (state.validators@, state.balances@) == registry_after(Seq::empty(), Seq::empty(), deposits@, admitted, k as nat, *context),
            admissions_follow(deposits@, admitted, k as int, *context, verify_signature),
            state.finalized_checkpoint.epoch == GENESIS_EPOCH,
            state.current_sync_committee@.len() == 0,
            state.validators@.len() <= context.validator_registry_limit,
            context.validator_registry_limit <= usize::MAX / 2 + 1,
            DEPOSIT_DATA_LIST_BOUND <= usize::MAX / 2 + 1,
            is_header_zero_but_body(state.latest_block_header),
            k == 0 ==> state.eth1_data.deposit_root@ == zeros(32),
        decreases deposits@.len() - k,
    {
        let leaf = deposit_data_hash_tree_root(&deposits[k].data);
        push_bytes(&mut leaves, &leaf);
        assert(leaves@ =~= deposit_leaves(deposits@, k + 1)) by {
            let s = deposits@.subrange(0, k + 1).map(|i: int, d: Deposit| deposit_data_root(d.data));
            assert(s.drop_last() =~= deposits@.subrange(0, k as int).map(|i: int, d: Deposit| deposit_data_root(d.data)));
        }
        state.eth1_data.deposit_root = match list_root_of(&leaves, list_bound) {
            Ok(x) => x,
            Err(e) => {
                return Err(Error::MerkleizationError(e));
            },
        };
        let ghost before = state;
        match process_deposit(&mut state, &deposits[k], context, verify_signature) {
            Ok(()) => {},
            Err(e) => {
                proof {
                    assert(genesis_prefix(deposits@, admitted, k as int, *context).0 == before.validators@);
                    assert(genesis_deposit_fails(deposits@, admitted, k as int, *context, verify_signature));
                }
                return Err(e);
            },
        }
        proof {
            if state.validators@ != before.validators@ {
                assert(state.validators@ == before.validators@.push(
                    crate::deposit::validator_from_deposit(deposits@[k as int].data, *context),
                ));
            }
            assert forall|i: int| 0 <= i < state.validators@.len() implies unset_markers(#[trigger] state.validators@[i]) by {
                if i < before.validators@.len() {
                    assert(state.validators@[i] == before.validators@[i]);
                }
            }
            let grew = state.validators@.len() > before.validators@.len();
            let extended = admitted.push(grew);
            lemma_registry_after_prefix(Seq::empty(), Seq::empty(), deposits@, admitted, extended, k as nat, *context);
            assert forall|j: int|
                0 <= j < k + 1 && !has_pubkey(#[trigger] genesis_prefix(deposits@, extended, j, *context).0, deposits@[j].data.pubkey)
                    implies signature_verdict(
                    verify_signature,
                    deposits@[j].data.pubkey,
                    deposit_message(deposits@[j].data, *context),
                    deposits@[j].data.signature,
                    extended[j],
                ) by {
                lemma_registry_after_prefix(Seq::empty(), Seq::empty(), deposits@, admitted, extended, j as nat, *context);
                if j < k {
                    assert(genesis_prefix(deposits@, admitted, j, *context).0 == genesis_prefix(deposits@, extended, j, *context).0);
                }
            }
            assert(genesis_deposit_ok(deposits@, extended, k as int, *context));
            assert forall|j: int| 0 <= j < k + 1 implies #[trigger] genesis_deposit_ok(deposits@, extended, j, *context) by {
                lemma_registry_after_prefix(Seq::empty(), Seq::empty(), deposits@, admitted, extended, j as nat, *context);
                if j < k {
                    assert(genesis_deposit_ok(deposits@, admitted, j, *context));
                }
            }
            admitted = extended;
        }
        k = k + 1;
    }
    let ghost deposited = state.validators@;
    let ghost pre = state;
    let mut i: usize = 0;
    while i < state.validators.len()
        invariant
            0 <= i <= state.validators@.len(),
            context.valid(),
            state.validators@.len() == deposited.len(),
            state.balances@.len() == deposited.len(),
            state.balances@ == pre.balances@,
            same_outside_registry(pre, state),
            state.eth1_deposit_index == pre.eth1_deposit_index,
            forall|j: int| i <= j < deposited.len() ==> #[trigger] state.validators@[j] == deposited[j],
            forall|j: int| 0 <= j < deposited.len() ==> unset_markers(#[trigger] deposited[j]),
            forall|j: int| 0 <= j < deposited.len() ==> crate::beacon_state::epochs_ordered(#[trigger] deposited[j]),
            forall|j: int| 0 <= j < i ==> genesis_finalized(#[trigger] state.validators@[j], state.balances@[j], *context),
            forall|j: int| 0 <= j < i ==> crate::beacon_state::epochs_ordered(#[trigger] state.validators@[j]),
            forall|j: int| 0 <= j < i ==> #[trigger] state.validators@[j] == genesis_validator(deposited[j], state.balances@[j], *context),
        decreases state.validators@.len() - i,
    {
        let balance = state.balances[i];
        let mut v = state.validators[i];
        v.effective_balance = quantize_effective_balance(
            balance,
            context.effective_balance_increment,
            context.max_effective_balance,
        );
        if v.effective_balance == context.max_effective_balance {
            v.activation_eligibility_epoch = GENESIS_EPOCH;
            v.activation_epoch = GENESIS_EPOCH;
        }
        state.validators.set(i, v);
        i = i + 1;
    }
    let root = match validators_hash_tree_root(&state.validators, context.validator_registry_limit as usize) {
        Ok(x) => x,
        Err(e) => {
            assert(false);
            return Err(e);
        },
    };
    state.genesis_validators_root = root;
    let ghost s1 = state;
    let current = select_sync_committee(&state);
    state.current_sync_committee = current;
    let ghost s2 = state;
    let next = select_sync_committee(&state);
    state.next_sync_committee = next;
    assert(committee_selected(select_sync_committee, s1, state.current_sync_committee@));
    assert(committee_selected(select_sync_committee, s2, state.next_sync_committee@));
    assert(agrees_but_committees(s1, state) && agrees_but_committees(s2, state));
    assert(s1.current_sync_committee@.len() == 0);
    assert(genesis_registry(state, deposits@, admitted, *context));
    assert(epoch_at_slot(GENESIS_SLOT, context.slots_per_epoch) == 0);
    Ok(state)
}

} // verus!
