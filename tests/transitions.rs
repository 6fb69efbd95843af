use ethereum_consensus::beacon_state::{get_current_epoch, BeaconState, Context};
use ethereum_consensus::attestation::is_valid_indexed_attestation;
use ethereum_consensus::block::{apply_block, block_hash_tree_root, verify_block_signature, MAX_DEPOSITS};
use sha2::Digest;
use ethereum_consensus::deposit::deposit_data_hash_tree_root;
use ethereum_consensus::error::{Error, InvalidOperation};
use ethereum_consensus::genesis::{initialize_beacon_state_from_eth1, validators_hash_tree_root};
use ethereum_consensus::primitives::{
    AttestationData, AttesterSlashing, BeaconBlock, BeaconBlockHeader, ProposerSlashing, SignedBeaconBlockHeader, SignedVoluntaryExit, VoluntaryExit, BeaconBlockBody, BlsPublicKey, BlsSignature, Checkpoint, Deposit,
    DepositData, DomainType, Eth1Data, IndexedAttestation, Root, SignedBeaconBlock,
    FAR_FUTURE_EPOCH,
};
use ethereum_consensus::randao::epoch_hash_tree_root;
use ethereum_consensus::signing::{compute_domain, compute_signing_root, get_domain, signing_root_from, HashTreeRoot};
use ethereum_consensus::slot::{advance_slot, state_hash_tree_root};
use ethereum_consensus::lifecycle::{initiate_validator_exit, slash_validator};
use ethereum_consensus::slashing::{process_attester_slashing, process_proposer_slashing};
use ethereum_consensus::exit::process_voluntary_exit;
use ethereum_consensus::registry::process_registry_updates;
use ethereum_consensus::upgrade::upgrade;
use ethereum_consensus::validator::is_eligible_for_activation;

const MAX_BALANCE: u64 = 32_000_000_000;

fn context() -> Context {
    Context {
        slots_per_epoch: 32,
        genesis_delay: 604_800,
        max_effective_balance: MAX_BALANCE,
        effective_balance_increment: 1_000_000_000,
        epochs_per_historical_vector: 8,
        genesis_fork_version: [0u8; 4],
        validator_registry_limit: 1 << 40,
        max_seed_lookahead: 4,
        min_validator_withdrawability_delay: 256,
        min_per_epoch_churn_limit: 4,
        churn_limit_quotient: 65_536,
        epochs_per_slashings_vector: 8192,
        shard_committee_period: 256,
    }
}

fn accept(_: BlsPublicKey, _: Root, _: BlsSignature) -> bool {
    true
}

fn reject(_: BlsPublicKey, _: Root, _: BlsSignature) -> bool {
    false
}

/// A stand-in committee selection: the registry's keys, and one more once the
/// current committee is filled.
fn committee_of(state: &BeaconState) -> Vec<BlsPublicKey> {
    let mut keys: Vec<BlsPublicKey> = state.validators.iter().map(|v| v.pubkey).collect();
    if !state.current_sync_committee.is_empty() {
        keys.push([0u8; 48]);
    }
    keys
}

fn agg_accept(_: Vec<BlsPublicKey>, _: Root, _: BlsSignature) -> bool {
    true
}

fn hash(data: &[u8]) -> [u8; 32] {
    sha2::Sha256::digest(data).into()
}

fn concat(a: &[u8; 32], b: &[u8; 32]) -> Vec<u8> {
    let mut v = a.to_vec();
    v.extend_from_slice(b);
    v
}

fn length_chunk(n: u64) -> [u8; 32] {
    let mut c = [0u8; 32];
    c[..8].copy_from_slice(&n.to_le_bytes());
    c
}

/// The proof of `leaves[index]` in the deposit tree holding exactly `leaves`.
fn deposit_proof(leaves: &[[u8; 32]], index: usize) -> Vec<[u8; 32]> {
    let mut zero = [0u8; 32];
    let mut layer: Vec<[u8; 32]> = leaves.to_vec();
    let mut idx = index;
    let mut proof = Vec::new();
    for _ in 0..32 {
        let sibling = idx ^ 1;
        proof.push(if sibling < layer.len() { layer[sibling] } else { zero });
        let mut next = Vec::new();
        for pair in layer.chunks(2) {
            let right = if pair.len() == 2 { pair[1] } else { zero };
            next.push(hash(&concat(&pair[0], &right)));
        }
        layer = next;
        zero = hash(&concat(&zero, &zero));
        idx /= 2;
    }
    proof.push(length_chunk(leaves.len() as u64));
    proof
}

fn deposit_data(key: u8, amount: u64) -> DepositData {
    DepositData {
        pubkey: [key; 48],
        withdrawal_credentials: [key; 32],
        amount,
        signature: [0u8; 96],
    }
}

fn deposits_for(datas: &[DepositData]) -> Vec<Deposit> {
    let leaves: Vec<[u8; 32]> = datas.iter().map(deposit_data_hash_tree_root).collect();
    (0..datas.len())
        .map(|i| Deposit { proof: deposit_proof(&leaves[..=i], i), data: datas[i] })
        .collect()
}

fn genesis_of(datas: &[DepositData]) -> BeaconState {
    let deposits = deposits_for(datas);
    initialize_beacon_state_from_eth1([5u8; 32], 1_600_000_000, &deposits, &context(), accept, committee_of)
        .expect("genesis succeeds")
}

fn empty_body() -> BeaconBlockBody {
    BeaconBlockBody {
        randao_reveal: [0u8; 96],
        eth1_data: Eth1Data { deposit_root: [0u8; 32], deposit_count: 0, block_hash: [0u8; 32] },
        graffiti: [0u8; 32],
        proposer_slashings: Vec::new(),
        attester_slashings: Vec::new(),
        deposits: Vec::new(),
        voluntary_exits: Vec::new(),
    }
}

fn block_on(state: &BeaconState, proposer_index: usize) -> SignedBeaconBlock {
    SignedBeaconBlock {
        message: BeaconBlock {
            slot: state.slot,
            proposer_index,
            parent_root: state.latest_block_header.hash_tree_root(),
            state_root: [0u8; 32],
            body: empty_body(),
        },
        signature: [0u8; 96],
    }
}

fn attestation(indices: Vec<usize>) -> IndexedAttestation {
    IndexedAttestation {
        attesting_indices: indices,
        data: AttestationData {
            slot: 0,
            index: 0,
            beacon_block_root: [0u8; 32],
            source: Checkpoint { epoch: 0, root: [0u8; 32] },
            target: Checkpoint { epoch: 0, root: [0u8; 32] },
        },
        signature: [0u8; 96],
    }
}

#[test]
fn genesis_with_three_full_deposits() {
    let datas = [deposit_data(1, MAX_BALANCE), deposit_data(2, MAX_BALANCE), deposit_data(3, MAX_BALANCE)];
    let state = genesis_of(&datas);
    assert_eq!(state.validators.len(), 3);
    assert_eq!(state.balances.len(), 3);
    for v in &state.validators {
        assert_eq!(v.activation_epoch, 0);
        assert_eq!(v.activation_eligibility_epoch, 0);
        assert_eq!(v.exit_epoch, FAR_FUTURE_EPOCH);
        assert_eq!(v.effective_balance, MAX_BALANCE);
    }
    let root = validators_hash_tree_root(&state.validators, 1 << 40).unwrap();
    assert_eq!(state.genesis_validators_root, root);
    assert_eq!(state.genesis_time, 1_600_000_000 + 604_800);
    assert_eq!(state.eth1_deposit_index, 3);
    assert_eq!(state.eth1_data.deposit_count, 3);
    assert_eq!(state.randao_mixes, vec![[5u8; 32]; 8]);
}

#[test]
fn genesis_epoch_markers_stay_ordered() {
    let datas = [deposit_data(1, MAX_BALANCE), deposit_data(2, 17_300_000_000)];
    let state = genesis_of(&datas);
    for v in &state.validators {
        assert!(v.activation_eligibility_epoch <= v.activation_epoch);
        assert!(v.activation_epoch <= v.exit_epoch);
        assert!(v.exit_epoch <= v.withdrawable_epoch);
    }
    assert_eq!(state.validators[1].effective_balance, 17_000_000_000);
    assert_eq!(state.validators[1].activation_epoch, FAR_FUTURE_EPOCH);
    assert_eq!(state.balances[1], 17_300_000_000);
}

#[test]
fn genesis_tops_up_a_known_key() {
    let datas = [deposit_data(1, 16_000_000_000), deposit_data(1, 16_000_000_000)];
    let state = genesis_of(&datas);
    assert_eq!(state.validators.len(), 1);
    assert_eq!(state.balances[0], 32_000_000_000);
    assert_eq!(state.validators[0].effective_balance, MAX_BALANCE);
    assert_eq!(state.validators[0].activation_epoch, 0);
}

#[test]
fn genesis_skips_a_deposit_with_a_bad_signature() {
    let datas = [deposit_data(1, MAX_BALANCE)];
    let deposits = deposits_for(&datas);
    let state = initialize_beacon_state_from_eth1([5u8; 32], 0, &deposits, &context(), reject, committee_of).unwrap();
    assert_eq!(state.validators.len(), 0);
    assert_eq!(state.eth1_deposit_index, 1);
}

#[test]
fn genesis_rejects_a_bad_deposit_proof() {
    let datas = [deposit_data(1, MAX_BALANCE)];
    let mut deposits = deposits_for(&datas);
    deposits[0].proof[3][0] ^= 1;
    let r = initialize_beacon_state_from_eth1([5u8; 32], 0, &deposits, &context(), accept, committee_of);
    assert!(matches!(r, Err(Error::InvalidOperation(InvalidOperation::InvalidDepositProof))));
}

#[test]
fn domains_separate_versions_and_types() {
    let g = [3u8; 32];
    let d1 = compute_domain(DomainType::BeaconProposer, &[0, 0, 0, 1], &g);
    let d2 = compute_domain(DomainType::BeaconProposer, &[0, 0, 0, 2], &g);
    assert_ne!(d1, d2);
    let d3 = compute_domain(DomainType::BeaconAttester, &[0, 0, 0, 1], &g);
    assert_ne!(d1, d3);
    assert_eq!(&d3[..4], &[1, 0, 0, 0]);
}

#[test]
fn signature_under_one_version_fails_under_another() {
    let g = [3u8; 32];
    let object = Checkpoint { epoch: 4, root: [8u8; 32] };
    let signed = compute_signing_root(&object, compute_domain(DomainType::BeaconAttester, &[0, 0, 0, 1], &g));
    let other = compute_signing_root(&object, compute_domain(DomainType::BeaconAttester, &[0, 0, 0, 2], &g));
    let verify = |message: Root| message == signed;
    assert!(verify(signed));
    assert!(!verify(other));
}

#[test]
fn get_domain_uses_the_version_of_the_epoch() {
    let mut state = genesis_of(&[deposit_data(1, MAX_BALANCE)]);
    state.fork.previous_version = [0, 0, 0, 1];
    state.fork.current_version = [0, 0, 0, 2];
    state.fork.epoch = 10;
    state.slot = 32 * 12;
    let ctx = context();
    assert_eq!(get_current_epoch(&state, &ctx), 12);
    let g = state.genesis_validators_root;
    assert_eq!(
        get_domain(&state, DomainType::Randao, Some(9), &ctx),
        compute_domain(DomainType::Randao, &[0, 0, 0, 1], &g)
    );
    assert_eq!(
        get_domain(&state, DomainType::Randao, None, &ctx),
        compute_domain(DomainType::Randao, &[0, 0, 0, 2], &g)
    );
}

#[test]
fn indexed_attestation_with_duplicate_indices_is_rejected() {
    let datas: Vec<DepositData> = (1..=6).map(|k| deposit_data(k, MAX_BALANCE)).collect();
    let state = genesis_of(&datas);
    let r = is_valid_indexed_attestation(&state, &attestation(vec![3, 3, 5]), |_, _, _| true);
    assert!(matches!(r, Err(Error::InvalidOperation(InvalidOperation::DuplicateAttestingIndices))));
}

#[test]
fn indexed_attestation_errors_and_success() {
    let datas: Vec<DepositData> = (1..=6).map(|k| deposit_data(k, MAX_BALANCE)).collect();
    let state = genesis_of(&datas);
    let r = is_valid_indexed_attestation(&state, &attestation(vec![]), |_, _, _| true);
    assert!(matches!(r, Err(Error::InvalidOperation(InvalidOperation::EmptyAttestingIndices))));
    let r = is_valid_indexed_attestation(&state, &attestation(vec![1, 9]), |_, _, _| true);
    assert!(matches!(r, Err(Error::InvalidOperation(InvalidOperation::UnknownValidatorIndex))));
    let r = is_valid_indexed_attestation(&state, &attestation(vec![3, 5]), |_, _, _| false);
    assert!(matches!(r, Err(Error::InvalidSignature)));
    let expected_keys = vec![[4u8; 48], [2u8; 48]];
    let r = is_valid_indexed_attestation(&state, &attestation(vec![3, 1]), move |keys: Vec<BlsPublicKey>, _, _| {
        keys == expected_keys
    });
    assert!(r.is_ok());
}

#[test]
fn apply_block_is_deterministic() {
    let state = genesis_of(&[deposit_data(1, MAX_BALANCE), deposit_data(2, MAX_BALANCE)]);
    let block = block_on(&state, 1);
    let a = apply_block(state.clone(), &block, &context(), accept, agg_accept).unwrap();
    let b = apply_block(state.clone(), &block, &context(), accept, agg_accept).unwrap();
    assert_eq!(format!("{a:?}"), format!("{b:?}"));
    assert_eq!(a.latest_block_header.proposer_index, 1);
    assert_eq!(a.latest_block_header.parent_root, block.message.parent_root);
    assert_eq!(a.latest_block_header.state_root, [0u8; 32]);
}

#[test]
fn apply_block_rejects_each_header_fault() {
    let state = genesis_of(&[deposit_data(1, MAX_BALANCE)]);
    let ctx = context();

    let mut wrong_slot = block_on(&state, 0);
    wrong_slot.message.slot = 1;
    let r = apply_block(state.clone(), &wrong_slot, &ctx, accept, agg_accept);
    assert!(matches!(r, Err(Error::InvalidOperation(InvalidOperation::SlotMismatch))));

    let r = apply_block(state.clone(), &block_on(&state, 4), &ctx, accept, agg_accept);
    assert!(matches!(r, Err(Error::InvalidOperation(InvalidOperation::UnknownValidatorIndex))));

    let mut wrong_parent = block_on(&state, 0);
    wrong_parent.message.parent_root = [1u8; 32];
    let r = apply_block(state.clone(), &wrong_parent, &ctx, accept, agg_accept);
    assert!(matches!(r, Err(Error::InvalidOperation(InvalidOperation::ParentRootMismatch))));

    let mut slashed = state.clone();
    slashed.validators[0].slashed = true;
    let r = apply_block(slashed.clone(), &block_on(&slashed, 0), &ctx, accept, agg_accept);
    assert!(matches!(r, Err(Error::InvalidOperation(InvalidOperation::ProposerSlashed))));

    let r = apply_block(state.clone(), &block_on(&state, 0), &ctx, reject, agg_accept);
    assert!(matches!(r, Err(Error::BlockSignatureError)));
}

#[test]
fn apply_block_rejects_malformed_deposits() {
    let state = genesis_of(&[deposit_data(1, MAX_BALANCE)]);
    let ctx = context();
    let deposit = Deposit { proof: vec![[0u8; 32]; 33], data: deposit_data(9, MAX_BALANCE) };

    let mut too_many = block_on(&state, 0);
    too_many.message.body.deposits = vec![deposit.clone(); MAX_DEPOSITS + 1];
    let r = apply_block(state.clone(), &too_many, &ctx, accept, agg_accept);
    assert!(matches!(r, Err(Error::InvalidOperation(InvalidOperation::TooManyDeposits))));

    let mut short_proof = block_on(&state, 0);
    short_proof.message.body.deposits = vec![Deposit { proof: vec![[0u8; 32]; 3], data: deposit.data }];
    let r = apply_block(state.clone(), &short_proof, &ctx, accept, agg_accept);
    assert!(matches!(r, Err(Error::InvalidOperation(InvalidOperation::MalformedDepositProof))));

    let mut unproven = block_on(&state, 0);
    unproven.message.body.deposits = vec![deposit];
    let r = apply_block(state.clone(), &unproven, &ctx, accept, agg_accept);
    assert!(matches!(r, Err(Error::InvalidOperation(InvalidOperation::InvalidDepositProof))));
}

#[test]
fn block_signature_binds_the_block() {
    let state = genesis_of(&[deposit_data(1, MAX_BALANCE)]);
    let ctx = context();
    let block = block_on(&state, 0);
    let root = block_hash_tree_root(&block.message).unwrap();
    let domain = get_domain(&state, DomainType::BeaconProposer, None, &ctx);
    let expected = signing_root_from(&root, &domain);
    assert!(verify_block_signature(&state, &block, &ctx, move |pk: BlsPublicKey, m: Root, _| {
        pk == [1u8; 48] && m == expected
    }));
    let mut other = block.clone();
    other.message.state_root = [2u8; 32];
    assert!(!verify_block_signature(&state, &other, &ctx, move |_, m: Root, _| m == expected));
}

#[test]
fn apply_block_mixes_the_reveal_into_the_current_epoch() {
    let mut state = genesis_of(&[deposit_data(1, MAX_BALANCE)]);
    state.slot = 32 * 3 + 5;
    state.latest_block_header.slot = 0;
    let mut block = block_on(&state, 0);
    block.message.body.randao_reveal = [6u8; 96];
    let before = state.randao_mixes.clone();
    let n = apply_block(state, &block, &context(), accept, agg_accept).unwrap();
    let reveal_hash = hash(&[6u8; 96]);
    let mut expected = before.clone();
    for i in 0..32 {
        expected[3][i] = before[3][i] ^ reveal_hash[i];
    }
    assert_eq!(n.randao_mixes, expected);
}

#[test]
fn apply_block_rejects_a_bad_reveal() {
    let state = genesis_of(&[deposit_data(1, MAX_BALANCE)]);
    let ctx = context();
    let block = block_on(&state, 0);
    let root = block_hash_tree_root(&block.message).unwrap();
    let block_message = signing_root_from(&root, &get_domain(&state, DomainType::BeaconProposer, None, &ctx));
    let r = apply_block(state.clone(), &block, &ctx, move |_, m: Root, _| m == block_message, agg_accept);
    assert!(matches!(r, Err(Error::InvalidSignature)));
    let reveal_message = signing_root_from(
        &epoch_hash_tree_root(0),
        &get_domain(&state, DomainType::Randao, None, &ctx),
    );
    let r = apply_block(state.clone(), &block, &ctx, move |_, m: Root, _| m == block_message || m == reveal_message, agg_accept);
    assert!(r.is_ok());
}

#[test]
fn upgrade_moves_the_fork_marker() {
    let mut state = genesis_of(&[deposit_data(1, MAX_BALANCE)]);
    state.fork.current_version = [1, 0, 0, 0];
    state.slot = 32 * 7;
    let validators = state.validators.clone();
    let n = upgrade(state, [2, 0, 0, 0], &context());
    assert_eq!(n.fork.previous_version, [1, 0, 0, 0]);
    assert_eq!(n.fork.current_version, [2, 0, 0, 0]);
    assert_eq!(n.fork.epoch, 7);
    assert_eq!(n.validators.len(), validators.len());
    assert_eq!(n.slot, 32 * 7);
}

#[test]
fn advance_slot_chains_the_state_root() {
    let state = genesis_of(&[deposit_data(1, MAX_BALANCE)]);
    let ctx = context();
    let expected = state_hash_tree_root(&state, &ctx).unwrap();
    assert_eq!(state.latest_block_header.state_root, [0u8; 32]);
    let n = advance_slot(state, &ctx).unwrap();
    assert_eq!(n.slot, 1);
    assert_eq!(n.latest_block_header.state_root, expected);
    let kept = n.latest_block_header.state_root;
    let m = advance_slot(n, &ctx).unwrap();
    assert_eq!(m.slot, 2);
    assert_eq!(m.latest_block_header.state_root, kept);
}

#[test]
fn advance_slot_runs_epoch_updates_at_the_boundary() {
    let mut state = genesis_of(&[deposit_data(1, MAX_BALANCE), deposit_data(2, MAX_BALANCE)]);
    let ctx = context();
    state.slot = 31;
    state.balances[0] = 20_600_000_000;
    state.randao_mixes[0] = [9u8; 32];
    let n = advance_slot(state, &ctx).unwrap();
    assert_eq!(n.slot, 32);
    assert_eq!(n.validators[0].effective_balance, 20_000_000_000);
    assert_eq!(n.validators[1].effective_balance, MAX_BALANCE);
    assert_eq!(n.randao_mixes[1], [9u8; 32]);

    let mut mid = genesis_of(&[deposit_data(1, MAX_BALANCE)]);
    mid.slot = 5;
    mid.balances[0] = 1;
    let n = advance_slot(mid, &ctx).unwrap();
    assert_eq!(n.validators[0].effective_balance, MAX_BALANCE);
}

#[test]
fn advance_slot_refuses_the_last_slot() {
    let mut state = genesis_of(&[deposit_data(1, MAX_BALANCE)]);
    state.slot = u64::MAX;
    let r = advance_slot(state, &context());
    assert!(matches!(r, Err(Error::InvalidOperation(InvalidOperation::Overflow))));
}

#[test]
fn state_root_refuses_an_overfull_registry() {
    let state = genesis_of(&[deposit_data(1, MAX_BALANCE), deposit_data(2, MAX_BALANCE)]);
    let mut ctx = context();
    ctx.validator_registry_limit = 1;
    assert!(matches!(state_hash_tree_root(&state, &ctx), Err(Error::MerkleizationError(_))));
    assert!(matches!(advance_slot(state, &ctx), Err(Error::MerkleizationError(_))));
}

fn active_state(n: u8, epoch: u64) -> BeaconState {
    let datas: Vec<DepositData> = (1..=n).map(|k| deposit_data(k, MAX_BALANCE)).collect();
    let mut state = genesis_of(&datas);
    state.slot = 32 * epoch;
    state
}

#[test]
fn exit_queue_respects_the_churn_limit() {
    let mut state = active_state(5, 10);
    let ctx = context();
    for i in 0..4 {
        initiate_validator_exit(&mut state, i, &ctx).unwrap();
        assert_eq!(state.validators[i].exit_epoch, 15);
        assert_eq!(state.validators[i].withdrawable_epoch, 15 + 256);
    }
    initiate_validator_exit(&mut state, 4, &ctx).unwrap();
    assert_eq!(state.validators[4].exit_epoch, 16);
    assert_eq!(state.validators[4].withdrawable_epoch, 16 + 256);
}

#[test]
fn exit_of_an_exiting_validator_changes_nothing() {
    let mut state = active_state(2, 10);
    let ctx = context();
    initiate_validator_exit(&mut state, 0, &ctx).unwrap();
    state.slot = 32 * 20;
    initiate_validator_exit(&mut state, 0, &ctx).unwrap();
    assert_eq!(state.validators[0].exit_epoch, 15);
}

#[test]
fn slashing_holds_back_withdrawal() {
    let mut state = active_state(2, 10);
    slash_validator(&mut state, 1, &context()).unwrap();
    let v = state.validators[1];
    assert!(v.slashed);
    assert_eq!(v.exit_epoch, 15);
    assert_eq!(v.withdrawable_epoch, 15 + 8192);
    assert!(!state.validators[0].slashed);
}

fn slashing_pair(first: Vec<usize>, second: Vec<usize>) -> AttesterSlashing {
    let mut a1 = attestation(first);
    let mut a2 = attestation(second);
    a1.data.target.epoch = 3;
    a2.data.target.epoch = 3;
    a2.data.beacon_block_root = [1u8; 32];
    AttesterSlashing { attestation_1: a1, attestation_2: a2 }
}

#[test]
fn attester_slashing_slashes_common_attesters() {
    let state = active_state(6, 10);
    let n = process_attester_slashing(state, &slashing_pair(vec![1, 2, 3], vec![4, 3, 2]), &context(), |_, _, _| true)
        .unwrap();
    let slashed: Vec<bool> = n.validators.iter().map(|v| v.slashed).collect();
    assert_eq!(slashed, vec![false, false, true, true, false, false]);
    assert_eq!(n.validators[2].exit_epoch, 15);
}

#[test]
fn attester_slashing_errors() {
    let ctx = context();
    let same = slashing_pair(vec![1], vec![1]);
    let mut not_slashable = same.clone();
    not_slashable.attestation_2.data = not_slashable.attestation_1.data;
    let r = process_attester_slashing(active_state(3, 10), &not_slashable, &ctx, |_, _, _| true);
    assert!(matches!(r, Err(Error::InvalidOperation(InvalidOperation::NotSlashable))));

    let r = process_attester_slashing(active_state(3, 10), &slashing_pair(vec![1, 1], vec![1]), &ctx, |_, _, _| true);
    assert!(matches!(r, Err(Error::InvalidOperation(InvalidOperation::DuplicateAttestingIndices))));

    let r = process_attester_slashing(active_state(3, 10), &same, &ctx, |_, _, _| false);
    assert!(matches!(r, Err(Error::InvalidSignature)));

    let r = process_attester_slashing(active_state(3, 10), &slashing_pair(vec![0], vec![1]), &ctx, |_, _, _| true);
    assert!(matches!(r, Err(Error::InvalidOperation(InvalidOperation::NoSlashableAttester))));

    let mut already = active_state(3, 10);
    already.validators[1].slashed = true;
    let r = process_attester_slashing(already, &same, &ctx, |_, _, _| true);
    assert!(matches!(r, Err(Error::InvalidOperation(InvalidOperation::NoSlashableAttester))));
}

#[test]
fn apply_block_processes_attester_slashings() {
    let state = active_state(4, 0);
    let mut block = block_on(&state, 0);
    block.message.body.attester_slashings = vec![slashing_pair(vec![2, 3], vec![3])];
    let n = apply_block(state.clone(), &block, &context(), accept, agg_accept).unwrap();
    let slashed: Vec<bool> = n.validators.iter().map(|v| v.slashed).collect();
    assert_eq!(slashed, vec![false, false, false, true]);

    let mut bad = block_on(&state, 0);
    bad.message.body.attester_slashings = vec![slashing_pair(vec![2], vec![3])];
    let r = apply_block(state.clone(), &bad, &context(), accept, agg_accept);
    assert!(matches!(r, Err(Error::InvalidOperation(InvalidOperation::NoSlashableAttester))));

    let mut too_many = block_on(&state, 0);
    too_many.message.body.attester_slashings = vec![slashing_pair(vec![3], vec![3]); 3];
    let r = apply_block(state, &too_many, &context(), accept, agg_accept);
    assert!(matches!(r, Err(Error::InvalidOperation(InvalidOperation::TooManyAttesterSlashings))));
}

fn exit_of(validator_index: usize, epoch: u64) -> SignedVoluntaryExit {
    SignedVoluntaryExit { message: VoluntaryExit { epoch, validator_index }, signature: [0u8; 96] }
}

#[test]
fn voluntary_exit_joins_the_queue() {
    let mut state = active_state(3, 300);
    process_voluntary_exit(&mut state, &exit_of(1, 299), &context(), accept).unwrap();
    assert_eq!(state.validators[1].exit_epoch, 305);
    assert_eq!(state.validators[1].withdrawable_epoch, 305 + 256);
    assert_eq!(state.validators[0].exit_epoch, FAR_FUTURE_EPOCH);
}

#[test]
fn voluntary_exit_refusals() {
    let ctx = context();
    let mut early = active_state(3, 100);
    let r = process_voluntary_exit(&mut early, &exit_of(1, 50), &ctx, accept);
    assert!(matches!(r, Err(Error::InvalidOperation(InvalidOperation::ExitNotAllowed))));
    let mut state = active_state(3, 300);
    let r = process_voluntary_exit(&mut state, &exit_of(1, 301), &ctx, accept);
    assert!(matches!(r, Err(Error::InvalidOperation(InvalidOperation::ExitNotAllowed))));
    let r = process_voluntary_exit(&mut state, &exit_of(7, 299), &ctx, accept);
    assert!(matches!(r, Err(Error::InvalidOperation(InvalidOperation::ExitNotAllowed))));
    let r = process_voluntary_exit(&mut state, &exit_of(1, 299), &ctx, reject);
    assert!(matches!(r, Err(Error::InvalidSignature)));
    assert_eq!(state.validators[1].exit_epoch, FAR_FUTURE_EPOCH);
    process_voluntary_exit(&mut state, &exit_of(1, 299), &ctx, accept).unwrap();
    let r = process_voluntary_exit(&mut state, &exit_of(1, 299), &ctx, accept);
    assert!(matches!(r, Err(Error::InvalidOperation(InvalidOperation::ExitNotAllowed))));
}

#[test]
fn apply_block_processes_voluntary_exits() {
    let state = active_state(3, 300);
    let mut block = block_on(&state, 0);
    block.message.body.voluntary_exits = vec![exit_of(2, 300)];
    let n = apply_block(state.clone(), &block, &context(), accept, agg_accept).unwrap();
    assert_eq!(n.validators[2].exit_epoch, 305);

    let mut too_many = block_on(&state, 0);
    too_many.message.body.voluntary_exits = vec![exit_of(2, 300); 17];
    let r = apply_block(state, &too_many, &context(), accept, agg_accept);
    assert!(matches!(r, Err(Error::InvalidOperation(InvalidOperation::TooManyVoluntaryExits))));
}

fn conflicting_headers(proposer_index: usize) -> ProposerSlashing {
    let header = BeaconBlockHeader {
        slot: 3,
        proposer_index,
        parent_root: [0u8; 32],
        state_root: [0u8; 32],
        body_root: [1u8; 32],
    };
    let mut other = header;
    other.body_root = [2u8; 32];
    ProposerSlashing {
        signed_header_1: SignedBeaconBlockHeader { message: header, signature: [0u8; 96] },
        signed_header_2: SignedBeaconBlockHeader { message: other, signature: [0u8; 96] },
    }
}

#[test]
fn proposer_slashing_slashes_the_proposer() {
    let mut state = active_state(3, 10);
    process_proposer_slashing(&mut state, &conflicting_headers(2), &context(), accept).unwrap();
    assert!(state.validators[2].slashed);
    assert_eq!(state.validators[2].exit_epoch, 15);
    assert!(!state.validators[1].slashed);
}

#[test]
fn proposer_slashing_refusals() {
    let ctx = context();
    let mut state = active_state(3, 10);
    let mut same = conflicting_headers(1);
    same.signed_header_2.message = same.signed_header_1.message;
    let r = process_proposer_slashing(&mut state, &same, &ctx, accept);
    assert!(matches!(r, Err(Error::InvalidOperation(InvalidOperation::ProposerNotSlashable))));
    let mut other_slot = conflicting_headers(1);
    other_slot.signed_header_2.message.slot = 4;
    let r = process_proposer_slashing(&mut state, &other_slot, &ctx, accept);
    assert!(matches!(r, Err(Error::InvalidOperation(InvalidOperation::ProposerNotSlashable))));
    let r = process_proposer_slashing(&mut state, &conflicting_headers(1), &ctx, reject);
    assert!(matches!(r, Err(Error::InvalidSignature)));
    assert!(!state.validators[1].slashed);
    state.validators[1].slashed = true;
    let r = process_proposer_slashing(&mut state, &conflicting_headers(1), &ctx, accept);
    assert!(matches!(r, Err(Error::InvalidOperation(InvalidOperation::ProposerNotSlashable))));
}

#[test]
fn apply_block_processes_proposer_slashings() {
    let state = active_state(3, 10);
    let mut block = block_on(&state, 0);
    block.message.body.proposer_slashings = vec![conflicting_headers(1)];
    let n = apply_block(state.clone(), &block, &context(), accept, agg_accept).unwrap();
    assert!(n.validators[1].slashed);

    let mut too_many = block_on(&state, 0);
    too_many.message.body.proposer_slashings = vec![conflicting_headers(1); 17];
    let r = apply_block(state, &too_many, &context(), accept, agg_accept);
    assert!(matches!(r, Err(Error::InvalidOperation(InvalidOperation::TooManyProposerSlashings))));
}

#[test]
fn eligibility_for_activation_follows_finality() {
    let mut state = genesis_of(&[deposit_data(1, MAX_BALANCE)]);
    state.finalized_checkpoint.epoch = 5;
    let mut v = state.validators[0];
    v.activation_eligibility_epoch = 5;
    v.activation_epoch = FAR_FUTURE_EPOCH;
    assert!(is_eligible_for_activation(state.clone(), v));
    v.activation_eligibility_epoch = 6;
    assert!(!is_eligible_for_activation(state.clone(), v));
    v.activation_eligibility_epoch = 2;
    v.activation_epoch = 7;
    assert!(!is_eligible_for_activation(state, v));
}

#[test]
fn registry_updates_activate_the_head_of_the_queue() {
    let mut state = active_state(6, 5);
    state.finalized_checkpoint.epoch = 3;
    for (i, eligibility) in [(2usize, FAR_FUTURE_EPOCH), (3, 2), (4, 1), (5, 2)] {
        state.validators[i].activation_eligibility_epoch = eligibility;
        state.validators[i].activation_epoch = FAR_FUTURE_EPOCH;
    }
    let mut ctx = context();
    ctx.min_per_epoch_churn_limit = 2;
    let n = process_registry_updates(state, &ctx).unwrap();
    assert_eq!(n.validators[2].activation_eligibility_epoch, 6);
    assert_eq!(n.validators[2].activation_epoch, FAR_FUTURE_EPOCH);
    assert_eq!(n.validators[4].activation_epoch, 10);
    assert_eq!(n.validators[3].activation_epoch, 10);
    assert_eq!(n.validators[5].activation_epoch, FAR_FUTURE_EPOCH);
    assert_eq!(n.validators[0].activation_epoch, 0);
}

#[test]
fn errors_describe_themselves() {
    assert_eq!(Error::BlockSignatureError.message(), "Block Signature Error");
    assert_eq!(Error::InvalidSignature.message(), "invalid signature");
    assert_eq!(Error::InvalidOperation(InvalidOperation::SlotMismatch).message(), "invalid operation");
}

#[test]
fn genesis_fills_both_sync_committees() {
    let state = genesis_of(&[deposit_data(1, MAX_BALANCE), deposit_data(2, MAX_BALANCE)]);
    assert_eq!(state.current_sync_committee, vec![[1u8; 48], [2u8; 48]]);
    assert_eq!(state.next_sync_committee, vec![[1u8; 48], [2u8; 48], [0u8; 48]]);
}
