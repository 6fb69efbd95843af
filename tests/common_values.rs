use ethereum_consensus::ssz::{fixed_bytes_root, list_root_of};
use sha2::Digest;
use ethereum_consensus::fork_schema::Fork;
use ethereum_consensus::merkle::is_valid_merkle_branch;
use ethereum_consensus::primitives::{AttestationData, Checkpoint, Validator, FAR_FUTURE_EPOCH};
use ethereum_consensus::validator::{
    is_active_validator, is_eligible_for_activation_queue, is_slashable_attestation_data,
    is_slashable_validator, quantize_effective_balance,
};

fn hash(data: &[u8]) -> [u8; 32] {
    sha2::Sha256::digest(data).into()
}

fn concat(a: &[u8; 32], b: &[u8; 32]) -> Vec<u8> {
    let mut v = a.to_vec();
    v.extend_from_slice(b);
    v
}

fn fold_root(leaf: [u8; 32], branch: &[[u8; 32]], depth: usize, index: u64) -> [u8; 32] {
    let mut value = leaf;
    for i in 0..depth {
        if (index >> i) & 1 == 1 {
            value = hash(&concat(&branch[i], &value));
        } else {
            value = hash(&concat(&value, &branch[i]));
        }
    }
    value
}

fn validator(activation: u64, exit: u64, withdrawable: u64, slashed: bool) -> Validator {
    Validator {
        pubkey: [7u8; 48],
        withdrawal_credentials: [0u8; 32],
        effective_balance: 32_000_000_000,
        slashed,
        activation_eligibility_epoch: 0,
        activation_epoch: activation,
        exit_epoch: exit,
        withdrawable_epoch: withdrawable,
    }
}

fn data(source: u64, target: u64, root_byte: u8) -> AttestationData {
    AttestationData {
        slot: 1,
        index: 0,
        beacon_block_root: [root_byte; 32],
        source: Checkpoint { epoch: source, root: [0u8; 32] },
        target: Checkpoint { epoch: target, root: [1u8; 32] },
    }
}

#[test]
fn root_of_one_chunk_is_the_chunk() {
    let chunk = [9u8; 32];
    assert_eq!(fixed_bytes_root(&chunk), chunk);
}

#[test]
fn root_of_two_chunks_hashes_their_concatenation() {
    let key = [7u8; 48];
    let mut second = [0u8; 32];
    second[..16].copy_from_slice(&[7u8; 16]);
    assert_eq!(fixed_bytes_root(&key), hash(&concat(&[7u8; 32], &second)));
}

#[test]
fn list_root_over_limit_is_refused() {
    let chunks = concat(&[1u8; 32], &[2u8; 32]);
    assert!(list_root_of(&chunks, 1).is_err());
    let mut length = [0u8; 32];
    length[0] = 2;
    let expected = hash(&concat(&hash(&chunks), &length));
    assert_eq!(list_root_of(&chunks, 2).unwrap(), expected);
}

#[test]
fn merkle_branch_round_trip_and_bit_flips() {
    let leaf = [0x42u8; 32];
    let branch: Vec<[u8; 32]> = (0..4u8).map(|i| [i + 1; 32]).collect();
    let index = 5u64;
    let root = fold_root(leaf, &branch, 4, index);
    assert!(is_valid_merkle_branch(leaf, &branch, 4, index, root));

    let mut bad_leaf = leaf;
    bad_leaf[0] ^= 1;
    assert!(!is_valid_merkle_branch(bad_leaf, &branch, 4, index, root));

    for i in 0..4 {
        let mut bad_branch = branch.clone();
        bad_branch[i][31] ^= 0x80;
        assert!(!is_valid_merkle_branch(leaf, &bad_branch, 4, index, root));
        assert!(!is_valid_merkle_branch(leaf, &branch, 4, index ^ (1 << i), root));
    }
}

#[test]
fn merkle_branch_shorter_than_depth_is_invalid() {
    let leaf = [1u8; 32];
    let branch = vec![[2u8; 32]; 2];
    let root = fold_root(leaf, &branch, 2, 0);
    assert!(is_valid_merkle_branch(leaf, &branch, 2, 0, root));
    assert!(!is_valid_merkle_branch(leaf, &branch, 3, 0, root));
}

#[test]
fn merkle_branch_of_depth_zero_compares_leaf_and_root() {
    let leaf = [3u8; 32];
    assert!(is_valid_merkle_branch(leaf, &[], 0, 0, leaf));
    assert!(!is_valid_merkle_branch(leaf, &[], 0, 0, [4u8; 32]));
}

#[test]
fn slashable_attestation_data_cases() {
    let d = data(2, 5, 0);
    assert!(!is_slashable_attestation_data(d, d));
    let other_same_target = data(3, 5, 9);
    assert!(is_slashable_attestation_data(d, other_same_target));
    let surrounding = data(1, 8, 0);
    let surrounded = data(2, 6, 0);
    assert!(is_slashable_attestation_data(surrounding, surrounded));
    assert!(!is_slashable_attestation_data(surrounded, surrounding));
    let later = data(5, 9, 0);
    assert!(!is_slashable_attestation_data(d, later));
}

#[test]
fn quantize_rounds_down_and_caps() {
    assert_eq!(quantize_effective_balance(31_700_000_000, 1_000_000_000, 32_000_000_000), 31_000_000_000);
    assert_eq!(quantize_effective_balance(40_000_000_000, 1_000_000_000, 32_000_000_000), 32_000_000_000);
    assert_eq!(quantize_effective_balance(999, 1_000, 32_000), 0);
}

#[test]
fn quantize_is_idempotent() {
    for b in [0u64, 1, 999_999_999, 1_000_000_001, 17_500_000_000, 32_000_000_000, u64::MAX] {
        let once = quantize_effective_balance(b, 1_000_000_000, 32_000_000_000);
        assert_eq!(quantize_effective_balance(once, 1_000_000_000, 32_000_000_000), once);
    }
}

#[test]
fn lifecycle_predicates() {
    let v = validator(3, 10, 20, false);
    assert!(!is_active_validator(v, 2));
    assert!(is_active_validator(v, 3));
    assert!(is_active_validator(v, 9));
    assert!(!is_active_validator(v, 10));
    assert!(is_slashable_validator(v, 9));
    assert!(!is_slashable_validator(v, 15));
    assert!(!is_slashable_validator(v, 20));
    assert!(!is_slashable_validator(validator(3, 10, 20, true), 5));
    let mut fresh = validator(FAR_FUTURE_EPOCH, FAR_FUTURE_EPOCH, FAR_FUTURE_EPOCH, false);
    fresh.activation_eligibility_epoch = FAR_FUTURE_EPOCH;
    assert!(is_eligible_for_activation_queue(fresh, 32_000_000_000));
    assert!(!is_eligible_for_activation_queue(fresh, 31_000_000_000));
}

#[test]
fn fork_names_and_tables() {
    assert_eq!(Fork::Phase0.name(), "phase0");
    assert_eq!(Fork::Capella.name(), "capella");
    assert_eq!(Fork::Phase0.modules_in_diff().len(), 12);
    assert_eq!(Fork::Capella.modules_in_diff().len(), 8);
    assert!(Fork::Bellatrix.modules_in_diff().contains(&"execution"));
    assert!(Fork::Altair.should_filter_fn_by_name("get_head_deltas"));
    assert!(!Fork::Altair.should_filter_fn_by_name("get_head"));
    assert!(Fork::Bellatrix.should_filter_fn_by_name("upgrade_to_altair"));
    assert!(Fork::Capella.should_filter_fn_by_name("upgrade_to_bellatrix"));
    assert!(!Fork::Phase0.should_filter_fn_by_name("upgrade_to_altair"));
}
