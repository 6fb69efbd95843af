//! Basic values and the records that the state transition reads and writes.
use vstd::prelude::*;

verus! {

pub type Slot = u64;

pub type Epoch = u64;

pub type Gwei = u64;

pub type ValidatorIndex = usize;

pub type Bytes32 = [u8; 32];

pub type Root = [u8; 32];

pub type Hash32 = [u8; 32];

pub type Domain = [u8; 32];

pub type Version = [u8; 4];

pub type BlsPublicKey = [u8; 48];

pub type BlsSignature = [u8; 96];

/// Sentinel epoch meaning "not yet determined".
pub const FAR_FUTURE_EPOCH: u64 = 0xffff_ffff_ffff_ffff;

pub const GENESIS_EPOCH: u64 = 0;

pub const GENESIS_SLOT: u64 = 0;

/// One entry of the validator registry.
#[derive(Clone, Copy, Debug)]
pub struct Validator {
    pub pubkey: BlsPublicKey,
    pub withdrawal_credentials: Bytes32,
    pub effective_balance: Gwei,
    pub slashed: bool,
    pub activation_eligibility_epoch: Epoch,
    pub activation_epoch: Epoch,
    pub exit_epoch: Epoch,
    pub withdrawable_epoch: Epoch,
}

#[derive(Clone, Copy, Debug)]
pub struct Checkpoint {
    pub epoch: Epoch,
    pub root: Root,
}

/// What an attestation votes for.
#[derive(Clone, Copy, Debug)]
pub struct AttestationData {
    pub slot: Slot,
    pub index: u64,
    pub beacon_block_root: Root,
    pub source: Checkpoint,
    pub target: Checkpoint,
}

/// An attestation naming its attesters by validator index.
#[derive(Clone, Debug)]
pub struct IndexedAttestation {
    pub attesting_indices: Vec<ValidatorIndex>,
    pub data: AttestationData,
    pub signature: BlsSignature,
}

/// The fork-version marker of a state.
#[derive(Clone, Copy, Debug)]
pub struct Fork {
    pub previous_version: Version,
    pub current_version: Version,
    pub epoch: Epoch,
}

#[derive(Clone, Copy, Debug)]
pub struct Eth1Data {
    pub deposit_root: Root,
    pub deposit_count: u64,
    pub block_hash: Hash32,
}

#[derive(Clone, Copy, Debug)]
pub struct BeaconBlockHeader {
    pub slot: Slot,
    pub proposer_index: ValidatorIndex,
    pub parent_root: Root,
    pub state_root: Root,
    pub body_root: Root,
}

/// What a deposit credits, and to whom.
#[derive(Clone, Copy, Debug)]
pub struct DepositData {
    pub pubkey: BlsPublicKey,
    pub withdrawal_credentials: Bytes32,
    pub amount: Gwei,
    pub signature: BlsSignature,
}

/// A deposit with its Merkle proof against the deposit root.
#[derive(Clone, Debug)]
pub struct Deposit {
    pub proof: Vec<Bytes32>,
    pub data: DepositData,
}

/// Purposes a signature can be bound to.
#[derive(Clone, Copy, Debug, PartialEq, Eq)]
pub enum DomainType {
    BeaconProposer,
    BeaconAttester,
    Randao,
    Deposit,
    VoluntaryExit,
    SelectionProof,
    AggregateAndProof,
    SyncCommittee,
    SyncCommitteeSelectionProof,
    ContributionAndProof,
    ApplicationMask,
}

/// The four-byte tag of a domain type.
pub open spec fn domain_type_bytes(t: DomainType) -> Seq<u8> {
    match t {
        DomainType::BeaconProposer => seq![0u8, 0, 0, 0],
        DomainType::BeaconAttester => seq![1u8, 0, 0, 0],
        DomainType::Randao => seq![2u8, 0, 0, 0],
        DomainType::Deposit => seq![3u8, 0, 0, 0],
        DomainType::VoluntaryExit => seq![4u8, 0, 0, 0],
        DomainType::SelectionProof => seq![5u8, 0, 0, 0],
        DomainType::AggregateAndProof => seq![6u8, 0, 0, 0],
        DomainType::SyncCommittee => seq![7u8, 0, 0, 0],
        DomainType::SyncCommitteeSelectionProof => seq![8u8, 0, 0, 0],
        DomainType::ContributionAndProof => seq![9u8, 0, 0, 0],
        DomainType::ApplicationMask => seq![0u8, 0, 0, 1],
    }
}

impl DomainType {
    pub fn as_bytes(&self) -> (r: [u8; 4])
        ensures
            r@ == domain_type_bytes(*self),
    {
        let r: [u8; 4] = match self {
            DomainType::BeaconProposer => [0u8, 0, 0, 0],
            DomainType::BeaconAttester => [1u8, 0, 0, 0],
            DomainType::Randao => [2u8, 0, 0, 0],
            DomainType::Deposit => [3u8, 0, 0, 0],
            DomainType::VoluntaryExit => [4u8, 0, 0, 0],
            DomainType::SelectionProof => [5u8, 0, 0, 0],
            DomainType::AggregateAndProof => [6u8, 0, 0, 0],
            DomainType::SyncCommittee => [7u8, 0, 0, 0],
            DomainType::SyncCommitteeSelectionProof => [8u8, 0, 0, 0],
            DomainType::ContributionAndProof => [9u8, 0, 0, 0],
            DomainType::ApplicationMask => [0u8, 0, 0, 1],
        };
        assert(r@ =~= domain_type_bytes(*self));
        r
    }
}

} // verus!

verus! {

/// The operations a block carries.
#[derive(Clone, Debug)]
pub struct BeaconBlockBody {
    pub randao_reveal: BlsSignature,
    pub eth1_data: Eth1Data,
    pub graffiti: Bytes32,
    pub proposer_slashings: Vec<ProposerSlashing>,
    pub attester_slashings: Vec<AttesterSlashing>,
    pub deposits: Vec<Deposit>,
    pub voluntary_exits: Vec<SignedVoluntaryExit>,
}

#[derive(Clone, Debug)]
pub struct BeaconBlock {
    pub slot: Slot,
    pub proposer_index: ValidatorIndex,
    pub parent_root: Root,
    pub state_root: Root,
    pub body: BeaconBlockBody,
}

#[derive(Clone, Debug)]
pub struct SignedBeaconBlock {
    pub message: BeaconBlock,
    pub signature: BlsSignature,
}

} // verus!

verus! {

/// Two conflicting votes by overlapping sets of attesters.
#[derive(Clone, Debug)]
pub struct AttesterSlashing {
    pub attestation_1: IndexedAttestation,
    pub attestation_2: IndexedAttestation,
}

} // verus!

verus! {

/// A validator's request to leave, effective from `epoch`.
#[derive(Clone, Copy, Debug)]
pub struct VoluntaryExit {
    pub epoch: Epoch,
    pub validator_index: ValidatorIndex,
}

#[derive(Clone, Copy, Debug)]
pub struct SignedVoluntaryExit {
    pub message: VoluntaryExit,
    pub signature: BlsSignature,
}

} // verus!

verus! {

#[derive(Clone, Copy, Debug)]
pub struct SignedBeaconBlockHeader {
    pub message: BeaconBlockHeader,
    pub signature: BlsSignature,
}

/// Two different headers signed by one proposer for one slot.
#[derive(Clone, Copy, Debug)]
pub struct ProposerSlashing {
    pub signed_header_1: SignedBeaconBlockHeader,
    pub signed_header_2: SignedBeaconBlockHeader,
}

} // verus!
