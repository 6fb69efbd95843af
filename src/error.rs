//! Errors of the state transition.
use vstd::prelude::*;

verus! {

/// Which rule an operation broke.
#[derive(Clone, Copy, Debug, PartialEq, Eq)]
pub enum InvalidOperation {
    EmptyAttestingIndices,
    DuplicateAttestingIndices,
    UnknownValidatorIndex,
    SlotMismatch,
    ParentRootMismatch,
    ProposerSlashed,
    InvalidDepositProof,
    TooManyDeposits,
    TooManyProposerSlashings,
    TooManyAttesterSlashings,
    TooManyVoluntaryExits,
    TooManyAttestingIndices,
    MalformedDepositProof,
    RegistryFull,
    NotSlashable,
    ProposerNotSlashable,
    NoSlashableAttester,
    ExitNotAllowed,
    Overflow,
}

#[derive(Debug)]
pub enum Error {
    BlockSignatureError,
    MerkleizationError(ssz_rs::MerkleizationError),
    InvalidOperation(InvalidOperation),
    InvalidSignature,
}

impl Error {
    /// A short description of the error.
    pub fn message(&self) -> String {
        match self {
            Error::BlockSignatureError => "Block Signature Error".to_string(),
            Error::MerkleizationError(_) => "Merkleization Error".to_string(),
            Error::InvalidOperation(_) => "invalid operation".to_string(),
            Error::InvalidSignature => "invalid signature".to_string(),
        }
    }
}

} // verus!
