//! Beacon-chain state-transition core: validator lifecycle predicates and
//! transitions, commitments and domain separation, attestation and
//! Merkle-proof checks, block application (header, proposer signature,
//! randomness, slashings, deposits, exits), slot advancement with end-of-epoch
//! bookkeeping, fork upgrades, and genesis construction.
//!
//! Signature checks are the caller's: every function that needs one takes
//! the verifier as a closure and its contract says what the verifier was
//! asked and what it answered.
use vstd::prelude::*;

pub mod crypto;
pub mod primitives;
pub mod beacon_state;
pub mod validator;
pub mod merkle;
pub mod ssz;
pub mod error;
pub mod signing;
pub mod attestation;
pub mod deposit;
pub mod block;
pub mod genesis;
pub mod fork_schema;
pub mod upgrade;
pub mod randao;
pub mod epoch;
pub mod slot;
pub mod lifecycle;
pub mod slashing;
pub mod exit;
pub mod registry;

verus! {

} // verus!
