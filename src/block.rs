//! Block roots, proposer-signature verification and block application.
use crate::beacon_state::{epoch_at_slot, BeaconState, Context};
use crate::crypto::merkle_root_of;
use crate::deposit::{
    deposit_data_hash_tree_root, deposit_data_root, deposit_domain, deposit_message_root, first_with_pubkey,
    has_pubkey, lemma_registry_after_prefix, process_deposit, registry_after, same_chain_fields,
    signature_verdict, DEPOSIT_CONTRACT_TREE_DEPTH,
};
use crate::error::{Error, InvalidOperation};
use crate::exit::{exit_allowed, exit_signing_root, exits_fold, process_voluntary_exit, voluntary_exit_root};
use crate::lifecycle::{exit_queue_epoch, slash_overflows};
use crate::merkle::valid_merkle_branch;
use crate::validator::slashable_pair;
use crate::primitives::{
    AttesterSlashing, BeaconBlock, BeaconBlockBody, BeaconBlockHeader, BlsPublicKey, BlsSignature,
    Deposit, DomainType, Eth1Data, IndexedAttestation, ProposerSlashing, Root, SignedBeaconBlock,
    SignedBeaconBlockHeader, SignedVoluntaryExit, Validator, ValidatorIndex,
};
use crate::randao::{mix_index, process_randao, randao_mixed, randao_signing_root};
use crate::signing::{
    attestation_data_root, domain_of, get_domain, header_root, signing_root, signing_root_from,
    version_at, HashTreeRoot,
};
use crate::attestation::attestation_signing_root;
use crate::slashing::{
    attestation_accepted, attestation_rejected, header_signing_root, is_attestation_error, proposer_slashable,
    slashed_by, slashings_after,
    process_attester_slashing, process_proposer_slashing, proposer_fold, slashings_fold,
};
use crate::ssz::{
    basic_list_root, basic_list_root_of, bytes_root, container_root, fixed_bytes_root, list_root,
    list_root_of, merkleize_fixed, packed_u64s, push_bytes, push_u64_chunk, push_u64_le, u64_chunk,
    zeros,
};
use crate::validator::root_eq;
use vstd::prelude::*;

verus! {

/// Most deposits one block may carry.
pub const MAX_DEPOSITS: usize = 16;

/// Most proposer slashings one block may carry.
pub const MAX_PROPOSER_SLASHINGS: usize = 16;

/// Most attester slashings one block may carry.
pub const MAX_ATTESTER_SLASHINGS: usize = 2;

/// Most attesters one indexed attestation may name.
pub const MAX_VALIDATORS_PER_COMMITTEE: usize = 2048;

/// Most voluntary exits one block may carry.
pub const MAX_VOLUNTARY_EXITS: usize = 16;

/// Number of siblings in a deposit proof: the tree's depth and the length mix-in.
pub const DEPOSIT_PROOF_LENGTH: usize = 33;

/// The concatenation of a sequence of roots.
pub open spec fn concat_roots(s: Seq<Seq<u8>>) -> Seq<u8>
    decreases s.len(),
{
    if s.len() == 0 {
        Seq::empty()
    } else {
        concat_roots(s.drop_last()) + s.last()
    }
}

pub open spec fn eth1_data_root(e: Eth1Data) -> Seq<u8> {
    container_root(bytes_root(e.deposit_root@) + u64_chunk(e.deposit_count) + bytes_root(e.block_hash@))
}

pub open spec fn deposit_root(d: Deposit) -> Seq<u8> {
    container_root(
        merkle_root_of(concat_roots(d.proof@.map(|i: int, p: [u8; 32]| bytes_root(p@))), None)
            + deposit_data_root(d.data),
    )
}

/// The deposits can be committed to: not too many, each proof of full length.
pub open spec fn deposits_committable(b: BeaconBlockBody) -> bool {
    &&& b.deposits@.len() <= MAX_DEPOSITS
    &&& forall|i: int| 0 <= i < b.deposits@.len() ==> #[trigger] b.deposits@[i].proof@.len() == DEPOSIT_PROOF_LENGTH
}

/// The attester slashings can be committed to: not too many, none naming
/// more attesters than a committee holds.
pub open spec fn slashings_committable(b: BeaconBlockBody) -> bool {
    &&& b.attester_slashings@.len() <= MAX_ATTESTER_SLASHINGS
    &&& forall|i: int| 0 <= i < b.attester_slashings@.len() ==> {
        &&& (#[trigger] b.attester_slashings@[i]).attestation_1.attesting_indices@.len() <= MAX_VALIDATORS_PER_COMMITTEE
        &&& b.attester_slashings@[i].attestation_2.attesting_indices@.len() <= MAX_VALIDATORS_PER_COMMITTEE
    }
}

/// A body can be committed to.
pub open spec fn body_committable(b: BeaconBlockBody) -> bool {
    &&& deposits_committable(b)
    &&& slashings_committable(b)
    &&& b.voluntary_exits@.len() <= MAX_VOLUNTARY_EXITS
    &&& b.proposer_slashings@.len() <= MAX_PROPOSER_SLASHINGS
}

/// The first capacity rule the body breaks, in the order the body is
/// committed: deposits, attester slashings, voluntary exits, proposer slashings.
pub open spec fn body_error(b: BeaconBlockBody) -> Option<InvalidOperation> {
    if b.deposits@.len() > MAX_DEPOSITS {
        Some(InvalidOperation::TooManyDeposits)
    } else if !deposits_committable(b) {
        Some(InvalidOperation::MalformedDepositProof)
    } else if b.attester_slashings@.len() > MAX_ATTESTER_SLASHINGS {
        Some(InvalidOperation::TooManyAttesterSlashings)
    } else if !slashings_committable(b) {
        Some(InvalidOperation::TooManyAttestingIndices)
    } else if b.voluntary_exits@.len() > MAX_VOLUNTARY_EXITS {
        Some(InvalidOperation::TooManyVoluntaryExits)
    } else if b.proposer_slashings@.len() > MAX_PROPOSER_SLASHINGS {
        Some(InvalidOperation::TooManyProposerSlashings)
    } else {
        None
    }
}

pub open spec fn signed_header_root(h: SignedBeaconBlockHeader) -> Seq<u8> {
    container_root(header_root(h.message) + bytes_root(h.signature@))
}

pub open spec fn proposer_slashing_root(s: ProposerSlashing) -> Seq<u8> {
    container_root(signed_header_root(s.signed_header_1) + signed_header_root(s.signed_header_2))
}

pub open spec fn signed_exit_root(e: SignedVoluntaryExit) -> Seq<u8> {
    container_root(voluntary_exit_root(e.message) + bytes_root(e.signature@))
}

pub open spec fn indices_as_u64(s: Seq<ValidatorIndex>) -> Seq<u64> {
    s.map(|i: int, x: ValidatorIndex| x as u64)
}

pub open spec fn indexed_attestation_root(a: IndexedAttestation) -> Seq<u8> {
    container_root(
        basic_list_root(
            packed_u64s(indices_as_u64(a.attesting_indices@)),
            a.attesting_indices@.len() as u64,
            (MAX_VALIDATORS_PER_COMMITTEE / 4) as usize,
        ) + attestation_data_root(a.data) + bytes_root(a.signature@),
    )
}

pub open spec fn attester_slashing_root(s: AttesterSlashing) -> Seq<u8> {
    container_root(indexed_attestation_root(s.attestation_1) + indexed_attestation_root(s.attestation_2))
}

pub open spec fn body_root(b: BeaconBlockBody) -> Seq<u8> {
    container_root(
        bytes_root(b.randao_reveal@) + eth1_data_root(b.eth1_data) + bytes_root(b.graffiti@) + list_root(
            concat_roots(b.proposer_slashings@.map(|i: int, s: ProposerSlashing| proposer_slashing_root(s))),
            MAX_PROPOSER_SLASHINGS,
        ) + list_root(
            concat_roots(b.attester_slashings@.map(|i: int, s: AttesterSlashing| attester_slashing_root(s))),
            MAX_ATTESTER_SLASHINGS,
        ) + list_root(concat_roots(b.deposits@.map(|i: int, d: Deposit| deposit_root(d))), MAX_DEPOSITS) + list_root(
            concat_roots(b.voluntary_exits@.map(|i: int, e: SignedVoluntaryExit| signed_exit_root(e))),
            MAX_VOLUNTARY_EXITS,
        ),
    )
}

/// A block commits exactly as its header does.
pub open spec fn block_root(b: BeaconBlock) -> Seq<u8> {
    container_root(
        u64_chunk(b.slot) + u64_chunk(b.proposer_index as u64) + bytes_root(b.parent_root@) + bytes_root(
            b.state_root@,
        ) + bytes_root(body_root(b.body)),
    )
}

impl HashTreeRoot for Eth1Data {
    open spec fn root_spec(&self) -> Seq<u8> {
        eth1_data_root(*self)
    }

    fn hash_tree_root(&self) -> (r: Root) {
        let mut chunks: Vec<u8> = Vec::new();
        let dr = fixed_bytes_root(&self.deposit_root);
        push_bytes(&mut chunks, &dr);
        push_u64_chunk(&mut chunks, self.deposit_count);
        let bh = fixed_bytes_root(&self.block_hash);
        push_bytes(&mut chunks, &bh);
        assert(chunks@ =~= bytes_root(self.deposit_root@) + u64_chunk(self.deposit_count) + bytes_root(
            self.block_hash@,
        ));
        merkleize_fixed(&chunks)
    }
}

/// The root of a deposit, whose proof has full length.
pub fn deposit_hash_tree_root(d: &Deposit) -> (r: Root)
    requires
        d.proof@.len() == DEPOSIT_PROOF_LENGTH,
    ensures
        r@ == deposit_root(*d),
{
    let ghost roots = d.proof@.map(|i: int, p: [u8; 32]| bytes_root(p@));
    let mut proof_chunks: Vec<u8> = Vec::new();
    let mut k: usize = 0;
    while k < d.proof.len()
        invariant
            0 <= k <= d.proof@.len() == DEPOSIT_PROOF_LENGTH,
            roots == d.proof@.map(|i: int, p: [u8; 32]| bytes_root(p@)),
            proof_chunks@ == concat_roots(roots.subrange(0, k as int)),
            proof_chunks@.len() == 32 * k,
        decreases d.proof@.len() - k,
    {
        let r = fixed_bytes_root(&d.proof[k]);
        push_bytes(&mut proof_chunks, &r);
        k = k + 1;
        assert(roots.subrange(0, k as int).drop_last() =~= roots.subrange(0, k - 1));
    }
    assert(roots.subrange(0, k as int) =~= roots);
    let proof_root = merkleize_fixed(&proof_chunks);
    let mut chunks: Vec<u8> = Vec::new();
    push_bytes(&mut chunks, &proof_root);
    let data_root = deposit_data_hash_tree_root(&d.data);
    push_bytes(&mut chunks, &data_root);
    merkleize_fixed(&chunks)
}

fn signed_header_hash_tree_root(h: &SignedBeaconBlockHeader) -> (r: Root)
    ensures
        r@ == signed_header_root(*h),
{
    let mut chunks: Vec<u8> = Vec::new();
    let m = h.message.hash_tree_root();
    push_bytes(&mut chunks, &m);
    let sig = fixed_bytes_root(&h.signature);
    push_bytes(&mut chunks, &sig);
    merkleize_fixed(&chunks)
}

/// The root of an indexed attestation naming at most a committee's worth of attesters.
pub fn indexed_attestation_hash_tree_root(a: &IndexedAttestation) -> (r: Root)
    requires
        a.attesting_indices@.len() <= MAX_VALIDATORS_PER_COMMITTEE,
    ensures
        r@ == indexed_attestation_root(*a),
{
    let s = &a.attesting_indices;
    let mut packed: Vec<u8> = Vec::new();
    let mut k: usize = 0;
    while k < s.len()
        invariant
            0 <= k <= s@.len() <= MAX_VALIDATORS_PER_COMMITTEE,
            packed@ == packed_u64s(indices_as_u64(s@.subrange(0, k as int))),
            packed@.len() == 8 * k,
        decreases s@.len() - k,
    {
        push_u64_le(&mut packed, s[k] as u64);
        k = k + 1;
        assert(indices_as_u64(s@.subrange(0, k as int)).drop_last() =~= indices_as_u64(s@.subrange(0, k - 1)));
    }
    assert(s@.subrange(0, k as int) =~= s@);
    assert(crate::ssz::padded(packed@).len() / 32 <= MAX_VALIDATORS_PER_COMMITTEE / 4) by (nonlinear_arith)
        requires
            crate::ssz::padded(packed@).len() == packed@.len() + ((32 - packed@.len() % 32) % 32),
            packed@.len() == 8 * k,
            k <= 2048;
    let indices_root = match basic_list_root_of(&packed, k as u64, MAX_VALIDATORS_PER_COMMITTEE / 4) {
        Ok(x) => x,
        Err(_) => {
            assert(false);
            [0u8; 32]
        },
    };
    let mut chunks: Vec<u8> = Vec::new();
    push_bytes(&mut chunks, &indices_root);
    let data = a.data.hash_tree_root();
    push_bytes(&mut chunks, &data);
    let sig = fixed_bytes_root(&a.signature);
    push_bytes(&mut chunks, &sig);
    assert(chunks@ =~= basic_list_root(
        packed_u64s(indices_as_u64(a.attesting_indices@)),
        a.attesting_indices@.len() as u64,
        (MAX_VALIDATORS_PER_COMMITTEE / 4) as usize,
    ) + attestation_data_root(a.data) + bytes_root(a.signature@));
    merkleize_fixed(&chunks)
}

pub fn attester_slashing_hash_tree_root(s: &AttesterSlashing) -> (r: Root)
    requires
        s.attestation_1.attesting_indices@.len() <= MAX_VALIDATORS_PER_COMMITTEE,
        s.attestation_2.attesting_indices@.len() <= MAX_VALIDATORS_PER_COMMITTEE,
    ensures
        r@ == attester_slashing_root(*s),
{
    let mut chunks: Vec<u8> = Vec::new();
    let a1 = indexed_attestation_hash_tree_root(&s.attestation_1);
    push_bytes(&mut chunks, &a1);
    let a2 = indexed_attestation_hash_tree_root(&s.attestation_2);
    push_bytes(&mut chunks, &a2);
    merkleize_fixed(&chunks)
}

/// The root of a block body, or an error when it has too many deposits or
/// a deposit proof of the wrong length.
pub fn body_hash_tree_root(b: &BeaconBlockBody) -> (r: Result<Root, Error>)
    ensures
        r matches Ok(x) ==> body_committable(*b) && x@ == body_root(*b),
        b.deposits@.len() > MAX_DEPOSITS ==> (r matches Err(
            Error::InvalidOperation(InvalidOperation::TooManyDeposits),
        )),
        b.deposits@.len() <= MAX_DEPOSITS && !deposits_committable(*b) ==> (r matches Err(
            Error::InvalidOperation(InvalidOperation::MalformedDepositProof),
        )),
        deposits_committable(*b) && b.attester_slashings@.len() > MAX_ATTESTER_SLASHINGS ==> (r matches Err(
            Error::InvalidOperation(InvalidOperation::TooManyAttesterSlashings),
        )),
        deposits_committable(*b) && b.attester_slashings@.len() <= MAX_ATTESTER_SLASHINGS && !slashings_committable(*b)
            ==> (r matches Err(Error::InvalidOperation(InvalidOperation::TooManyAttestingIndices))),
        deposits_committable(*b) && slashings_committable(*b) && b.voluntary_exits@.len() > MAX_VOLUNTARY_EXITS
            ==> (r matches Err(Error::InvalidOperation(InvalidOperation::TooManyVoluntaryExits))),
        deposits_committable(*b) && slashings_committable(*b) && b.voluntary_exits@.len() <= MAX_VOLUNTARY_EXITS
            && b.proposer_slashings@.len() > MAX_PROPOSER_SLASHINGS ==> (r matches Err(
            Error::InvalidOperation(InvalidOperation::TooManyProposerSlashings),
        )),
        body_committable(*b) ==> r is Ok,
        body_error(*b) matches Some(x) ==> (r matches Err(Error::InvalidOperation(y)) && y == x),
        body_error(*b) is None <==> body_committable(*b),
{
    let ghost roots = b.deposits@.map(|i: int, d: Deposit| deposit_root(d));
    if b.deposits.len() > MAX_DEPOSITS {
        return Err(Error::InvalidOperation(InvalidOperation::TooManyDeposits));
    }
    let mut deposit_chunks: Vec<u8> = Vec::new();
    let mut k: usize = 0;
    while k < b.deposits.len()
        invariant
            0 <= k <= b.deposits@.len() <= MAX_DEPOSITS,
            roots == b.deposits@.map(|i: int, d: Deposit| deposit_root(d)),
            deposit_chunks@ == concat_roots(roots.subrange(0, k as int)),
            deposit_chunks@.len() == 32 * k,
            forall|i: int| 0 <= i < k ==> #[trigger] b.deposits@[i].proof@.len() == DEPOSIT_PROOF_LENGTH,
        decreases b.deposits@.len() - k,
    {
        if b.deposits[k].proof.len() != DEPOSIT_PROOF_LENGTH {
            return Err(Error::InvalidOperation(InvalidOperation::MalformedDepositProof));
        }
        let r = deposit_hash_tree_root(&b.deposits[k]);
        push_bytes(&mut deposit_chunks, &r);
        k = k + 1;
        assert(roots.subrange(0, k as int).drop_last() =~= roots.subrange(0, k - 1));
    }
    assert(roots.subrange(0, k as int) =~= roots);
    if b.attester_slashings.len() > MAX_ATTESTER_SLASHINGS {
        return Err(Error::InvalidOperation(InvalidOperation::TooManyAttesterSlashings));
    }
    let ghost slashing_roots = b.attester_slashings@.map(|i: int, s: AttesterSlashing| attester_slashing_root(s));
    let mut slashing_chunks: Vec<u8> = Vec::new();
    let mut m: usize = 0;
    while m < b.attester_slashings.len()
        invariant
            0 <= m <= b.attester_slashings@.len() <= MAX_ATTESTER_SLASHINGS,
            slashing_roots == b.attester_slashings@.map(|i: int, s: AttesterSlashing| attester_slashing_root(s)),
            slashing_chunks@ == concat_roots(slashing_roots.subrange(0, m as int)),
            slashing_chunks@.len() == 32 * m,
            deposits_committable(*b),
            forall|i: int| 0 <= i < m ==> {
                &&& (#[trigger] b.attester_slashings@[i]).attestation_1.attesting_indices@.len() <= MAX_VALIDATORS_PER_COMMITTEE
                &&& b.attester_slashings@[i].attestation_2.attesting_indices@.len() <= MAX_VALIDATORS_PER_COMMITTEE
            },
        decreases b.attester_slashings@.len() - m,
    {
        let s = &b.attester_slashings[m];
        if s.attestation_1.attesting_indices.len() > MAX_VALIDATORS_PER_COMMITTEE
            || s.attestation_2.attesting_indices.len() > MAX_VALIDATORS_PER_COMMITTEE {
            return Err(Error::InvalidOperation(InvalidOperation::TooManyAttestingIndices));
        }
        let r = attester_slashing_hash_tree_root(s);
        push_bytes(&mut slashing_chunks, &r);
        m = m + 1;
        assert(slashing_roots.subrange(0, m as int).drop_last() =~= slashing_roots.subrange(0, m - 1));
    }
    assert(slashing_roots.subrange(0, m as int) =~= slashing_roots);
    let slashings_root = match list_root_of(&slashing_chunks, MAX_ATTESTER_SLASHINGS) {
        Ok(x) => x,
        Err(e) => {
            assert(false);
            return Err(Error::MerkleizationError(e));
        },
    };
    if b.voluntary_exits.len() > MAX_VOLUNTARY_EXITS {
        return Err(Error::InvalidOperation(InvalidOperation::TooManyVoluntaryExits));
    }
    let ghost exit_roots = b.voluntary_exits@.map(|i: int, e: SignedVoluntaryExit| signed_exit_root(e));
    let mut exit_chunks: Vec<u8> = Vec::new();
    let mut x: usize = 0;
    while x < b.voluntary_exits.len()
        invariant
            0 <= x <= b.voluntary_exits@.len() <= MAX_VOLUNTARY_EXITS,
            exit_roots == b.voluntary_exits@.map(|i: int, e: SignedVoluntaryExit| signed_exit_root(e)),
            exit_chunks@ == concat_roots(exit_roots.subrange(0, x as int)),
            exit_chunks@.len() == 32 * x,
        decreases b.voluntary_exits@.len() - x,
    {
        let e = &b.voluntary_exits[x];
        let mut pair: Vec<u8> = Vec::new();
        let m = e.message.hash_tree_root();
        push_bytes(&mut pair, &m);
        let sig = fixed_bytes_root(&e.signature);
        push_bytes(&mut pair, &sig);
        let r = merkleize_fixed(&pair);
        push_bytes(&mut exit_chunks, &r);
        x = x + 1;
        assert(exit_roots.subrange(0, x as int).drop_last() =~= exit_roots.subrange(0, x - 1));
    }
    assert(exit_roots.subrange(0, x as int) =~= exit_roots);
    let exits_root = match list_root_of(&exit_chunks, MAX_VOLUNTARY_EXITS) {
        Ok(x) => x,
        Err(e) => {
            assert(false);
            return Err(Error::MerkleizationError(e));
        },
    };
    if b.proposer_slashings.len() > MAX_PROPOSER_SLASHINGS {
        return Err(Error::InvalidOperation(InvalidOperation::TooManyProposerSlashings));
    }
    let ghost proposer_roots = b.proposer_slashings@.map(|i: int, s: ProposerSlashing| proposer_slashing_root(s));
    let mut proposer_chunks: Vec<u8> = Vec::new();
    let mut p: usize = 0;
    while p < b.proposer_slashings.len()
        invariant
            0 <= p <= b.proposer_slashings@.len() <= MAX_PROPOSER_SLASHINGS,
            proposer_roots == b.proposer_slashings@.map(|i: int, s: ProposerSlashing| proposer_slashing_root(s)),
            proposer_chunks@ == concat_roots(proposer_roots.subrange(0, p as int)),
            proposer_chunks@.len() == 32 * p,
        decreases b.proposer_slashings@.len() - p,
    {
        let s = &b.proposer_slashings[p];
        let r1 = signed_header_hash_tree_root(&s.signed_header_1);
        let r2 = signed_header_hash_tree_root(&s.signed_header_2);
        let mut pair: Vec<u8> = Vec::new();
        push_bytes(&mut pair, &r1);
        push_bytes(&mut pair, &r2);
        let r = merkleize_fixed(&pair);
        push_bytes(&mut proposer_chunks, &r);
        p = p + 1;
        assert(proposer_roots.subrange(0, p as int).drop_last() =~= proposer_roots.subrange(0, p - 1));
    }
    assert(proposer_roots.subrange(0, p as int) =~= proposer_roots);
    let proposer_root = match list_root_of(&proposer_chunks, MAX_PROPOSER_SLASHINGS) {
        Ok(x) => x,
        Err(e) => {
            assert(false);
            return Err(Error::MerkleizationError(e));
        },
    };
    let deposits_root = match list_root_of(&deposit_chunks, MAX_DEPOSITS) {
        Ok(x) => x,
        Err(e) => {
            assert(false);
            return Err(Error::MerkleizationError(e));
        },
    };
    let mut chunks: Vec<u8> = Vec::new();
    let randao = fixed_bytes_root(&b.randao_reveal);
    push_bytes(&mut chunks, &randao);
    let eth1 = b.eth1_data.hash_tree_root();
    push_bytes(&mut chunks, &eth1);
    let graffiti = fixed_bytes_root(&b.graffiti);
    push_bytes(&mut chunks, &graffiti);
    push_bytes(&mut chunks, &proposer_root);
    push_bytes(&mut chunks, &slashings_root);
    push_bytes(&mut chunks, &deposits_root);
    push_bytes(&mut chunks, &exits_root);
    assert(chunks@ =~= bytes_root(b.randao_reveal@) + eth1_data_root(b.eth1_data) + bytes_root(b.graffiti@)
        + list_root(concat_roots(proposer_roots), MAX_PROPOSER_SLASHINGS) + list_root(
        concat_roots(slashing_roots),
        MAX_ATTESTER_SLASHINGS,
    ) + list_root(concat_roots(roots), MAX_DEPOSITS)
        + list_root(concat_roots(exit_roots), MAX_VOLUNTARY_EXITS));
    Ok(merkleize_fixed(&chunks))
}

/// The root of a block, or an error when its body cannot be committed to.
pub fn block_hash_tree_root(b: &BeaconBlock) -> (r: Result<Root, Error>)
    ensures
        r matches Ok(x) ==> body_committable(b.body) && x@ == block_root(*b),
        body_committable(b.body) <==> r is Ok,
{
    let body = body_hash_tree_root(&b.body)?;
    let mut chunks: Vec<u8> = Vec::new();
    push_u64_chunk(&mut chunks, b.slot);
    push_u64_chunk(&mut chunks, b.proposer_index as u64);
    let parent = fixed_bytes_root(&b.parent_root);
    push_bytes(&mut chunks, &parent);
    let state = fixed_bytes_root(&b.state_root);
    push_bytes(&mut chunks, &state);
    let body_r = fixed_bytes_root(&body);
    push_bytes(&mut chunks, &body_r);
    assert(chunks@ =~= u64_chunk(b.slot) + u64_chunk(b.proposer_index as u64) + bytes_root(b.parent_root@)
        + bytes_root(b.state_root@) + bytes_root(body_root(b.body)));
    Ok(merkleize_fixed(&chunks))
}

/// The root a proposer signs for `block` on `state`: the block's root under
/// the proposer domain of the state's current epoch.
pub open spec fn block_signing_root(state: BeaconState, block: BeaconBlock, context: Context) -> Seq<u8> {
    signing_root(
        block_root(block),
        domain_of(
            DomainType::BeaconProposer,
            version_at(state, epoch_at_slot(state.slot, context.slots_per_epoch))@,
            state.genesis_validators_root@,
        ),
    )
}

/// Whether the block's signature is its proposer's over its signing root, as
/// `verify_signature` judges; false for an unknown proposer or a body that
/// cannot be committed to.
pub fn verify_block_signature<F: Fn(BlsPublicKey, Root, BlsSignature) -> bool>(
    state: &BeaconState,
    signed_block: &SignedBeaconBlock,
    context: &Context,
    verify_signature: F,
) -> (r: bool)
    requires
        context.valid(),
        forall|pk: BlsPublicKey, root: Root, sig: BlsSignature| call_requires(verify_signature, (pk, root, sig)),
    ensures
        ({
            let b = signed_block.message;
            let checkable = b.proposer_index < state.validators@.len() && body_committable(b.body);
            &&& r ==> checkable
            &&& checkable ==> signature_verdict(
                verify_signature,
                state.validators@[b.proposer_index as int].pubkey,
                block_signing_root(*state, b, *context),
                signed_block.signature,
                r,
            )
        }),
{
    let proposer_index = signed_block.message.proposer_index;
    if proposer_index >= state.validators.len() {
        return false;
    }
    let pubkey = state.validators[proposer_index].pubkey;
    let block_root = match block_hash_tree_root(&signed_block.message) {
        Ok(root) => root,
        Err(_) => return false,
    };
    let domain = get_domain(state, DomainType::BeaconProposer, None, context);
    let signing_root = signing_root_from(&block_root, &domain);
    verify_signature(pubkey, signing_root, signed_block.signature)
}

/// The header a block leaves in the state: the block's own fields, its
/// body's root, and a zero state root that the next slot fills in.
pub open spec fn is_header_after(h: BeaconBlockHeader, block: BeaconBlock) -> bool {
    &&& h.slot == block.slot
    &&& h.proposer_index == block.proposer_index
    &&& h.parent_root == block.parent_root
    &&& h.state_root@ == zeros(32)
    &&& h.body_root@ == body_root(block.body)
}

/// The header checks on `block` against `state`, in order, and the error of
/// the first that fails.
pub open spec fn header_check(state: BeaconState, block: BeaconBlock) -> Option<InvalidOperation> {
    if block.slot != state.slot {
        Some(InvalidOperation::SlotMismatch)
    } else if block.proposer_index >= state.validators@.len() {
        Some(InvalidOperation::UnknownValidatorIndex)
    } else if block.parent_root@ != header_root(state.latest_block_header) {
        Some(InvalidOperation::ParentRootMismatch)
    } else if state.validators@[block.proposer_index as int].slashed {
        Some(InvalidOperation::ProposerSlashed)
    } else {
        None
    }
}

/// Validates the header stage of `block` against `state`.
pub fn check_block_header(state: &BeaconState, block: &BeaconBlock) -> (r: Result<(), Error>)
    ensures
        header_check(*state, *block) matches Some(e) ==> (r matches Err(Error::InvalidOperation(x)) && x == e),
        header_check(*state, *block) is None ==> r is Ok,
{
    if block.slot != state.slot {
        return Err(Error::InvalidOperation(InvalidOperation::SlotMismatch));
    }
    if block.proposer_index >= state.validators.len() {
        return Err(Error::InvalidOperation(InvalidOperation::UnknownValidatorIndex));
    }
    let parent = state.latest_block_header.hash_tree_root();
    if !root_eq(&block.parent_root, &parent) {
        return Err(Error::InvalidOperation(InvalidOperation::ParentRootMismatch));
    }
    if state.validators[block.proposer_index].slashed {
        return Err(Error::InvalidOperation(InvalidOperation::ProposerSlashed));
    }
    Ok(())
}

/// The registry and balances after the block's proposer slashings, attester
/// slashings and then deposits, new keys admitted as `admitted` says.
pub open spec fn deposits_applied(state: BeaconState, block: BeaconBlock, context: Context, admitted: Seq<bool>) -> (
    Seq<Validator>,
    Seq<u64>,
) {
    registry_after(
        slashings_fold(
            proposer_fold(
                state.validators@,
                block.body.proposer_slashings@,
                epoch_at_slot(state.slot, context.slots_per_epoch),
                context,
                block.body.proposer_slashings@.len() as nat,
            ),
            block.body.attester_slashings@,
            epoch_at_slot(state.slot, context.slots_per_epoch),
            context,
            block.body.attester_slashings@.len() as nat,
        ),
        state.balances@,
        block.body.deposits@,
        admitted,
        block.body.deposits@.len() as nat,
        context,
    )
}

/// The epoch the block is applied in.
pub open spec fn block_epoch(state: BeaconState, context: Context) -> u64 {
    epoch_at_slot(state.slot, context.slots_per_epoch)
}

/// The registry after the block's proposer slashings.
pub open spec fn after_proposer_slashings(state: BeaconState, block: BeaconBlock, context: Context) -> Seq<Validator> {
    proposer_fold(
        state.validators@,
        block.body.proposer_slashings@,
        block_epoch(state, context),
        context,
        block.body.proposer_slashings@.len() as nat,
    )
}

/// The registry after the block's proposer and attester slashings.
pub open spec fn after_attester_slashings(state: BeaconState, block: BeaconBlock, context: Context) -> Seq<Validator> {
    slashings_fold(
        after_proposer_slashings(state, block, context),
        block.body.attester_slashings@,
        block_epoch(state, context),
        context,
        block.body.attester_slashings@.len() as nat,
    )
}

/// A proposer slashing is valid where the registry is `validators`: its
/// headers conflict, both carry the proposer's signature, and slashing
/// overflows no epoch.
pub open spec fn proposer_slashing_ok<F: Fn(BlsPublicKey, Root, BlsSignature) -> bool>(
    state: BeaconState,
    validators: Seq<Validator>,
    s: ProposerSlashing,
    context: Context,
    verify_signature: F,
) -> bool {
    let i = s.signed_header_1.message.proposer_index as int;
    &&& proposer_slashable(state, validators, s, context)
    &&& signature_verdict(
        verify_signature,
        validators[i].pubkey,
        header_signing_root(state, s.signed_header_1.message, context),
        s.signed_header_1.signature,
        true,
    )
    &&& signature_verdict(
        verify_signature,
        validators[i].pubkey,
        header_signing_root(state, s.signed_header_2.message, context),
        s.signed_header_2.signature,
        true,
    )
    &&& !slash_overflows(validators, i, block_epoch(state, context), context)
}

/// An attester slashing is valid where the registry is `validators`: its
/// votes are slashable together, both attestations pass their checks, it
/// catches someone, and no slashing overflows an epoch.
pub open spec fn attester_slashing_ok<G: Fn(Vec<BlsPublicKey>, Root, BlsSignature) -> bool>(
    state: BeaconState,
    validators: Seq<Validator>,
    s: AttesterSlashing,
    context: Context,
    fast_aggregate_verify: G,
) -> bool {
    let epoch = block_epoch(state, context);
    &&& slashable_pair(s.attestation_1.data, s.attestation_2.data)
    &&& attestation_accepted(state, validators, s.attestation_1, fast_aggregate_verify)
    &&& attestation_accepted(state, validators, s.attestation_2, fast_aggregate_verify)
    &&& exists|i: int| slashed_by(validators, s, epoch, i)
    &&& forall|i: int| #[trigger] slashed_by(validators, s, epoch, i) ==> !slash_overflows(
        slashings_after(validators, s, epoch, context, i as nat),
        i,
        epoch,
        context,
    )
}

/// A deposit is valid at deposit index `index` where the registry and
/// balances are `validators` and `balances`: its proof places it under the
/// state's deposit root, a top-up does not overflow, and a new key is
/// admitted exactly when the signature verifies and the registry has room.
pub open spec fn deposit_ok<F: Fn(BlsPublicKey, Root, BlsSignature) -> bool>(
    state: BeaconState,
    validators: Seq<Validator>,
    balances: Seq<u64>,
    d: Deposit,
    index: int,
    admitted: bool,
    context: Context,
    verify_signature: F,
) -> bool {
    &&& valid_merkle_branch(
        deposit_data_root(d.data),
        d.proof@,
        (DEPOSIT_CONTRACT_TREE_DEPTH + 1) as nat,
        index as nat,
        state.eth1_data.deposit_root@,
    )
    &&& index < u64::MAX
    &&& forall|j: int| first_with_pubkey(validators, d.data.pubkey, j) ==> balances[j] + d.data.amount <= u64::MAX
    &&& !has_pubkey(validators, d.data.pubkey) ==> signature_verdict(
        verify_signature,
        d.data.pubkey,
        signing_root(deposit_message_root(d.data), deposit_domain(context)),
        d.data.signature,
        admitted,
    )
    &&& !has_pubkey(validators, d.data.pubkey) && admitted ==> validators.len() < context.validator_registry_limit
}

/// A voluntary exit is valid where the registry is `validators`: allowed,
/// signed by the validator, and its withdrawal epoch fits.
pub open spec fn exit_ok<F: Fn(BlsPublicKey, Root, BlsSignature) -> bool>(
    state: BeaconState,
    validators: Seq<Validator>,
    e: SignedVoluntaryExit,
    context: Context,
    verify_signature: F,
) -> bool {
    let i = e.message.validator_index as int;
    &&& exit_allowed(state, validators, e.message, context)
    &&& signature_verdict(
        verify_signature,
        validators[i].pubkey,
        exit_signing_root(state, e.message),
        e.signature,
        true,
    )
    &&& exit_queue_epoch(validators, block_epoch(state, context), context) + context.min_validator_withdrawability_delay
        <= u64::MAX
}

pub open spec fn proposers_valid<F: Fn(BlsPublicKey, Root, BlsSignature) -> bool>(
    state: BeaconState,
    block: BeaconBlock,
    context: Context,
    verify_signature: F,
    n: int,
) -> bool {
    forall|t: int|
        0 <= t < n ==> proposer_slashing_ok(
            state,
            #[trigger] proposer_fold(
                state.validators@,
                block.body.proposer_slashings@,
                block_epoch(state, context),
                context,
                t as nat,
            ),
            block.body.proposer_slashings@[t],
            context,
            verify_signature,
        )
}

pub open spec fn attesters_valid<G: Fn(Vec<BlsPublicKey>, Root, BlsSignature) -> bool>(
    state: BeaconState,
    block: BeaconBlock,
    context: Context,
    fast_aggregate_verify: G,
    n: int,
) -> bool {
    forall|t: int|
        0 <= t < n ==> attester_slashing_ok(
            state,
            #[trigger] slashings_fold(
                after_proposer_slashings(state, block, context),
                block.body.attester_slashings@,
                block_epoch(state, context),
                context,
                t as nat,
            ),
            block.body.attester_slashings@[t],
            context,
            fast_aggregate_verify,
        )
}

pub open spec fn deposits_valid<F: Fn(BlsPublicKey, Root, BlsSignature) -> bool>(
    state: BeaconState,
    block: BeaconBlock,
    context: Context,
    admitted: Seq<bool>,
    verify_signature: F,
    n: int,
) -> bool {
    forall|t: int|
        0 <= t < n ==> {
            let reg = #[trigger] registry_after(
                after_attester_slashings(state, block, context),
                state.balances@,
                block.body.deposits@,
                admitted,
                t as nat,
                context,
            );
            deposit_ok(
                state,
                reg.0,
                reg.1,
                block.body.deposits@[t],
                state.eth1_deposit_index + t,
                admitted[t],
                context,
                verify_signature,
            )
        }
}

pub open spec fn exits_valid<F: Fn(BlsPublicKey, Root, BlsSignature) -> bool>(
    state: BeaconState,
    block: BeaconBlock,
    context: Context,
    admitted: Seq<bool>,
    verify_signature: F,
    n: int,
) -> bool {
    forall|t: int|
        0 <= t < n ==> exit_ok(
            state,
            #[trigger] exits_fold(
                deposits_applied(state, block, context, admitted).0,
                block.body.voluntary_exits@,
                block_epoch(state, context),
                context,
                t as nat,
            ),
            block.body.voluntary_exits@[t],
            context,
            verify_signature,
        )
}

/// Every operation of `block` is valid at its point in the order, on the
/// registry the operations before it left.
pub open spec fn block_valid<
    F: Fn(BlsPublicKey, Root, BlsSignature) -> bool,
    G: Fn(Vec<BlsPublicKey>, Root, BlsSignature) -> bool,
>(
    state: BeaconState,
    block: BeaconBlock,
    context: Context,
    admitted: Seq<bool>,
    verify_signature: F,
    fast_aggregate_verify: G,
) -> bool {
    &&& proposers_valid(state, block, context, verify_signature, block.body.proposer_slashings@.len() as int)
    &&& attesters_valid(state, block, context, fast_aggregate_verify, block.body.attester_slashings@.len() as int)
    &&& deposits_valid(state, block, context, admitted, verify_signature, block.body.deposits@.len() as int)
    &&& exits_valid(state, block, context, admitted, verify_signature, block.body.voluntary_exits@.len() as int)
}

/// The proposer slashing fails with `e` where the registry is `validators`.
pub open spec fn proposer_slashing_fails<F: Fn(BlsPublicKey, Root, BlsSignature) -> bool>(
    state: BeaconState,
    validators: Seq<Validator>,
    s: ProposerSlashing,
    context: Context,
    verify_signature: F,
    e: Error,
) -> bool {
    let i = s.signed_header_1.message.proposer_index as int;
    let slashable = proposer_slashable(state, validators, s, context);
    match e {
        Error::InvalidOperation(InvalidOperation::ProposerNotSlashable) => !slashable,
        Error::InvalidSignature => slashable && (signature_verdict(
            verify_signature,
            validators[i].pubkey,
            header_signing_root(state, s.signed_header_1.message, context),
            s.signed_header_1.signature,
            false,
        ) || signature_verdict(
            verify_signature,
            validators[i].pubkey,
            header_signing_root(state, s.signed_header_2.message, context),
            s.signed_header_2.signature,
            false,
        )),
        Error::InvalidOperation(InvalidOperation::Overflow) => slashable && slash_overflows(
            validators,
            i,
            block_epoch(state, context),
            context,
        ),
        _ => false,
    }
}

/// The attester slashing fails with `e` where the registry is `validators`.
pub open spec fn attester_slashing_fails<G: Fn(Vec<BlsPublicKey>, Root, BlsSignature) -> bool>(
    state: BeaconState,
    validators: Seq<Validator>,
    s: AttesterSlashing,
    context: Context,
    fast_aggregate_verify: G,
    e: Error,
) -> bool {
    let epoch = block_epoch(state, context);
    let a1 = s.attestation_1;
    let a2 = s.attestation_2;
    let pair = slashable_pair(a1.data, a2.data);
    let both = pair && attestation_accepted(state, validators, a1, fast_aggregate_verify) && attestation_accepted(
        state,
        validators,
        a2,
        fast_aggregate_verify,
    );
    ||| (e matches Error::InvalidOperation(InvalidOperation::NotSlashable)) && !pair
    ||| is_attestation_error(e) && pair && (attestation_rejected(state, validators, a1, fast_aggregate_verify, e) || (
    attestation_accepted(state, validators, a1, fast_aggregate_verify) && attestation_rejected(
        state,
        validators,
        a2,
        fast_aggregate_verify,
        e,
    )))
    ||| (e matches Error::InvalidOperation(InvalidOperation::NoSlashableAttester)) && both && !exists|i: int|
        slashed_by(validators, s, epoch, i)
    ||| (e matches Error::InvalidOperation(InvalidOperation::Overflow)) && both && exists|i: int|
        #[trigger] slashed_by(validators, s, epoch, i) && slash_overflows(
            slashings_after(validators, s, epoch, context, i as nat),
            i,
            epoch,
            context,
        )
}

/// The deposit at deposit index `index` fails with `e` where the registry
/// and balances are `validators` and `balances`.
pub open spec fn deposit_fails<F: Fn(BlsPublicKey, Root, BlsSignature) -> bool>(
    state: BeaconState,
    validators: Seq<Validator>,
    balances: Seq<u64>,
    d: Deposit,
    index: int,
    context: Context,
    verify_signature: F,
    e: Error,
) -> bool {
    let proof_ok = valid_merkle_branch(
        deposit_data_root(d.data),
        d.proof@,
        (DEPOSIT_CONTRACT_TREE_DEPTH + 1) as nat,
        index as nat,
        state.eth1_data.deposit_root@,
    );
    let known = has_pubkey(validators, d.data.pubkey);
    match e {
        Error::InvalidOperation(InvalidOperation::InvalidDepositProof) => !proof_ok,
        Error::InvalidOperation(InvalidOperation::Overflow) => proof_ok && (index == u64::MAX || (known && exists|j: int|
            first_with_pubkey(validators, d.data.pubkey, j) && balances[j] + d.data.amount > u64::MAX)),
        Error::InvalidOperation(InvalidOperation::RegistryFull) => proof_ok && !known && validators.len()
            >= context.validator_registry_limit && signature_verdict(
            verify_signature,
            d.data.pubkey,
            signing_root(deposit_message_root(d.data), deposit_domain(context)),
            d.data.signature,
            true,
        ),
        _ => false,
    }
}

/// The voluntary exit fails with `e` where the registry is `validators`.
pub open spec fn exit_fails<F: Fn(BlsPublicKey, Root, BlsSignature) -> bool>(
    state: BeaconState,
    validators: Seq<Validator>,
    x: SignedVoluntaryExit,
    context: Context,
    verify_signature: F,
    e: Error,
) -> bool {
    let i = x.message.validator_index as int;
    let allowed = exit_allowed(state, validators, x.message, context);
    let signed = signature_verdict(
        verify_signature,
        validators[i].pubkey,
        exit_signing_root(state, x.message),
        x.signature,
        true,
    );
    match e {
        Error::InvalidOperation(InvalidOperation::ExitNotAllowed) => !allowed,
        Error::InvalidSignature => allowed && signature_verdict(
            verify_signature,
            validators[i].pubkey,
            exit_signing_root(state, x.message),
            x.signature,
            false,
        ),
        Error::InvalidOperation(InvalidOperation::Overflow) => allowed && signed && exit_queue_epoch(
            validators,
            block_epoch(state, context),
            context,
        ) + context.min_validator_withdrawability_delay > u64::MAX,
        _ => false,
    }
}

/// Proposer slashing `t` fails with `e`, every earlier one having been valid.
pub open spec fn proposer_failure_at<F: Fn(BlsPublicKey, Root, BlsSignature) -> bool>(
    state: BeaconState,
    block: BeaconBlock,
    context: Context,
    verify_signature: F,
    e: Error,
    t: int,
) -> bool {
    let ps = block.body.proposer_slashings@;
    &&& 0 <= t < ps.len()
    &&& proposers_valid(state, block, context, verify_signature, t)
    &&& proposer_slashing_fails(
        state,
        proposer_fold(state.validators@, ps, block_epoch(state, context), context, t as nat),
        ps[t],
        context,
        verify_signature,
        e,
    )
}

/// Attester slashing `t` fails with `e`, every earlier operation having been valid.
pub open spec fn attester_failure_at<
    F: Fn(BlsPublicKey, Root, BlsSignature) -> bool,
    G: Fn(Vec<BlsPublicKey>, Root, BlsSignature) -> bool,
>(
    state: BeaconState,
    block: BeaconBlock,
    context: Context,
    verify_signature: F,
    fast_aggregate_verify: G,
    e: Error,
    t: int,
) -> bool {
    let ss = block.body.attester_slashings@;
    &&& proposers_valid(state, block, context, verify_signature, block.body.proposer_slashings@.len() as int)
    &&& 0 <= t < ss.len()
    &&& attesters_valid(state, block, context, fast_aggregate_verify, t)
    &&& attester_slashing_fails(
        state,
        slashings_fold(after_proposer_slashings(state, block, context), ss, block_epoch(state, context), context, t as nat),
        ss[t],
        context,
        fast_aggregate_verify,
        e,
    )
}

/// Deposit `t` fails with `e`, every earlier operation having been valid and
/// the earlier deposits' new keys admitted as `admitted` says.
pub open spec fn deposit_failure_at<
    F: Fn(BlsPublicKey, Root, BlsSignature) -> bool,
    G: Fn(Vec<BlsPublicKey>, Root, BlsSignature) -> bool,
>(
    state: BeaconState,
    block: BeaconBlock,
    context: Context,
    verify_signature: F,
    fast_aggregate_verify: G,
    e: Error,
    admitted: Seq<bool>,
    t: int,
) -> bool {
    let ds = block.body.deposits@;
    let reg = registry_after(after_attester_slashings(state, block, context), state.balances@, ds, admitted, t as nat, context);
    &&& proposers_valid(state, block, context, verify_signature, block.body.proposer_slashings@.len() as int)
    &&& attesters_valid(state, block, context, fast_aggregate_verify, block.body.attester_slashings@.len() as int)
    &&& 0 <= t < ds.len()
    &&& admitted.len() == t
    &&& deposits_valid(state, block, context, admitted, verify_signature, t)
    &&& deposit_fails(state, reg.0, reg.1, ds[t], state.eth1_deposit_index + t, context, verify_signature, e)
}

/// Voluntary exit `t` fails with `e`, every earlier operation having been
/// valid and the deposits' new keys admitted as `admitted` says.
pub open spec fn exit_failure_at<
    F: Fn(BlsPublicKey, Root, BlsSignature) -> bool,
    G: Fn(Vec<BlsPublicKey>, Root, BlsSignature) -> bool,
>(
    state: BeaconState,
    block: BeaconBlock,
    context: Context,
    verify_signature: F,
    fast_aggregate_verify: G,
    e: Error,
    admitted: Seq<bool>,
    t: int,
) -> bool {
    let ds = block.body.deposits@;
    let xs = block.body.voluntary_exits@;
    &&& proposers_valid(state, block, context, verify_signature, block.body.proposer_slashings@.len() as int)
    &&& attesters_valid(state, block, context, fast_aggregate_verify, block.body.attester_slashings@.len() as int)
    &&& admitted.len() == ds.len()
    &&& deposits_valid(state, block, context, admitted, verify_signature, ds.len() as int)
    &&& 0 <= t < xs.len()
    &&& exits_valid(state, block, context, admitted, verify_signature, t)
    &&& exit_fails(
        state,
        exits_fold(deposits_applied(state, block, context, admitted).0, xs, block_epoch(state, context), context, t as nat),
        xs[t],
        context,
        verify_signature,
        e,
    )
}

/// Some operation of `block` fails with `e` on the registry the operations
/// before it left, every one of those having been valid.
pub open spec fn operation_failure<
    F: Fn(BlsPublicKey, Root, BlsSignature) -> bool,
    G: Fn(Vec<BlsPublicKey>, Root, BlsSignature) -> bool,
>(
    state: BeaconState,
    block: BeaconBlock,
    context: Context,
    verify_signature: F,
    fast_aggregate_verify: G,
    e: Error,
) -> bool {
    ||| exists|t: int| #[trigger] proposer_failure_at(state, block, context, verify_signature, e, t)
    ||| exists|t: int| #[trigger] attester_failure_at(state, block, context, verify_signature, fast_aggregate_verify, e, t)
    ||| exists|admitted: Seq<bool>, t: int|
        #[trigger] deposit_failure_at(state, block, context, verify_signature, fast_aggregate_verify, e, admitted, t)
    ||| exists|admitted: Seq<bool>, t: int|
        #[trigger] exit_failure_at(state, block, context, verify_signature, fast_aggregate_verify, e, admitted, t)
}

/// `n` is what a successful application of `block` to `state` leaves, the
/// deposits' new keys being admitted as `admitted` says: the chain fields
/// kept, the block's header, the reveal mixed into the current epoch's
/// randomness, the deposit index advanced past the block's deposits, and the
/// registry that the block's proposer slashings, attester slashings, deposits
/// and voluntary exits produce, in that order.
pub open spec fn block_applied(
    state: BeaconState,
    block: BeaconBlock,
    context: Context,
    admitted: Seq<bool>,
    n: BeaconState,
) -> bool {
    &&& same_chain_fields(state, n)
    &&& is_header_after(n.latest_block_header, block)
    &&& randao_mixed(state, n.randao_mixes@, block.body.randao_reveal, context)
    &&& n.eth1_deposit_index == state.eth1_deposit_index + block.body.deposits@.len()
    &&& admitted.len() == block.body.deposits@.len()
    &&& n.validators@ == exits_fold(
        deposits_applied(state, block, context, admitted).0,
        block.body.voluntary_exits@,
        epoch_at_slot(state.slot, context.slots_per_epoch),
        context,
        block.body.voluntary_exits@.len() as nat,
    )
    &&& n.balances@ == deposits_applied(state, block, context, admitted).1
}

/// Applying one block to one state is deterministic: two outcomes reached
/// with the same admission decisions agree on every field.
pub proof fn lemma_apply_block_deterministic(
    state: BeaconState,
    block: BeaconBlock,
    context: Context,
    admitted: Seq<bool>,
    n1: BeaconState,
    n2: BeaconState,
)
    requires
        block_applied(state, block, context, admitted, n1),
        block_applied(state, block, context, admitted, n2),
    ensures
        n1.genesis_time == n2.genesis_time,
        n1.genesis_validators_root == n2.genesis_validators_root,
        n1.slot == n2.slot,
        n1.fork == n2.fork,
        n1.latest_block_header == n2.latest_block_header,
        n1.eth1_data == n2.eth1_data,
        n1.eth1_deposit_index == n2.eth1_deposit_index,
        n1.validators@ == n2.validators@,
        n1.balances@ == n2.balances@,
        n1.randao_mixes@ == n2.randao_mixes@,
        n1.previous_justified_checkpoint == n2.previous_justified_checkpoint,
        n1.current_justified_checkpoint == n2.current_justified_checkpoint,
        n1.finalized_checkpoint == n2.finalized_checkpoint,
{
    let h1 = n1.latest_block_header;
    let h2 = n2.latest_block_header;
    assert(h1.state_root =~= h2.state_root);
    assert(h1.body_root =~= h2.body_root);
    let i = mix_index(state, context);
    assert(n1.randao_mixes@[i] =~= n2.randao_mixes@[i]);
    assert(n1.randao_mixes@ =~= n2.randao_mixes@);
}

/// What an accepted block owes: its header and body passed, the proposer's
/// signature and the randomness reveal were accepted, the result is well
/// formed, and it is what the block's valid operations leave.
pub open spec fn block_accepted<
    F: Fn(BlsPublicKey, Root, BlsSignature) -> bool,
    G: Fn(Vec<BlsPublicKey>, Root, BlsSignature) -> bool,
>(
    state: BeaconState,
    signed_block: SignedBeaconBlock,
    context: Context,
    verify_signature: F,
    fast_aggregate_verify: G,
    n: BeaconState,
) -> bool {
    let b = signed_block.message;
    &&& header_check(state, b) is None
    &&& body_committable(b.body)
    &&& signature_verdict(
        verify_signature,
        state.validators@[b.proposer_index as int].pubkey,
        block_signing_root(state, b, context),
        signed_block.signature,
        true,
    )
    &&& signature_verdict(
        verify_signature,
        state.validators@[b.proposer_index as int].pubkey,
        randao_signing_root(state, context),
        b.body.randao_reveal,
        true,
    )
    &&& n.wf()
    &&& exists|admitted: Seq<bool>|
        block_applied(state, b, context, admitted, n) && block_valid(
            state,
            b,
            context,
            admitted,
            verify_signature,
            fast_aggregate_verify,
        )
}

/// The errors a block can meet once its header and body pass: a rejected
/// signature, or an operation that breaks a rule.
pub open spec fn operation_error(e: Error) -> bool {
    match e {
        Error::BlockSignatureError => true,
        Error::InvalidSignature => true,
        Error::InvalidOperation(op) => match op {
            InvalidOperation::InvalidDepositProof => true,
            InvalidOperation::Overflow => true,
            InvalidOperation::RegistryFull => true,
            InvalidOperation::NotSlashable => true,
            InvalidOperation::ProposerNotSlashable => true,
            InvalidOperation::NoSlashableAttester => true,
            InvalidOperation::EmptyAttestingIndices => true,
            InvalidOperation::DuplicateAttestingIndices => true,
            InvalidOperation::UnknownValidatorIndex => true,
            InvalidOperation::ExitNotAllowed => true,
            _ => false,
        },
        Error::MerkleizationError(_) => false,
    }
}

/// The verifier answers every question the same way each time it is asked.
pub open spec fn deterministic_verifier<F: Fn(BlsPublicKey, Root, BlsSignature) -> bool>(verify_signature: F) -> bool {
    forall|pk: BlsPublicKey, root: Root, sig: BlsSignature, b1: bool, b2: bool|
        call_ensures(verify_signature, (pk, root, sig), b1) && call_ensures(verify_signature, (pk, root, sig), b2)
            ==> b1 == b2
}

/// With a deterministic verifier, the deposits of a valid block leave the
/// same registry and balances whichever admission record witnessed them.
pub proof fn lemma_deposit_replay_agrees<F: Fn(BlsPublicKey, Root, BlsSignature) -> bool>(
    state: BeaconState,
    block: BeaconBlock,
    context: Context,
    a1: Seq<bool>,
    a2: Seq<bool>,
    verify_signature: F,
    t: nat,
)
    requires
        deterministic_verifier(verify_signature),
        t <= block.body.deposits@.len(),
        deposits_valid(state, block, context, a1, verify_signature, block.body.deposits@.len() as int),
        deposits_valid(state, block, context, a2, verify_signature, block.body.deposits@.len() as int),
    ensures
        registry_after(after_attester_slashings(state, block, context), state.balances@, block.body.deposits@, a1, t, context)
            == registry_after(after_attester_slashings(state, block, context), state.balances@, block.body.deposits@, a2, t, context),
    decreases t,
{
    if t > 0 {
        let k = (t - 1) as nat;
        lemma_deposit_replay_agrees(state, block, context, a1, a2, verify_signature, k);
        let base = after_attester_slashings(state, block, context);
        let ds = block.body.deposits@;
        let prev = registry_after(base, state.balances@, ds, a1, k, context);
        assert(prev == registry_after(base, state.balances@, ds, a2, k, context));
        let d = ds[k as int].data;
        if !has_pubkey(prev.0, d.pubkey) {
            let msg = signing_root(deposit_message_root(d), deposit_domain(context));
            assert(deposit_ok(state, prev.0, prev.1, ds[k as int], state.eth1_deposit_index + k, a1[k as int], context, verify_signature));
            assert(deposit_ok(state, prev.0, prev.1, ds[k as int], state.eth1_deposit_index + k, a2[k as int], context, verify_signature));
            let r1 = choose|root: Root| root@ == msg && call_ensures(verify_signature, (d.pubkey, root, d.signature), a1[k as int]);
            let r2 = choose|root: Root| root@ == msg && call_ensures(verify_signature, (d.pubkey, root, d.signature), a2[k as int]);
            assert(r1 =~= r2);
            assert(a1[k as int] == a2[k as int]);
        }
    }
}

/// Applying one block to one state is deterministic whenever the signature
/// verifier is: any two successful outcomes agree on every field.
pub proof fn lemma_apply_block_deterministic_verifier<
    F: Fn(BlsPublicKey, Root, BlsSignature) -> bool,
    G: Fn(Vec<BlsPublicKey>, Root, BlsSignature) -> bool,
>(
    state: BeaconState,
    block: BeaconBlock,
    context: Context,
    verify_signature: F,
    fast_aggregate_verify: G,
    a1: Seq<bool>,
    a2: Seq<bool>,
    n1: BeaconState,
    n2: BeaconState,
)
    requires
        deterministic_verifier(verify_signature),
        block_applied(state, block, context, a1, n1),
        block_valid(state, block, context, a1, verify_signature, fast_aggregate_verify),
        block_applied(state, block, context, a2, n2),
        block_valid(state, block, context, a2, verify_signature, fast_aggregate_verify),
    ensures
        n1.genesis_time == n2.genesis_time,
        n1.genesis_validators_root == n2.genesis_validators_root,
        n1.slot == n2.slot,
        n1.fork == n2.fork,
        n1.latest_block_header == n2.latest_block_header,
        n1.eth1_data == n2.eth1_data,
        n1.eth1_deposit_index == n2.eth1_deposit_index,
        n1.validators@ == n2.validators@,
        n1.balances@ == n2.balances@,
        n1.randao_mixes@ == n2.randao_mixes@,
        n1.previous_justified_checkpoint == n2.previous_justified_checkpoint,
        n1.current_justified_checkpoint == n2.current_justified_checkpoint,
        n1.finalized_checkpoint == n2.finalized_checkpoint,
{
    lemma_deposit_replay_agrees(
        state,
        block,
        context,
        a1,
        a2,
        verify_signature,
        block.body.deposits@.len() as nat,
    );
    assert(deposits_applied(state, block, context, a1) == deposits_applied(state, block, context, a2));
    let h1 = n1.latest_block_header;
    let h2 = n2.latest_block_header;
    assert(h1.state_root =~= h2.state_root);
    assert(h1.body_root =~= h2.body_root);
    let i = mix_index(state, context);
    assert(n1.randao_mixes@[i] =~= n2.randao_mixes@[i]);
    assert(n1.randao_mixes@ =~= n2.randao_mixes@);
}

/// Applies a signed block to `state`, all or nothing: header checks, the
/// proposer's signature, the new latest header, the randomness reveal, then
/// each proposer slashing, attester slashing, deposit and voluntary exit, in
/// that order.
/// The first failure rejects the block.
#[verifier::spinoff_prover]
#[verifier::rlimit(100)]
pub fn apply_block<
    F: Fn(BlsPublicKey, Root, BlsSignature) -> bool + Copy,
    G: Fn(Vec<BlsPublicKey>, Root, BlsSignature) -> bool + Copy,
>(
    state: BeaconState,
    signed_block: &SignedBeaconBlock,
    context: &Context,
    verify_signature: F,
    fast_aggregate_verify: G,
) -> (r: Result<BeaconState, Error>)
    requires
        context.valid(),
        state.wf(),
        forall|pk: BlsPublicKey, root: Root, sig: BlsSignature| call_requires(verify_signature, (pk, root, sig)),
        forall|keys: Vec<BlsPublicKey>, root: Root, sig: BlsSignature|
            call_requires(fast_aggregate_verify, (keys, root, sig)),
    ensures
        ({
            let b = signed_block.message;
            &&& header_check(state, b) matches Some(e) ==> (r matches Err(Error::InvalidOperation(x)) && x == e)
            &&& header_check(state, b) is None ==> (body_error(b.body) matches Some(x) ==> (r matches Err(
                Error::InvalidOperation(y),
            ) && y == x))
            &&& header_check(state, b) is None && body_committable(b.body) ==> {
                &&& r matches Err(e) ==> operation_error(e)
                &&& !(r matches Err(Error::BlockSignatureError)) ==> signature_verdict(
                    verify_signature,
                    state.validators@[b.proposer_index as int].pubkey,
                    block_signing_root(state, b, *context),
                    signed_block.signature,
                    true,
                )
                &&& match r {
                    Err(e) => (e matches Error::BlockSignatureError) || ((e matches Error::InvalidSignature)
                        && signature_verdict(
                        verify_signature,
                        state.validators@[b.proposer_index as int].pubkey,
                        randao_signing_root(state, *context),
                        b.body.randao_reveal,
                        false,
                    )) || operation_failure(state, b, *context, verify_signature, fast_aggregate_verify, e),
                    Ok(_) => true,
                }
                &&& (r matches Err(Error::InvalidSignature)) && b.body.proposer_slashings@.len() == 0
                    && b.body.attester_slashings@.len() == 0
                    && b.body.voluntary_exits@.len() == 0 ==> signature_verdict(
                    verify_signature,
                    state.validators@[b.proposer_index as int].pubkey,
                    randao_signing_root(state, *context),
                    b.body.randao_reveal,
                    false,
                )
                &&& (r matches Err(Error::BlockSignatureError)) ==> signature_verdict(
                    verify_signature,
                    state.validators@[b.proposer_index as int].pubkey,
                    block_signing_root(state, b, *context),
                    signed_block.signature,
                    false,
                )
            }
            &&& r matches Ok(n) ==> block_accepted(state, *signed_block, *context, verify_signature, fast_aggregate_verify, n)
        }),
{
    let block = &signed_block.message;
    match check_block_header(&state, block) {
        Ok(()) => {},
        Err(e) => {
            return Err(e);
        },
    }
    let body_r = match body_hash_tree_root(&block.body) {
        Ok(x) => x,
        Err(e) => {
            return Err(e);
        },
    };
    if !verify_block_signature(&state, signed_block, context, verify_signature) {
        return Err(Error::BlockSignatureError);
    }
    let mut next = state;
    next.latest_block_header = BeaconBlockHeader {
        slot: block.slot,
        proposer_index: block.proposer_index,
        parent_root: block.parent_root,
        state_root: [0u8; 32],
        body_root: body_r,
    };
    assert(next.latest_block_header.state_root@ =~= zeros(32));
    match process_randao(&mut next, block, context, verify_signature) {
        Ok(()) => {},
        Err(e) => {
            return Err(e);
        },
    }
    let ghost epoch = epoch_at_slot(state.slot, context.slots_per_epoch);
    let proposer_slashings = &block.body.proposer_slashings;
    let mut p: usize = 0;
    while p < proposer_slashings.len()
        invariant
            0 <= p <= proposer_slashings@.len(),
            proposer_slashings@ == signed_block.message.body.proposer_slashings@,
            context.valid(),
            forall|pk: BlsPublicKey, root: Root, sig: BlsSignature| call_requires(verify_signature, (pk, root, sig)),
            next.wf(),
            next.slot == state.slot,
            is_header_after(next.latest_block_header, signed_block.message),
            same_chain_fields(state, next),
            randao_mixed(state, next.randao_mixes@, signed_block.message.body.randao_reveal, *context),
            next.eth1_deposit_index == state.eth1_deposit_index,
            next.balances@ == state.balances@,
            next.validators@ == proposer_fold(state.validators@, proposer_slashings@, epoch, *context, p as nat),
            epoch == epoch_at_slot(state.slot, context.slots_per_epoch),
            header_check(state, signed_block.message) is None,
            body_committable(signed_block.message.body),
            signature_verdict(
                verify_signature,
                state.validators@[signed_block.message.proposer_index as int].pubkey,
                block_signing_root(state, signed_block.message, *context),
                signed_block.signature,
                true,
            ),
            signature_verdict(
                verify_signature,
                state.validators@[signed_block.message.proposer_index as int].pubkey,
                randao_signing_root(state, *context),
                signed_block.message.body.randao_reveal,
                true,
            ),
            proposers_valid(state, signed_block.message, *context, verify_signature, p as int),
        decreases proposer_slashings@.len() - p,
    {
        let ghost before = next;
        match process_proposer_slashing(&mut next, &proposer_slashings[p], context, verify_signature) {
            Ok(()) => {},
            Err(e) => {
                proof {
                    assert(proposer_slashing_fails(
                        state,
                        proposer_fold(state.validators@, proposer_slashings@, epoch, *context, p as nat),
                        proposer_slashings@[p as int],
                        *context,
                        verify_signature,
                        e,
                    ));
                    assert(proposer_failure_at(state, signed_block.message, *context, verify_signature, e, p as int));
                    assert(operation_failure(state, signed_block.message, *context, verify_signature, fast_aggregate_verify, e));
                }
                return Err(e);
            },
        }
        p = p + 1;
    }
    let ghost after_proposers = next.validators@;
    let slashings = &block.body.attester_slashings;
    let mut m: usize = 0;
    while m < slashings.len()
        invariant
            0 <= m <= slashings@.len(),
            slashings@ == signed_block.message.body.attester_slashings@,
            context.valid(),
            forall|keys: Vec<BlsPublicKey>, root: Root, sig: BlsSignature|
                call_requires(fast_aggregate_verify, (keys, root, sig)),
            next.wf(),
            next.slot == state.slot,
            is_header_after(next.latest_block_header, signed_block.message),
            same_chain_fields(state, next),
            randao_mixed(state, next.randao_mixes@, signed_block.message.body.randao_reveal, *context),
            next.eth1_deposit_index == state.eth1_deposit_index,
            next.balances@ == state.balances@,
            after_proposers == proposer_fold(
                state.validators@,
                signed_block.message.body.proposer_slashings@,
                epoch,
                *context,
                signed_block.message.body.proposer_slashings@.len() as nat,
            ),
            next.validators@ == slashings_fold(after_proposers, slashings@, epoch, *context, m as nat),
            epoch == epoch_at_slot(state.slot, context.slots_per_epoch),
            header_check(state, signed_block.message) is None,
            body_committable(signed_block.message.body),
            forall|pk: BlsPublicKey, root: Root, sig: BlsSignature| call_requires(verify_signature, (pk, root, sig)),
            signature_verdict(
                verify_signature,
                state.validators@[signed_block.message.proposer_index as int].pubkey,
                block_signing_root(state, signed_block.message, *context),
                signed_block.signature,
                true,
            ),
            signature_verdict(
                verify_signature,
                state.validators@[signed_block.message.proposer_index as int].pubkey,
                randao_signing_root(state, *context),
                signed_block.message.body.randao_reveal,
                true,
            ),
            proposers_valid(state, signed_block.message, *context, verify_signature, signed_block.message.body.proposer_slashings@.len() as int),
            attesters_valid(state, signed_block.message, *context, fast_aggregate_verify, m as int),
            forall|keys: Vec<BlsPublicKey>, root: Root, sig: BlsSignature|
                call_requires(fast_aggregate_verify, (keys, root, sig)),
        decreases slashings@.len() - m,
    {
        let ghost before = next;
        next = match process_attester_slashing(next, &slashings[m], context, fast_aggregate_verify) {
            Ok(n) => n,
            Err(e) => {
                proof {
                    let vals = slashings_fold(after_proposers, slashings@, epoch, *context, m as nat);
                    let a1 = slashings@[m as int].attestation_1;
                    let a2 = slashings@[m as int].attestation_2;
                    assert(before.validators@ == vals);
                    assert(attestation_signing_root(before, a1) == attestation_signing_root(state, a1));
                    assert(attestation_signing_root(before, a2) == attestation_signing_root(state, a2));
                    assert(attestation_accepted(before, before.validators@, a1, fast_aggregate_verify)
                        == attestation_accepted(state, vals, a1, fast_aggregate_verify));
                    assert(attestation_accepted(before, before.validators@, a2, fast_aggregate_verify)
                        == attestation_accepted(state, vals, a2, fast_aggregate_verify));
                    assert(attestation_rejected(before, before.validators@, a1, fast_aggregate_verify, e)
                        == attestation_rejected(state, vals, a1, fast_aggregate_verify, e));
                    assert(attestation_rejected(before, before.validators@, a2, fast_aggregate_verify, e)
                        == attestation_rejected(state, vals, a2, fast_aggregate_verify, e));
                    let sl = slashings@[m as int];
                    assert(epoch_at_slot(before.slot, context.slots_per_epoch) == block_epoch(state, *context));
                    if e matches Error::InvalidOperation(InvalidOperation::NotSlashable) {
                        assert(!slashable_pair(a1.data, a2.data));
                    } else if is_attestation_error(e) {
                        assert(slashable_pair(a1.data, a2.data));
                    } else if e matches Error::InvalidOperation(InvalidOperation::NoSlashableAttester) {
                        assert(!exists|i: int| slashed_by(vals, sl, block_epoch(state, *context), i));
                    } else {
                        assert(e matches Error::InvalidOperation(InvalidOperation::Overflow));
                        assert(exists|i: int| #[trigger] slashed_by(vals, sl, block_epoch(state, *context), i) && slash_overflows(
                            slashings_after(vals, sl, block_epoch(state, *context), *context, i as nat),
                            i,
                            block_epoch(state, *context),
                            *context,
                        ));
                    }
                    assert(attester_slashing_fails(
                        state,
                        slashings_fold(after_proposers, slashings@, epoch, *context, m as nat),
                        slashings@[m as int],
                        *context,
                        fast_aggregate_verify,
                        e,
                    ));
                    assert(attester_failure_at(state, signed_block.message, *context, verify_signature, fast_aggregate_verify, e, m as int));
                    assert(operation_failure(state, signed_block.message, *context, verify_signature, fast_aggregate_verify, e));
                }
                return Err(e);
            },
        };
        m = m + 1;
    }
    let ghost slashed_registry = next.validators@;
    let deposits = &block.body.deposits;
    let ghost mut admitted: Seq<bool> = Seq::empty();
    let mut k: usize = 0;
    while k < deposits.len()
        invariant
            0 <= k <= deposits@.len() <= MAX_DEPOSITS,
            deposits@ == signed_block.message.body.deposits@,
            context.valid(),
            forall|pk: BlsPublicKey, root: Root, sig: BlsSignature| call_requires(verify_signature, (pk, root, sig)),
            next.wf(),
            is_header_after(next.latest_block_header, signed_block.message),
            same_chain_fields(state, next),
            randao_mixed(state, next.randao_mixes@, signed_block.message.body.randao_reveal, *context),
            signature_verdict(
                verify_signature,
                state.validators@[signed_block.message.proposer_index as int].pubkey,
                randao_signing_root(state, *context),
                signed_block.message.body.randao_reveal,
                true,
            ),
            next.eth1_deposit_index == state.eth1_deposit_index + k,
            admitted.len() == k,
            slashed_registry == slashings_fold(
                proposer_fold(
                    state.validators@,
                    signed_block.message.body.proposer_slashings@,
                    epoch_at_slot(state.slot, context.slots_per_epoch),
                    *context,
                    signed_block.message.body.proposer_slashings@.len() as nat,
                ),
                signed_block.message.body.attester_slashings@,
                epoch_at_slot(state.slot, context.slots_per_epoch),
                *context,
                signed_block.message.body.attester_slashings@.len() as nat,
            ),
            (next.validators@, next.balances@) == registry_after(
                slashed_registry,
                state.balances@,
                deposits@,
                admitted,
                k as nat,
                *context,
            ),
            header_check(state, signed_block.message) is None,
            body_committable(signed_block.message.body),
            signature_verdict(
                verify_signature,
                state.validators@[signed_block.message.proposer_index as int].pubkey,
                block_signing_root(state, signed_block.message, *context),
                signed_block.signature,
                true,
            ),
            proposers_valid(state, signed_block.message, *context, verify_signature, signed_block.message.body.proposer_slashings@.len() as int),
            attesters_valid(state, signed_block.message, *context, fast_aggregate_verify, signed_block.message.body.attester_slashings@.len() as int),
            deposits_valid(state, signed_block.message, *context, admitted, verify_signature, k as int),
        decreases deposits@.len() - k,
    {
        let ghost before = next;
        match process_deposit(&mut next, &deposits[k], context, verify_signature) {
            Ok(()) => {},
            Err(e) => {
                proof {
                    assert(deposit_fails(
                        state,
                        before.validators@,
                        before.balances@,
                        deposits@[k as int],
                        state.eth1_deposit_index + k,
                        *context,
                        verify_signature,
                        e,
                    ));
                    assert(deposit_failure_at(state, signed_block.message, *context, verify_signature, fast_aggregate_verify, e, admitted, k as int));
                    assert(operation_failure(state, signed_block.message, *context, verify_signature, fast_aggregate_verify, e));
                }
                return Err(e);
            },
        }
        proof {
            let grew = next.validators@.len() > before.validators@.len();
            let extended = admitted.push(grew);
            lemma_registry_after_prefix(
                slashed_registry,
                state.balances@,
                deposits@,
                admitted,
                extended,
                k as nat,
                *context,
            );
            assert forall|t: int|
                0 <= t < k + 1 implies {
                    let reg = #[trigger] registry_after(
                        after_attester_slashings(state, signed_block.message, *context),
                        state.balances@,
                        signed_block.message.body.deposits@,
                        extended,
                        t as nat,
                        *context,
                    );
                    deposit_ok(
                        state,
                        reg.0,
                        reg.1,
                        signed_block.message.body.deposits@[t],
                        state.eth1_deposit_index + t,
                        extended[t],
                        *context,
                        verify_signature,
                    )
                } by {
                lemma_registry_after_prefix(
                    slashed_registry,
                    state.balances@,
                    deposits@,
                    admitted,
                    extended,
                    t as nat,
                    *context,
                );
            }
            admitted = extended;
        }
        k = k + 1;
    }
    let ghost deposited = next.validators@;
    assert(deposited == deposits_applied(state, signed_block.message, *context, admitted).0);
    let exits = &block.body.voluntary_exits;
    let mut x: usize = 0;
    while x < exits.len()
        invariant
            0 <= x <= exits@.len(),
            exits@ == signed_block.message.body.voluntary_exits@,
            context.valid(),
            forall|pk: BlsPublicKey, root: Root, sig: BlsSignature| call_requires(verify_signature, (pk, root, sig)),
            next.wf(),
            next.slot == state.slot,
            is_header_after(next.latest_block_header, signed_block.message),
            same_chain_fields(state, next),
            randao_mixed(state, next.randao_mixes@, signed_block.message.body.randao_reveal, *context),
            next.eth1_deposit_index == state.eth1_deposit_index + signed_block.message.body.deposits@.len(),
            admitted.len() == signed_block.message.body.deposits@.len(),
            deposited == deposits_applied(state, signed_block.message, *context, admitted).0,
            next.balances@ == deposits_applied(state, signed_block.message, *context, admitted).1,
            next.validators@ == exits_fold(
                deposited,
                exits@,
                epoch_at_slot(state.slot, context.slots_per_epoch),
                *context,
                x as nat,
            ),
            header_check(state, signed_block.message) is None,
            body_committable(signed_block.message.body),
            signature_verdict(
                verify_signature,
                state.validators@[signed_block.message.proposer_index as int].pubkey,
                block_signing_root(state, signed_block.message, *context),
                signed_block.signature,
                true,
            ),
            signature_verdict(
                verify_signature,
                state.validators@[signed_block.message.proposer_index as int].pubkey,
                randao_signing_root(state, *context),
                signed_block.message.body.randao_reveal,
                true,
            ),
            proposers_valid(state, signed_block.message, *context, verify_signature, signed_block.message.body.proposer_slashings@.len() as int),
            attesters_valid(state, signed_block.message, *context, fast_aggregate_verify, signed_block.message.body.attester_slashings@.len() as int),
            deposits_valid(state, signed_block.message, *context, admitted, verify_signature, signed_block.message.body.deposits@.len() as int),
            exits_valid(state, signed_block.message, *context, admitted, verify_signature, x as int),
        decreases exits@.len() - x,
    {
        let ghost before = next;
        match process_voluntary_exit(&mut next, &exits[x], context, verify_signature) {
            Ok(()) => {},
            Err(e) => {
                proof {
                    assert(exit_fails(
                        state,
                        exits_fold(deposited, exits@, epoch_at_slot(state.slot, context.slots_per_epoch), *context, x as nat),
                        exits@[x as int],
                        *context,
                        verify_signature,
                        e,
                    ));
                    assert(exit_failure_at(state, signed_block.message, *context, verify_signature, fast_aggregate_verify, e, admitted, x as int));
                    assert(operation_failure(state, signed_block.message, *context, verify_signature, fast_aggregate_verify, e));
                }
                return Err(e);
            },
        }
        x = x + 1;
    }
    assert(block_applied(state, signed_block.message, *context, admitted, next));
    assert(block_valid(state, signed_block.message, *context, admitted, verify_signature, fast_aggregate_verify));
    assert(next.wf());
    assert(block_applied(state, signed_block.message, *context, admitted, next) && block_valid(
        state,
        signed_block.message,
        *context,
        admitted,
        verify_signature,
        fast_aggregate_verify,
    ));
    assert(header_check(state, signed_block.message) is None);
    assert(body_committable(signed_block.message.body));
    assert(signature_verdict(
        verify_signature,
        state.validators@[signed_block.message.proposer_index as int].pubkey,
        block_signing_root(state, signed_block.message, *context),
        signed_block.signature,
        true,
    ));
    assert(signature_verdict(
        verify_signature,
        state.validators@[signed_block.message.proposer_index as int].pubkey,
        randao_signing_root(state, *context),
        signed_block.message.body.randao_reveal,
        true,
    ));
    assert(block_accepted(state, *signed_block, *context, verify_signature, fast_aggregate_verify, next));
    assert(exists|adm: Seq<bool>|
        block_applied(state, signed_block.message, *context, adm, next) && block_valid(
            state,
            signed_block.message,
            *context,
            adm,
            verify_signature,
            fast_aggregate_verify,
        ));
    Ok(next)
}

} // verus!
