//! Roots of the records, domain separation and signing roots.
use crate::beacon_state::{epoch_at_slot, get_current_epoch, BeaconState, Context};
use crate::primitives::{
    domain_type_bytes, AttestationData, BeaconBlockHeader, Checkpoint, Domain, DomainType, Epoch,
    Root, Validator, Version,
};
use crate::ssz::{
    bool_chunk, bytes_root, container_root, fixed_bytes_root, merkleize_fixed, push_bool_chunk,
    push_bytes, push_u64_chunk, u64_chunk,
};
use vstd::prelude::*;

verus! {

/// A record with a commitment that never fails.
pub trait HashTreeRoot {
    spec fn root_spec(&self) -> Seq<u8>;

    fn hash_tree_root(&self) -> (r: Root)
        ensures
            r@ == self.root_spec(),
    ;
}

pub open spec fn validator_root(v: Validator) -> Seq<u8> {
    container_root(
        bytes_root(v.pubkey@) + bytes_root(v.withdrawal_credentials@) + u64_chunk(v.effective_balance)
            + bool_chunk(v.slashed) + u64_chunk(v.activation_eligibility_epoch) + u64_chunk(
            v.activation_epoch,
        ) + u64_chunk(v.exit_epoch) + u64_chunk(v.withdrawable_epoch),
    )
}

pub open spec fn checkpoint_root(c: Checkpoint) -> Seq<u8> {
    container_root(u64_chunk(c.epoch) + bytes_root(c.root@))
}

pub open spec fn attestation_data_root(d: AttestationData) -> Seq<u8> {
    container_root(
        u64_chunk(d.slot) + u64_chunk(d.index) + bytes_root(d.beacon_block_root@) + checkpoint_root(
            d.source,
        ) + checkpoint_root(d.target),
    )
}

pub open spec fn header_root(h: BeaconBlockHeader) -> Seq<u8> {
    container_root(
        u64_chunk(h.slot) + u64_chunk(h.proposer_index as u64) + bytes_root(h.parent_root@)
            + bytes_root(h.state_root@) + bytes_root(h.body_root@),
    )
}

/// The root of `{fork_version, genesis_validators_root}`.
pub open spec fn fork_data_root(version: Seq<u8>, genesis_validators_root: Seq<u8>) -> Seq<u8> {
    container_root(bytes_root(version) + bytes_root(genesis_validators_root))
}

/// The four-byte domain tag followed by the first 28 bytes of the fork data root.
pub open spec fn domain_of(t: DomainType, version: Seq<u8>, genesis_validators_root: Seq<u8>) -> Seq<u8> {
    domain_type_bytes(t) + fork_data_root(version, genesis_validators_root).subrange(0, 28)
}

/// The root of `{object_root, domain}`: the only value ever signed.
pub open spec fn signing_root(object_root: Seq<u8>, domain: Seq<u8>) -> Seq<u8> {
    container_root(bytes_root(object_root) + bytes_root(domain))
}

impl HashTreeRoot for Validator {
    open spec fn root_spec(&self) -> Seq<u8> {
        validator_root(*self)
    }

    fn hash_tree_root(&self) -> (r: Root) {
        let mut chunks: Vec<u8> = Vec::new();
        let pk = fixed_bytes_root(&self.pubkey);
        push_bytes(&mut chunks, &pk);
        let wc = fixed_bytes_root(&self.withdrawal_credentials);
        push_bytes(&mut chunks, &wc);
        push_u64_chunk(&mut chunks, self.effective_balance);
        push_bool_chunk(&mut chunks, self.slashed);
        push_u64_chunk(&mut chunks, self.activation_eligibility_epoch);
        push_u64_chunk(&mut chunks, self.activation_epoch);
        push_u64_chunk(&mut chunks, self.exit_epoch);
        push_u64_chunk(&mut chunks, self.withdrawable_epoch);
        assert(chunks@ =~= bytes_root(self.pubkey@) + bytes_root(self.withdrawal_credentials@)
            + u64_chunk(self.effective_balance) + bool_chunk(self.slashed) + u64_chunk(
            self.activation_eligibility_epoch,
        ) + u64_chunk(self.activation_epoch) + u64_chunk(self.exit_epoch) + u64_chunk(
            self.withdrawable_epoch,
        ));
        merkleize_fixed(&chunks)
    }
}

impl HashTreeRoot for Checkpoint {
    open spec fn root_spec(&self) -> Seq<u8> {
        checkpoint_root(*self)
    }

    fn hash_tree_root(&self) -> (r: Root) {
        let mut chunks: Vec<u8> = Vec::new();
        push_u64_chunk(&mut chunks, self.epoch);
        let root = fixed_bytes_root(&self.root);
        push_bytes(&mut chunks, &root);
        merkleize_fixed(&chunks)
    }
}

impl HashTreeRoot for AttestationData {
    open spec fn root_spec(&self) -> Seq<u8> {
        attestation_data_root(*self)
    }

    fn hash_tree_root(&self) -> (r: Root) {
        let mut chunks: Vec<u8> = Vec::new();
        push_u64_chunk(&mut chunks, self.slot);
        push_u64_chunk(&mut chunks, self.index);
        let block_root = fixed_bytes_root(&self.beacon_block_root);
        push_bytes(&mut chunks, &block_root);
        let source = self.source.hash_tree_root();
        push_bytes(&mut chunks, &source);
        let target = self.target.hash_tree_root();
        push_bytes(&mut chunks, &target);
        assert(chunks@ =~= u64_chunk(self.slot) + u64_chunk(self.index) + bytes_root(
            self.beacon_block_root@,
        ) + checkpoint_root(self.source) + checkpoint_root(self.target));
        merkleize_fixed(&chunks)
    }
}

impl HashTreeRoot for BeaconBlockHeader {
    open spec fn root_spec(&self) -> Seq<u8> {
        header_root(*self)
    }

    fn hash_tree_root(&self) -> (r: Root) {
        let mut chunks: Vec<u8> = Vec::new();
        push_u64_chunk(&mut chunks, self.slot);
        push_u64_chunk(&mut chunks, self.proposer_index as u64);
        let parent = fixed_bytes_root(&self.parent_root);
        push_bytes(&mut chunks, &parent);
        let state = fixed_bytes_root(&self.state_root);
        push_bytes(&mut chunks, &state);
        let body = fixed_bytes_root(&self.body_root);
        push_bytes(&mut chunks, &body);
        assert(chunks@ =~= u64_chunk(self.slot) + u64_chunk(self.proposer_index as u64) + bytes_root(
            self.parent_root@,
        ) + bytes_root(self.state_root@) + bytes_root(self.body_root@));
        merkleize_fixed(&chunks)
    }
}

/// The domain for `domain_type` under `fork_version` on the chain whose
/// genesis validators commit to `genesis_validators_root`.
pub fn compute_domain(domain_type: DomainType, fork_version: &Version, genesis_validators_root: &Root) -> (r: Domain)
    ensures
        r@ == domain_of(domain_type, fork_version@, genesis_validators_root@),
{
    let mut chunks: Vec<u8> = Vec::new();
    let version_root = fixed_bytes_root(fork_version);
    push_bytes(&mut chunks, &version_root);
    let gvr_root = fixed_bytes_root(genesis_validators_root);
    push_bytes(&mut chunks, &gvr_root);
    let fork_data = merkleize_fixed(&chunks);
    let tag = domain_type.as_bytes();
    let mut domain: [u8; 32] = [0u8; 32];
    let mut i: usize = 0;
    while i < 32
        invariant
            0 <= i <= 32,
            forall|j: int| 0 <= j < i ==> domain@[j] == (
                if j < 4 { tag@[j] } else { fork_data@[j - 4] }),
        decreases 32 - i,
    {
        if i < 4 {
            domain[i] = tag[i];
        } else {
            domain[i] = fork_data[i - 4];
        }
        i = i + 1;
    }
    assert(domain@ =~= domain_of(domain_type, fork_version@, genesis_validators_root@));
    domain
}

/// Domains for different purposes never coincide.
pub proof fn lemma_domain_type_separation(t1: DomainType, t2: DomainType, version: Seq<u8>, gvr: Seq<u8>)
    requires
        t1 != t2,
    ensures
        domain_of(t1, version, gvr) != domain_of(t2, version, gvr),
{
    assert(domain_of(t1, version, gvr).subrange(0, 4) =~= domain_type_bytes(t1));
    assert(domain_of(t2, version, gvr).subrange(0, 4) =~= domain_type_bytes(t2));
}

/// The fork version in force at `epoch`: the previous one before the fork's
/// activation epoch, the current one from then on.
pub open spec fn version_at(state: BeaconState, epoch: Epoch) -> Version {
    if epoch < state.fork.epoch {
        state.fork.previous_version
    } else {
        state.fork.current_version
    }
}

/// The domain of `domain_type` for a message of `epoch`.
pub fn domain_at_epoch(state: &BeaconState, domain_type: DomainType, epoch: Epoch) -> (r: Domain)
    ensures
        r@ == domain_of(domain_type, version_at(*state, epoch)@, state.genesis_validators_root@),
{
    let fork_version = if epoch < state.fork.epoch {
        &state.fork.previous_version
    } else {
        &state.fork.current_version
    };
    compute_domain(domain_type, fork_version, &state.genesis_validators_root)
}

/// The domain of `domain_type` at `epoch`, or at the state's current epoch.
pub fn get_domain(state: &BeaconState, domain_type: DomainType, epoch: Option<Epoch>, context: &Context) -> (r: Domain)
    requires
        context.slots_per_epoch > 0,
    ensures
        r@ == domain_of(
            domain_type,
            version_at(
                *state,
                match epoch {
                    Some(e) => e,
                    None => epoch_at_slot(state.slot, context.slots_per_epoch),
                },
            )@,
            state.genesis_validators_root@,
        ),
{
    let epoch = match epoch {
        Some(e) => e,
        None => get_current_epoch(state, context),
    };
    domain_at_epoch(state, domain_type, epoch)
}

/// The root signed for an object whose root is `object_root`.
pub fn signing_root_from(object_root: &Root, domain: &Domain) -> (r: Root)
    ensures
        r@ == signing_root(object_root@, domain@),
{
    let mut chunks: Vec<u8> = Vec::new();
    let o = fixed_bytes_root(object_root);
    push_bytes(&mut chunks, &o);
    let d = fixed_bytes_root(domain);
    push_bytes(&mut chunks, &d);
    merkleize_fixed(&chunks)
}

/// The root signed for `ssz_object` under `domain`.
pub fn compute_signing_root<T: HashTreeRoot>(ssz_object: &T, domain: Domain) -> (r: Root)
    ensures
        r@ == signing_root(ssz_object.root_spec(), domain@),
{
    let object_root = ssz_object.hash_tree_root();
    signing_root_from(&object_root, &domain)
}

} // verus!
