//! The versioned schema table: which modules each protocol version
//! redefines, and which inherited functions it drops.
use vstd::prelude::*;
use vstd::string::StringSliceAdditionalSpecFns;

verus! {

/// A protocol version, in activation order.
#[derive(Debug, Clone, Copy, PartialEq, Eq, Hash)]
pub enum Fork {
    Phase0,
    Altair,
    Bellatrix,
    Capella,
}

pub open spec fn fork_name(f: Fork) -> &'static str {
    match f {
        Fork::Phase0 => "phase0",
        Fork::Altair => "altair",
        Fork::Bellatrix => "bellatrix",
        Fork::Capella => "capella",
    }
}

/// The modules a version defines afresh; everything else is inherited.
pub open spec fn fork_modules(f: Fork) -> Seq<&'static str> {
    match f {
        Fork::Phase0 => seq![
            "beacon_block",
            "beacon_state",
            "block_processing",
            "constants",
            "epoch_processing",
            "fork",
            "genesis",
            "helpers",
            "operations",
            "slot_processing",
            "state_transition",
            "validator",
        ],
        Fork::Altair => seq![
            "beacon_block",
            "beacon_state",
            "block_processing",
            "constants",
            "epoch_processing",
            "fork",
            "genesis",
            "helpers",
            "light_client",
            "sync",
            "validator",
        ],
        Fork::Bellatrix => seq![
            "beacon_block",
            "beacon_state",
            "blinded_beacon_block",
            "block_processing",
            "epoch_processing",
            "execution",
            "fork_choice",
            "fork",
            "genesis",
            "helpers",
            "state_transition",
        ],
        Fork::Capella => seq![
            "beacon_block",
            "beacon_state",
            "blinded_beacon_block",
            "bls_to_execution_change",
            "epoch_processing",
            "execution",
            "helpers",
            "withdrawal",
        ],
    }
}

/// Inherited functions a version drops rather than carries forward.
pub open spec fn dropped_fns(f: Fork) -> Seq<&'static str> {
    match f {
        Fork::Phase0 => seq![],
        Fork::Altair => seq![
            "get_unslashed_attesting_indices",
            "get_matching_source_attestations",
            "get_matching_target_attestations",
            "get_matching_head_attestations",
            "get_source_deltas",
            "get_target_deltas",
            "get_head_deltas",
            "get_inclusion_delay_deltas",
            "get_inactivity_penalty_deltas",
            "get_attestation_deltas",
            "get_attestation_component_deltas",
            "get_attesting_balance",
            "process_participation_record_updates",
        ],
        Fork::Bellatrix => seq!["upgrade_to_altair", "translate_participation"],
        Fork::Capella => seq!["upgrade_to_bellatrix"],
    }
}

/// Byte-wise equality of two strings.
pub fn str_eq(a: &str, b: &str) -> (r: bool)
    ensures
        r == (a.spec_bytes() == b.spec_bytes()),
{
    let x = a.as_bytes();
    let y = b.as_bytes();
    if x.len() != y.len() {
        return false;
    }
    let mut i: usize = 0;
    while i < x.len()
        invariant
            0 <= i <= x@.len(),
            x@.len() == y@.len(),
            x@ == a.spec_bytes(),
            y@ == b.spec_bytes(),
            forall|j: int| 0 <= j < i ==> x@[j] == y@[j],
        decreases x@.len() - i,
    {
        if x[i] != y[i] {
            assert(x@[i as int] != y@[i as int]);
            return false;
        }
        i = i + 1;
    }
    assert(x@ =~= y@);
    true
}

impl Fork {
    /// The version's lower-case name, as its module is called.
    pub fn name(&self) -> (r: String)
        ensures
            r@ == fork_name(*self)@,
    {
        match self {
            Fork::Phase0 => "phase0".to_owned(),
            Fork::Altair => "altair".to_owned(),
            Fork::Bellatrix => "bellatrix".to_owned(),
            Fork::Capella => "capella".to_owned(),
        }
    }

    pub fn modules_in_diff(&self) -> (r: Vec<&'static str>)
        ensures
            r@ == fork_modules(*self),
    {
        let r = match self {
            Fork::Phase0 => vec![
                "beacon_block",
                "beacon_state",
                "block_processing",
                "constants",
                "epoch_processing",
                "fork",
                "genesis",
                "helpers",
                "operations",
                "slot_processing",
                "state_transition",
                "validator",
            ],
            Fork::Altair => vec![
                "beacon_block",
                "beacon_state",
                "block_processing",
                "constants",
                "epoch_processing",
                "fork",
                "genesis",
                "helpers",
                "light_client",
                "sync",
                "validator",
            ],
            Fork::Bellatrix => vec![
                "beacon_block",
                "beacon_state",
                "blinded_beacon_block",
                "block_processing",
                "epoch_processing",
                "execution",
                "fork_choice",
                "fork",
                "genesis",
                "helpers",
                "state_transition",
            ],
            Fork::Capella => vec![
                "beacon_block",
                "beacon_state",
                "blinded_beacon_block",
                "bls_to_execution_change",
                "epoch_processing",
                "execution",
                "helpers",
                "withdrawal",
            ],
        };
        assert(r@ =~= fork_modules(*self));
        r
    }

    fn dropped_fn_names(&self) -> (r: Vec<&'static str>)
        ensures
            r@ == dropped_fns(*self),
    {
        let r = match self {
            Fork::Phase0 => vec![],
            Fork::Altair => vec![
                "get_unslashed_attesting_indices",
                "get_matching_source_attestations",
                "get_matching_target_attestations",
                "get_matching_head_attestations",
                "get_source_deltas",
                "get_target_deltas",
                "get_head_deltas",
                "get_inclusion_delay_deltas",
                "get_inactivity_penalty_deltas",
                "get_attestation_deltas",
                "get_attestation_component_deltas",
                "get_attesting_balance",
                "process_participation_record_updates",
            ],
            Fork::Bellatrix => vec!["upgrade_to_altair", "translate_participation"],
            Fork::Capella => vec!["upgrade_to_bellatrix"],
        };
        assert(r@ =~= dropped_fns(*self));
        r
    }

    /// Whether this version drops the inherited function called `name`.
    pub fn should_filter_fn_by_name(&self, name: &str) -> (r: bool)
        ensures
            r == exists|i: int|
                0 <= i < dropped_fns(*self).len() && (#[trigger] dropped_fns(*self)[i]).spec_bytes()
                    == name.spec_bytes(),
    {
        let names = self.dropped_fn_names();
        let mut k: usize = 0;
        while k < names.len()
            invariant
                0 <= k <= names@.len(),
                names@ == dropped_fns(*self),
                forall|i: int| 0 <= i < k ==> (#[trigger] names@[i]).spec_bytes() != name.spec_bytes(),
            decreases names@.len() - k,
        {
            if str_eq(names[k], name) {
                return true;
            }
            k = k + 1;
        }
        false
    }
}

} // verus!
