//! Data model of the proof-of-stake views the gateway serves: liveness
//! records, validator state tags, metadata, commission terms, and the
//! response shapes assembled from them.

use vstd::prelude::*;

verus! {

/// Liveness of one validator: its chain-native address, its consensus-layer
/// address, and how many votes it missed within the liveness window.
#[derive(Debug, Clone)]
pub struct ValidatorLiveness {
    pub native_address: String,
    pub comet_address: String,
    pub missed_votes: u64,
}

/// The liveness snapshot of an epoch: the window length, the liveness
/// threshold as an exact decimal rendered as text, and one record per
/// validator.
#[derive(Debug, Clone)]
pub struct LivenessInfoResponse {
    pub liveness_window_len: u64,
    pub liveness_threshold: String,
    pub validators: Vec<ValidatorLiveness>,
}

/// A single chain-native validator address.
#[derive(Debug, Clone)]
pub struct ValidatorResponse {
    pub address: String,
}

/// The finite tag set of a validator's state. A chain answer without a state
/// is kept as `None` upstream and only flattened to text at assembly.
#[derive(Debug, Clone, Copy, PartialEq, Eq, Structural)]
pub enum ValidatorState {
    Consensus,
    BelowCapacity,
    BelowThreshold,
    Inactive,
    Jailed,
}

impl ValidatorState {
    /// The stable display text of each tag.
    pub open spec fn spec_label(&self) -> Seq<char> {
        match self {
            ValidatorState::Consensus => "Consensus"@,
            ValidatorState::BelowCapacity => "BelowCapacity"@,
            ValidatorState::BelowThreshold => "BelowThreshold"@,
            ValidatorState::Inactive => "Inactive"@,
            ValidatorState::Jailed => "Jailed"@,
        }
    }

    pub fn label(&self) -> (s: String)
        ensures
            s@ == self.spec_label(),
    {
        match self {
            ValidatorState::Consensus => String::from_str("Consensus"),
            ValidatorState::BelowCapacity => String::from_str("BelowCapacity"),
            ValidatorState::BelowThreshold => String::from_str("BelowThreshold"),
            ValidatorState::Inactive => String::from_str("Inactive"),
            ValidatorState::Jailed => String::from_str("Jailed"),
        }
    }
}

/// The display text of an optional state: the tag's label, or `"unknown"`
/// where the chain reported none.
pub open spec fn spec_state_label(st: Option<ValidatorState>) -> Seq<char> {
    match st {
        Some(s) => s.spec_label(),
        None => "unknown"@,
    }
}

pub fn state_label(st: &Option<ValidatorState>) -> (s: String)
    ensures
        s@ == spec_state_label(*st),
{
    match st {
        Some(v) => v.label(),
        None => String::from_str("unknown"),
    }
}

/// Descriptive fields a validator may publish; each individually optional.
#[derive(Debug, Clone)]
pub struct ValidatorMetadata {
    pub email: Option<String>,
    pub description: Option<String>,
    pub website: Option<String>,
    pub discord_handle: Option<String>,
    pub name: Option<String>,
    pub avatar: Option<String>,
}

/// Commission terms of a validator: an optional rate and an optional largest
/// change per epoch, each an exact decimal rendered as text. Absence is
/// distinct from zero and is only flattened at assembly.
#[derive(Debug, Clone)]
pub struct CommissionInfo {
    pub commission_rate: Option<String>,
    pub max_commission_change_per_epoch: Option<String>,
}

/// The denormalized record served for one validator.
#[derive(Debug, Clone)]
pub struct ValidatorDetailsResponse {
    pub address: String,
    pub state: String,
    pub stake: String,
    pub commission_rate: String,
    pub max_commission_change_per_epoch: String,
    pub metadata: Option<ValidatorMetadata>,
}

/// One delegation entry: a validator address and the delegated amount.
#[derive(Debug, Clone)]
pub struct Delegation {
    pub validator: String,
    pub amount: String,
}

/// The delegations of an owner.
#[derive(Debug, Clone)]
pub struct DelegationsResponse {
    pub delegations: Vec<Delegation>,
}

/// A validator address paired with its bonded stake, rendered as text.
#[derive(Debug, Clone)]
pub struct WeightedValidatorResponse {
    pub address: String,
    pub stake: String,
}

/// A weighted validator set, in the order the chain reports it.
#[derive(Debug, Clone)]
pub struct ValidatorSetResponse {
    pub validators: Vec<WeightedValidatorResponse>,
}

/// Builds the delegations view of an owner from the validators it delegates
/// to. The chain query names the validators only, so every amount reads "0".
pub fn delegations_response(validators: Vec<String>) -> (r: DelegationsResponse)
    ensures
        r.delegations@.len() == validators@.len(),
        forall|i: int|
            0 <= i < validators@.len() ==> {
                &&& (#[trigger] r.delegations@[i]).validator@ == validators@[i]@
                &&& r.delegations@[i].amount@ == "0"@
            },
{
    let mut delegations: Vec<Delegation> = Vec::new();
    let n = validators.len();
    let mut i: usize = 0;
    while i < n
        invariant
            i <= n,
            n == validators@.len(),
            delegations@.len() == i,
            forall|j: int|
                0 <= j < i ==> {
                    &&& (#[trigger] delegations@[j]).validator@ == validators@[j]@
                    &&& delegations@[j].amount@ == "0"@
                },
        decreases n - i,
    {
        delegations.push(
            Delegation { validator: validators[i].clone(), amount: String::from_str("0") },
        );
        i += 1;
    }
    DelegationsResponse { delegations }
}

} // verus!
