//! The validator aggregator: composes membership, state, stake, metadata and
//! commission — all pinned to one resolved epoch — into a single denormalized
//! record.
//!
//! The aggregation is written as a step machine. Each step names the one
//! chain query that is needed next; the surrounding I/O layer performs the
//! query and hands the answer back to the matching transition. The epoch is
//! pinned in the step itself, so every epoch-sensitive answer is checked
//! against it and a record can only be assembled from answers of that one
//! epoch.

use vstd::prelude::*;
use crate::error::ApiError;
use crate::pos::{
    CommissionInfo, ValidatorDetailsResponse, ValidatorMetadata, ValidatorState, spec_state_label,
    state_label,
};

verus! {

/// The answers of the three independent field queries for one validator,
/// each tagged with the epoch the chain evaluated it at.
#[derive(Debug, Clone)]
pub struct FieldsAtEpoch {
    pub state_epoch: u64,
    pub state: Option<ValidatorState>,
    pub stake_epoch: u64,
    pub stake: String,
    pub meta_epoch: u64,
    pub metadata: Option<ValidatorMetadata>,
    pub commission: CommissionInfo,
}

impl FieldsAtEpoch {
    /// All three answers were evaluated at `epoch`.
    pub open spec fn spec_at_epoch(&self, epoch: u64) -> bool {
        self.state_epoch == epoch && self.stake_epoch == epoch && self.meta_epoch == epoch
    }
}

/// A commission figure as displayed: the value, or `"0"` where none is set.
/// The flattening happens only here, at assembly; `CommissionInfo` upstream
/// keeps absence distinct from zero.
pub open spec fn spec_or_zero(o: Option<Seq<char>>) -> Seq<char> {
    match o {
        Some(s) => s,
        None => "0"@,
    }
}

fn or_zero(o: &Option<String>) -> (s: String)
    ensures
        s@ == spec_or_zero(o.deep_view()),
{
    match o {
        Some(v) => v.clone(),
        None => String::from_str("0"),
    }
}

fn clone_opt_string(o: &Option<String>) -> (r: Option<String>)
    ensures
        r.deep_view() == o.deep_view(),
{
    match o {
        Some(v) => Some(v.clone()),
        None => None,
    }
}

/// Field-for-field agreement of two metadata values.
pub open spec fn spec_same_metadata(a: ValidatorMetadata, b: ValidatorMetadata) -> bool {
    &&& a.email.deep_view() == b.email.deep_view()
    &&& a.description.deep_view() == b.description.deep_view()
    &&& a.website.deep_view() == b.website.deep_view()
    &&& a.discord_handle.deep_view() == b.discord_handle.deep_view()
    &&& a.name.deep_view() == b.name.deep_view()
    &&& a.avatar.deep_view() == b.avatar.deep_view()
}

fn clone_metadata(m: &Option<ValidatorMetadata>) -> (r: Option<ValidatorMetadata>)
    ensures
        match (r, *m) {
            (Some(a), Some(b)) => spec_same_metadata(a, b),
            (None, None) => true,
            _ => false,
        },
{
    match m {
        Some(v) => Some(
            ValidatorMetadata {
                email: clone_opt_string(&v.email),
                description: clone_opt_string(&v.description),
                website: clone_opt_string(&v.website),
                discord_handle: clone_opt_string(&v.discord_handle),
                name: clone_opt_string(&v.name),
                avatar: clone_opt_string(&v.avatar),
            },
        ),
        None => None,
    }
}

/// `d` is the record assembled from `address` and the field answers `f`:
/// the state flattened to its display label (`"unknown"` when the chain
/// reported none), the stake kept as its exact decimal text, each absent
/// commission figure displayed as `"0"`, and the metadata carried over
/// entirely absent when the chain reported none.
pub open spec fn spec_assembled(
    address: Seq<char>,
    f: FieldsAtEpoch,
    d: ValidatorDetailsResponse,
) -> bool {
    &&& d.address@ == address
    &&& d.state@ == spec_state_label(f.state)
    &&& d.stake@ == f.stake@
    &&& d.commission_rate@ == spec_or_zero(f.commission.commission_rate.deep_view())
    &&& d.max_commission_change_per_epoch@ == spec_or_zero(
        f.commission.max_commission_change_per_epoch.deep_view(),
    )
    &&& match (d.metadata, f.metadata) {
        (Some(a), Some(b)) => spec_same_metadata(a, b),
        (None, None) => true,
        _ => false,
    }
}

/// Assembles the denormalized record for one validator from its field
/// answers.
pub fn assemble_detail(address: String, fields: &FieldsAtEpoch) -> (d: ValidatorDetailsResponse)
    ensures
        spec_assembled(address@, *fields, d),
{
    ValidatorDetailsResponse {
        address,
        state: state_label(&fields.state),
        stake: fields.stake.clone(),
        commission_rate: or_zero(&fields.commission.commission_rate),
        max_commission_change_per_epoch: or_zero(
            &fields.commission.max_commission_change_per_epoch,
        ),
        metadata: clone_metadata(&fields.metadata),
    }
}

/// The not-found text for an address outside the validator set.
pub open spec fn spec_not_validator_msg(address: Seq<char>) -> Seq<char> {
    "Address "@ + address + " is not a validator"@
}

/// The internal-error text for field answers of diverging epochs.
pub open spec fn spec_epoch_mismatch_msg() -> Seq<char> {
    "epoch mismatch across validator fields"@
}

/// One step of a validator-detail lookup. Each non-final step names the one
/// chain query needed next; the epoch pinned at resolution travels with the
/// step.
pub enum DetailStep {
    /// Next: one "current epoch" query.
    NeedEpoch { address: String },
    /// Next: the validator-set membership query for `address`.
    NeedMembership { address: String, epoch: u64 },
    /// Next: the state, stake and metadata+commission queries for `address`,
    /// all at `epoch`; they are mutually independent and may run in parallel.
    NeedFields { address: String, epoch: u64 },
    /// The lookup ended.
    Finished(Result<ValidatorDetailsResponse, ApiError>),
}

/// Starts a detail lookup: a supplied epoch is pinned unchanged, an absent
/// one is resolved by a single "current epoch" query before anything
/// epoch-sensitive is asked.
pub fn begin_detail(address: String, maybe_epoch: Option<u64>) -> (step: DetailStep)
    ensures
        maybe_epoch matches Some(e) ==> (step matches DetailStep::NeedMembership {
            address: a,
            epoch,
        } && a@ == address@ && epoch == e),
        maybe_epoch is None ==> (step matches DetailStep::NeedEpoch { address: a } && a@
            == address@),
{
    match maybe_epoch {
        Some(e) => DetailStep::NeedMembership { address, epoch: e },
        None => DetailStep::NeedEpoch { address },
    }
}

/// Adopts the answer of the "current epoch" query: the lookup proceeds to the
/// membership gate under the now-pinned epoch, or ends with the query failure.
pub fn detail_on_epoch(step: DetailStep, outcome: Result<u64, String>) -> (next: DetailStep)
    requires
        step matches DetailStep::NeedEpoch { .. },
    ensures
        step matches DetailStep::NeedEpoch { address } ==> match outcome {
            Ok(e) => next matches DetailStep::NeedMembership { address: a, epoch } && a@
                == address@ && epoch == e,
            Err(m) => next matches DetailStep::Finished(r) && r matches Err(err)
                && err matches ApiError::QueryError(q) && q@ == m@,
        },
{
    match step {
        DetailStep::NeedEpoch { address } => match outcome {
            Ok(e) => DetailStep::NeedMembership { address, epoch: e },
            Err(m) => DetailStep::Finished(Err(ApiError::QueryError(m))),
        },
        _ => step,
    }
}

/// Adopts the answer of the membership query. An address outside the
/// validator set ends the lookup at once with `NotFound`: the field queries
/// are never reached for it.
pub fn detail_on_membership(step: DetailStep, outcome: Result<bool, String>) -> (next: DetailStep)
    requires
        step matches DetailStep::NeedMembership { .. },
    ensures
        step matches DetailStep::NeedMembership { address, epoch } ==> match outcome {
            Ok(true) => next matches DetailStep::NeedFields { address: a, epoch: e } && a@
                == address@ && e == epoch,
            Ok(false) => next matches DetailStep::Finished(r) && r matches Err(err)
                && err matches ApiError::NotFound(m) && m@ == spec_not_validator_msg(address@),
            Err(m) => next matches DetailStep::Finished(r) && r matches Err(err)
                && err matches ApiError::QueryError(q) && q@ == m@,
        },
{
    match step {
        DetailStep::NeedMembership { address, epoch } => match outcome {
            Ok(true) => DetailStep::NeedFields { address, epoch },
            Ok(false) => {
                let msg = String::from_str("Address ").concat(address.as_str()).concat(
                    " is not a validator",
                );
                DetailStep::Finished(Err(ApiError::NotFound(msg)))
            },
            Err(m) => DetailStep::Finished(Err(ApiError::QueryError(m))),
        },
        _ => step,
    }
}

/// Adopts the answers of the three field queries and ends the lookup.
///
/// A record is assembled exactly when every answer was evaluated at the
/// pinned epoch; answers of diverging epochs are an aggregation invariant
/// violation and end in `InternalError`, never in a mixed record. A failed
/// query ends in `QueryError` with the upstream message: no partial record
/// is ever returned.
pub fn detail_on_fields(step: DetailStep, outcome: Result<FieldsAtEpoch, String>) -> (next:
    DetailStep)
    requires
        step matches DetailStep::NeedFields { .. },
    ensures
        step matches DetailStep::NeedFields { address, epoch } ==> match outcome {
            Ok(f) => {
                if f.spec_at_epoch(epoch) {
                    next matches DetailStep::Finished(r) && r matches Ok(d) && spec_assembled(
                        address@,
                        f,
                        d,
                    )
                } else {
                    next matches DetailStep::Finished(r) && r matches Err(err)
                        && err matches ApiError::InternalError(m) && m@
                        == spec_epoch_mismatch_msg()
                }
            },
            Err(m) => next matches DetailStep::Finished(r) && r matches Err(err)
                && err matches ApiError::QueryError(q) && q@ == m@,
        },
        // A record is only ever finished from answers that all carry the
        // pinned epoch.
        (next matches DetailStep::Finished(r) && r is Ok) ==> (step
            matches DetailStep::NeedFields { address, epoch } && outcome matches Ok(f)
            && f.spec_at_epoch(epoch)),
{
    match step {
        DetailStep::NeedFields { address, epoch } => match outcome {
            Ok(f) => {
                if f.state_epoch == epoch && f.stake_epoch == epoch && f.meta_epoch == epoch {
                    DetailStep::Finished(Ok(assemble_detail(address, &f)))
                } else {
                    DetailStep::Finished(
                        Err(
                            ApiError::InternalError(
                                String::from_str("epoch mismatch across validator fields"),
                            ),
                        ),
                    )
                }
            },
            Err(m) => DetailStep::Finished(Err(ApiError::QueryError(m))),
        },
        _ => step,
    }
}

} // verus!
