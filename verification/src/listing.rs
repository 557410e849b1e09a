//! The paged validator listing: validates the page query, pins one epoch,
//! slices the ordered address list, and aggregates every address on the page
//! under that same epoch.
//!
//! Like the single-validator lookup, the listing is a step machine: each
//! non-final step names the one chain query needed next, and the I/O layer
//! hands the answer to the matching transition. A rejected query never
//! reaches a chain-querying step.

use vstd::prelude::*;
use crate::aggregator::{FieldsAtEpoch, assemble_detail, spec_assembled, spec_epoch_mismatch_msg};
use crate::error::ApiError;
use crate::pagination::{
    MAX_PER_PAGE, Pagination, ValidatorsQuery, paginate, spec_exceeds_msg, spec_page_slice,
    spec_total_pages,
};
use crate::pos::ValidatorDetailsResponse;

verus! {

/// One page of denormalized validator records beside its pagination footing.
pub struct ValidatorsDetailsPage {
    pub validators: Vec<ValidatorDetailsResponse>,
    pub pagination: Pagination,
}

/// One step of a paged validator listing.
pub enum ListingStep {
    /// The page query was rejected; no chain query is to be issued.
    Rejected(ApiError),
    /// Next: one "current epoch" query.
    NeedEpoch { page: u32, per_page: u32 },
    /// Next: the full ordered validator address list, at `epoch`.
    NeedAddresses { page: u32, per_page: u32, epoch: u64 },
    /// Next: the field queries for `pending[collected.len()]`, at `epoch`.
    Collecting {
        epoch: u64,
        pagination: Pagination,
        pending: Vec<String>,
        collected: Vec<ValidatorDetailsResponse>,
    },
    /// The listing ended.
    Finished(Result<ValidatorsDetailsPage, ApiError>),
}

/// Starts a listing. An out-of-range page index or page size is rejected
/// here, before any chain query is issued; absent parameters take their
/// defaults.
pub fn begin_listing(query: &ValidatorsQuery) -> (step: ListingStep)
    ensures
        query.spec_valid() ==> (step matches ListingStep::NeedEpoch { page, per_page } && page
            == query.spec_page_or_default() && per_page == query.spec_per_page_or_default()),
        !query.spec_valid() ==> (step matches ListingStep::Rejected(e)
            && e matches ApiError::InvalidPagination(_)),
        query.page == Some(0u32) ==> (step matches ListingStep::Rejected(e)
            && e matches ApiError::InvalidPagination(m) && m@
            == "Page number must be greater than 0"@),
        query.page != Some(0u32) && query.per_page == Some(0u32) ==> (step
            matches ListingStep::Rejected(e) && e matches ApiError::InvalidPagination(m) && m@
            == "Items per page must be greater than 0"@),
        query.page != Some(0u32) && (query.per_page matches Some(pp) && pp > MAX_PER_PAGE) ==> (step
            matches ListingStep::Rejected(e) && e matches ApiError::InvalidPagination(m) && m@
            == "Items per page cannot exceed 50"@),
{
    match query.validate() {
        Err(e) => ListingStep::Rejected(e),
        Ok(()) => ListingStep::NeedEpoch {
            page: query.page_or_default(),
            per_page: query.per_page_or_default(),
        },
    }
}

/// Adopts the answer of the "current epoch" query: the listing proceeds to
/// the address list under the now-pinned epoch, or ends with the query
/// failure.
pub fn listing_on_epoch(step: ListingStep, outcome: Result<u64, String>) -> (next: ListingStep)
    requires
        step matches ListingStep::NeedEpoch { .. },
    ensures
        step matches ListingStep::NeedEpoch { page, per_page } ==> match outcome {
            Ok(e) => next matches ListingStep::NeedAddresses {
                page: p,
                per_page: pp,
                epoch,
            } && p == page && pp == per_page && epoch == e,
            Err(m) => next matches ListingStep::Finished(r) && r matches Err(err)
                && err matches ApiError::QueryError(q) && q@ == m@,
        },
{
    match step {
        ListingStep::NeedEpoch { page, per_page } => match outcome {
            Ok(e) => ListingStep::NeedAddresses { page, per_page, epoch: e },
            Err(m) => ListingStep::Finished(Err(ApiError::QueryError(m))),
        },
        other => other,
    }
}

/// Adopts the ordered address list and slices it into the requested page.
///
/// A page index past the last page is rejected, naming the requested and the
/// available page count. An accepted empty page finishes at once; a
/// non-empty one proceeds to collect each address's fields under the pinned
/// epoch, in page order.
pub fn listing_on_addresses(step: ListingStep, outcome: Result<Vec<String>, String>) -> (next:
    ListingStep)
    requires
        step matches ListingStep::NeedAddresses { page, per_page, .. } && page >= 1 && 1 <= per_page
            <= MAX_PER_PAGE,
    ensures
        step matches ListingStep::NeedAddresses { page, per_page, epoch } ==> match outcome {
            Ok(addresses) => {
                let tp = spec_total_pages(addresses@.len() as int, per_page as int);
                let slice = spec_page_slice(addresses@, page as int, per_page as int);
                let footing = Pagination {
                    total: addresses@.len() as u64,
                    page,
                    per_page,
                    total_pages: tp as u64,
                };
                if tp > 0 && page > tp {
                    next matches ListingStep::Finished(r) && r matches Err(err)
                        && err matches ApiError::InvalidPagination(m) && m@ == spec_exceeds_msg(
                        page as int,
                        tp,
                    )
                } else if slice.len() == 0 {
                    next matches ListingStep::Finished(r) && r matches Ok(pg)
                        && pg.validators@.len() == 0 && pg.pagination == footing
                } else {
                    next matches ListingStep::Collecting {
                        epoch: e,
                        pagination,
                        pending,
                        collected,
                    } && e == epoch && pagination == footing && pending@ == slice
                        && collected@.len() == 0
                }
            },
            Err(m) => next matches ListingStep::Finished(r) && r matches Err(err)
                && err matches ApiError::QueryError(q) && q@ == m@,
        },
{
    match step {
        ListingStep::NeedAddresses { page, per_page, epoch } => match outcome {
            Ok(addresses) => match paginate(&addresses, page, per_page) {
                Err(e) => ListingStep::Finished(Err(e)),
                Ok((pending, pagination)) => {
                    if pending.len() == 0 {
                        ListingStep::Finished(
                            Ok(ValidatorsDetailsPage { validators: Vec::new(), pagination }),
                        )
                    } else {
                        ListingStep::Collecting {
                            epoch,
                            pagination,
                            pending,
                            collected: Vec::new(),
                        }
                    }
                },
            },
            Err(m) => ListingStep::Finished(Err(ApiError::QueryError(m))),
        },
        other => other,
    }
}

/// Adopts the field answers for the next pending address of the page.
///
/// The record is assembled exactly when every answer carries the pinned
/// epoch, so all records of one page answer for the same epoch; answers of
/// diverging epochs end the listing in `InternalError`. A failed query ends
/// it with the upstream message: no partial page is ever returned.
pub fn listing_on_fields(step: ListingStep, outcome: Result<FieldsAtEpoch, String>) -> (next:
    ListingStep)
    requires
        step matches ListingStep::Collecting { pending, collected, .. } && collected@.len()
            < pending@.len(),
    ensures
        step matches ListingStep::Collecting { epoch, pagination, pending, collected } ==> match outcome {
            Ok(f) => {
                if f.spec_at_epoch(epoch) {
                    if collected@.len() + 1 == pending@.len() {
                        next matches ListingStep::Finished(r) && r matches Ok(pg) && pg.pagination
                            == pagination && pg.validators@.len() == pending@.len() && (forall|
                            i: int,
                        |
                            0 <= i < collected@.len() ==> pg.validators@[i] == collected@[i])
                            && spec_assembled(
                            pending@[collected@.len() as int]@,
                            f,
                            pg.validators@[collected@.len() as int],
                        )
                    } else {
                        next matches ListingStep::Collecting {
                            epoch: e,
                            pagination: p,
                            pending: pd,
                            collected: c,
                        } && e == epoch && p == pagination && pd@ == pending@ && c@.len()
                            == collected@.len() + 1 && (forall|i: int|
                            0 <= i < collected@.len() ==> c@[i] == collected@[i])
                            && spec_assembled(
                            pending@[collected@.len() as int]@,
                            f,
                            c@[collected@.len() as int],
                        )
                    }
                } else {
                    next matches ListingStep::Finished(r) && r matches Err(err)
                        && err matches ApiError::InternalError(m) && m@
                        == spec_epoch_mismatch_msg()
                }
            },
            Err(m) => next matches ListingStep::Finished(r) && r matches Err(err)
                && err matches ApiError::QueryError(q) && q@ == m@,
        },
        // A page only ever grows, or finishes whole, with a record whose
        // answers all carry the pinned epoch.
        step matches ListingStep::Collecting { epoch, .. } ==> ((next
            matches ListingStep::Collecting { .. } || (next matches ListingStep::Finished(r)
            && r is Ok)) ==> (outcome matches Ok(f) && f.spec_at_epoch(epoch))),
{
    match step {
        ListingStep::Collecting { epoch, pagination, pending, collected } => match outcome {
            Ok(f) => {
                if f.state_epoch == epoch && f.stake_epoch == epoch && f.meta_epoch == epoch {
                    let mut collected = collected;
                    let idx = collected.len();
                    let record = assemble_detail(pending[idx].clone(), &f);
                    collected.push(record);
                    if collected.len() == pending.len() {
                        ListingStep::Finished(
                            Ok(ValidatorsDetailsPage { validators: collected, pagination }),
                        )
                    } else {
                        ListingStep::Collecting { epoch, pagination, pending, collected }
                    }
                } else {
                    ListingStep::Finished(
                        Err(
                            ApiError::InternalError(
                                String::from_str("epoch mismatch across validator fields"),
                            ),
                        ),
                    )
                }
            },
            Err(m) => ListingStep::Finished(Err(ApiError::QueryError(m))),
        },
        other => other,
    }
}

} // verus!
