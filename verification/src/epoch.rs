//! The epoch resolver: pins the one epoch a request is evaluated against
//! before any epoch-sensitive query is issued.

use vstd::prelude::*;
use crate::error::ApiError;

verus! {

/// How a request's epoch gets pinned.
#[derive(Debug, Clone, Copy, PartialEq, Eq, Structural)]
pub enum EpochResolution {
    /// The caller supplied an epoch; it is used unchanged, unvalidated.
    Resolved(u64),
    /// No epoch was supplied; exactly one "current epoch" query is needed.
    NeedQuery,
}

/// Resolves an optional caller-supplied epoch: a present value is returned
/// unchanged, an absent one asks for one "current epoch" query.
pub fn resolve_epoch_request(maybe_epoch: Option<u64>) -> (r: EpochResolution)
    ensures
        r == match maybe_epoch {
            Some(e) => EpochResolution::Resolved(e),
            None => EpochResolution::NeedQuery,
        },
{
    match maybe_epoch {
        Some(e) => EpochResolution::Resolved(e),
        None => EpochResolution::NeedQuery,
    }
}

/// Adopts the answer of the "current epoch" query: the epoch on success, a
/// query failure carrying the upstream message otherwise. No retry.
pub fn epoch_from_query(outcome: Result<u64, String>) -> (r: Result<u64, ApiError>)
    ensures
        outcome matches Ok(e) ==> r == Ok::<u64, ApiError>(e),
        outcome matches Err(m) ==> (r matches Err(e) && e matches ApiError::QueryError(q) && q@
            == m@),
{
    match outcome {
        Ok(e) => Ok(e),
        Err(m) => Err(ApiError::QueryError(m)),
    }
}

} // verus!
