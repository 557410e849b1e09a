use namada_gateway::aggregator::FieldsAtEpoch;
use namada_gateway::error::ApiError;
use namada_gateway::listing::{
    begin_listing, listing_on_addresses, listing_on_epoch, listing_on_fields, ListingStep,
};
use namada_gateway::pagination::ValidatorsQuery;
use namada_gateway::pos::CommissionInfo;

fn fields(epoch: u64, stake: &str) -> FieldsAtEpoch {
    FieldsAtEpoch {
        state_epoch: epoch,
        state: None,
        stake_epoch: epoch,
        stake: stake.to_string(),
        meta_epoch: epoch,
        metadata: None,
        commission: CommissionInfo {
            commission_rate: None,
            max_commission_change_per_epoch: None,
        },
    }
}

#[test]
fn test_listing_rejects_before_any_query() {
    let oversized = ValidatorsQuery { page: Some(1), per_page: Some(100) };
    match begin_listing(&oversized) {
        ListingStep::Rejected(ApiError::InvalidPagination(m)) => {
            assert_eq!(m, "Items per page cannot exceed 50");
        }
        _ => panic!("an oversized per_page must be rejected before any chain call"),
    }
    let zero_page = ValidatorsQuery { page: Some(0), per_page: Some(10) };
    match begin_listing(&zero_page) {
        ListingStep::Rejected(ApiError::InvalidPagination(m)) => {
            assert_eq!(m, "Page number must be greater than 0");
        }
        _ => panic!("page 0 must be rejected before any chain call"),
    }
}

#[test]
fn test_listing_full_flow_single_epoch() {
    let query = ValidatorsQuery { page: None, per_page: None };
    let step = match begin_listing(&query) {
        ListingStep::NeedEpoch { page, per_page } => {
            assert_eq!((page, per_page), (1, 10));
            listing_on_epoch(ListingStep::NeedEpoch { page, per_page }, Ok(9))
        }
        _ => panic!("a valid query proceeds to the epoch query"),
    };
    let addrs = vec!["tnam1a".to_string(), "tnam1b".to_string(), "tnam1c".to_string()];
    let mut step = match step {
        ListingStep::NeedAddresses { page, per_page, epoch } => {
            assert_eq!(epoch, 9);
            listing_on_addresses(
                ListingStep::NeedAddresses { page, per_page, epoch },
                Ok(addrs.clone()),
            )
        }
        _ => panic!("the pinned epoch leads to the address list"),
    };
    let stakes = ["10", "20", "30"];
    let mut asked = 0usize;
    loop {
        step = match step {
            ListingStep::Collecting { epoch, pagination, pending, collected } => {
                assert_eq!(epoch, 9);
                let stake = stakes[collected.len()];
                asked += 1;
                listing_on_fields(
                    ListingStep::Collecting { epoch, pagination, pending, collected },
                    Ok(fields(9, stake)),
                )
            }
            ListingStep::Finished(r) => {
                let page = r.expect("the full page assembles");
                assert_eq!(page.validators.len(), 3);
                for (k, v) in page.validators.iter().enumerate() {
                    assert_eq!(v.address, addrs[k]);
                    assert_eq!(v.stake, stakes[k]);
                    assert_eq!(v.state, "unknown");
                    assert_eq!(v.commission_rate, "0");
                }
                assert_eq!(page.pagination.total, 3);
                assert_eq!(page.pagination.page, 1);
                assert_eq!(page.pagination.per_page, 10);
                assert_eq!(page.pagination.total_pages, 1);
                break;
            }
            _ => panic!("the listing only collects or finishes here"),
        };
    }
    assert_eq!(asked, 3);
}

#[test]
fn test_listing_page_exceeds_total() {
    let step = ListingStep::NeedAddresses { page: 4, per_page: 10, epoch: 2 };
    let addrs: Vec<String> = (1..=25).map(|i| format!("tnam1v{}", i)).collect();
    match listing_on_addresses(step, Ok(addrs)) {
        ListingStep::Finished(Err(ApiError::InvalidPagination(m))) => {
            assert_eq!(m, "page 4 exceeds total pages 3");
        }
        _ => panic!("a page past the end must be rejected"),
    }
}

#[test]
fn test_listing_empty_collection_finishes_empty() {
    let step = ListingStep::NeedAddresses { page: 1, per_page: 10, epoch: 2 };
    match listing_on_addresses(step, Ok(Vec::new())) {
        ListingStep::Finished(Ok(page)) => {
            assert!(page.validators.is_empty());
            assert_eq!(page.pagination.total, 0);
            assert_eq!(page.pagination.total_pages, 0);
        }
        _ => panic!("an empty collection yields an empty page"),
    }
}

#[test]
fn test_listing_epoch_mismatch_aborts() {
    let step = ListingStep::NeedAddresses { page: 1, per_page: 10, epoch: 2 };
    let step = listing_on_addresses(step, Ok(vec!["tnam1a".to_string(), "tnam1b".to_string()]));
    let step = match step {
        ListingStep::Collecting { epoch, pagination, pending, collected } => listing_on_fields(
            ListingStep::Collecting { epoch, pagination, pending, collected },
            Ok(fields(2, "10")),
        ),
        _ => panic!("two pending addresses collect first"),
    };
    match step {
        ListingStep::Collecting { epoch, pagination, pending, collected } => {
            assert_eq!(collected.len(), 1);
            match listing_on_fields(
                ListingStep::Collecting { epoch, pagination, pending, collected },
                Ok(fields(3, "20")),
            ) {
                ListingStep::Finished(Err(ApiError::InternalError(m))) => {
                    assert_eq!(m, "epoch mismatch across validator fields");
                }
                _ => panic!("an answer from another epoch must abort the page"),
            }
        }
        _ => panic!("one record is collected before the mismatch"),
    }
}

#[test]
fn test_listing_query_failure_propagates() {
    let step = ListingStep::NeedEpoch { page: 1, per_page: 10 };
    match listing_on_epoch(step, Err("gone".to_string())) {
        ListingStep::Finished(Err(ApiError::QueryError(m))) => assert_eq!(m, "gone"),
        _ => panic!("a failed epoch query must surface as QueryError"),
    }
    let step = ListingStep::NeedAddresses { page: 1, per_page: 10, epoch: 2 };
    match listing_on_addresses(step, Err("gone too".to_string())) {
        ListingStep::Finished(Err(ApiError::QueryError(m))) => assert_eq!(m, "gone too"),
        _ => panic!("a failed address query must surface as QueryError"),
    }
}
