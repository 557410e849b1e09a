use namada_gateway::aggregator::{
    assemble_detail, begin_detail, detail_on_epoch, detail_on_fields, detail_on_membership,
    DetailStep, FieldsAtEpoch,
};
use namada_gateway::epoch::{epoch_from_query, resolve_epoch_request, EpochResolution};
use namada_gateway::error::ApiError;
use namada_gateway::pos::{CommissionInfo, ValidatorMetadata, ValidatorState};

fn bare_fields(epoch: u64) -> FieldsAtEpoch {
    FieldsAtEpoch {
        state_epoch: epoch,
        state: None,
        stake_epoch: epoch,
        stake: "1000000".to_string(),
        meta_epoch: epoch,
        metadata: None,
        commission: CommissionInfo {
            commission_rate: None,
            max_commission_change_per_epoch: None,
        },
    }
}

#[test]
fn test_detail_short_circuit_on_non_validator() {
    let step = begin_detail("tnam1qxyz".to_string(), None);
    let mut queries = vec!["current_epoch"];
    let step = match step {
        DetailStep::NeedEpoch { address } => {
            assert_eq!(address, "tnam1qxyz");
            detail_on_epoch(DetailStep::NeedEpoch { address }, Ok(7))
        }
        _ => panic!("an absent epoch must be resolved first"),
    };
    let step = match step {
        DetailStep::NeedMembership { address, epoch } => {
            assert_eq!(epoch, 7);
            queries.push("is_validator");
            detail_on_membership(DetailStep::NeedMembership { address, epoch }, Ok(false))
        }
        _ => panic!("membership must be gated before any field query"),
    };
    // The lookup is over: state, stake and metadata were never requested.
    match step {
        DetailStep::Finished(Err(ApiError::NotFound(m))) => {
            assert_eq!(m, "Address tnam1qxyz is not a validator");
        }
        _ => panic!("a non-validator must end the lookup at once"),
    }
    assert_eq!(queries.len(), 2);
}

#[test]
fn test_detail_success_pins_single_epoch() {
    let step = begin_detail("tnam1qabc".to_string(), Some(5));
    let step = match step {
        DetailStep::NeedMembership { address, epoch } => {
            assert_eq!(epoch, 5);
            detail_on_membership(DetailStep::NeedMembership { address, epoch }, Ok(true))
        }
        _ => panic!("a supplied epoch skips the epoch query"),
    };
    let step = match step {
        DetailStep::NeedFields { address, epoch } => {
            assert_eq!(epoch, 5);
            let mut fields = bare_fields(5);
            fields.state = Some(ValidatorState::Consensus);
            fields.commission.commission_rate = Some("0.05".to_string());
            detail_on_fields(DetailStep::NeedFields { address, epoch }, Ok(fields))
        }
        _ => panic!("a member proceeds to the field queries"),
    };
    match step {
        DetailStep::Finished(Ok(d)) => {
            assert_eq!(d.address, "tnam1qabc");
            assert_eq!(d.state, "Consensus");
            assert_eq!(d.stake, "1000000");
            assert_eq!(d.commission_rate, "0.05");
            assert_eq!(d.max_commission_change_per_epoch, "0");
            assert!(d.metadata.is_none());
        }
        _ => panic!("matching epochs must assemble the record"),
    }
}

#[test]
fn test_detail_epoch_mismatch_is_internal_error() {
    let step = DetailStep::NeedFields { address: "tnam1qabc".to_string(), epoch: 5 };
    let mut fields = bare_fields(5);
    fields.stake_epoch = 6;
    match detail_on_fields(step, Ok(fields)) {
        DetailStep::Finished(Err(ApiError::InternalError(m))) => {
            assert_eq!(m, "epoch mismatch across validator fields");
        }
        _ => panic!("diverging epochs must never produce a record"),
    }
}

#[test]
fn test_detail_query_failure_propagates_message() {
    let step = DetailStep::NeedMembership { address: "tnam1qabc".to_string(), epoch: 5 };
    match detail_on_membership(step, Err("connection reset".to_string())) {
        DetailStep::Finished(Err(ApiError::QueryError(m))) => {
            assert_eq!(m, "connection reset");
        }
        _ => panic!("a failed query must surface as QueryError"),
    }
    let step = DetailStep::NeedFields { address: "tnam1qabc".to_string(), epoch: 5 };
    match detail_on_fields(step, Err("timeout".to_string())) {
        DetailStep::Finished(Err(ApiError::QueryError(m))) => assert_eq!(m, "timeout"),
        _ => panic!("a failed field query must surface as QueryError"),
    }
    let step = DetailStep::NeedEpoch { address: "tnam1qabc".to_string() };
    match detail_on_epoch(step, Err("no peer".to_string())) {
        DetailStep::Finished(Err(ApiError::QueryError(m))) => assert_eq!(m, "no peer"),
        _ => panic!("a failed epoch query must surface as QueryError"),
    }
}

#[test]
fn test_assemble_detail_defaults_and_passthrough() {
    let fields = bare_fields(1);
    let d = assemble_detail("tnam1qv".to_string(), &fields);
    assert_eq!(d.state, "unknown");
    assert_eq!(d.commission_rate, "0");
    assert_eq!(d.max_commission_change_per_epoch, "0");
    assert!(d.metadata.is_none());

    let mut fields = bare_fields(1);
    fields.state = Some(ValidatorState::Jailed);
    fields.commission.commission_rate = Some("0.1".to_string());
    fields.commission.max_commission_change_per_epoch = Some("0.01".to_string());
    fields.metadata = Some(ValidatorMetadata {
        email: Some("validator@example.com".to_string()),
        description: Some("a validator".to_string()),
        website: None,
        discord_handle: None,
        name: Some("val".to_string()),
        avatar: None,
    });
    let d = assemble_detail("tnam1qv".to_string(), &fields);
    assert_eq!(d.state, "Jailed");
    assert_eq!(d.stake, "1000000");
    assert_eq!(d.commission_rate, "0.1");
    assert_eq!(d.max_commission_change_per_epoch, "0.01");
    let meta = d.metadata.expect("metadata passes through");
    assert_eq!(meta.email.as_deref(), Some("validator@example.com"));
    assert_eq!(meta.description.as_deref(), Some("a validator"));
    assert!(meta.website.is_none());
    assert_eq!(meta.name.as_deref(), Some("val"));
}

#[test]
fn test_state_labels() {
    assert_eq!(ValidatorState::Consensus.label(), "Consensus");
    assert_eq!(ValidatorState::BelowCapacity.label(), "BelowCapacity");
    assert_eq!(ValidatorState::BelowThreshold.label(), "BelowThreshold");
    assert_eq!(ValidatorState::Inactive.label(), "Inactive");
    assert_eq!(ValidatorState::Jailed.label(), "Jailed");
}

#[test]
fn test_epoch_resolver() {
    assert_eq!(resolve_epoch_request(Some(3)), EpochResolution::Resolved(3));
    assert_eq!(resolve_epoch_request(None), EpochResolution::NeedQuery);
    assert_eq!(epoch_from_query(Ok(9)).expect("epoch adopted"), 9);
    match epoch_from_query(Err("down".to_string())) {
        Err(ApiError::QueryError(m)) => assert_eq!(m, "down"),
        other => panic!("expected QueryError, got {:?}", other),
    }
}
