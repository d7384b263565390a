use ecal_types::service::{
    classify, collect_outcomes, outcome_of, CallOutcome, CallState, FanOut, ServerId,
    ServiceIdentity, ServiceResponse,
};

fn response(success: bool, payload: &[u8], error_msg: Option<&str>, entity_id: u64) -> ServiceResponse {
    ServiceResponse {
        success,
        payload: payload.to_vec(),
        error_msg: error_msg.map(|s| s.to_string()),
        server_id: ServerId {
            service_id: ServiceIdentity { entity_id, process_id: 1, host_name: "host".to_string() },
        },
    }
}

#[test]
fn call_states() {
    assert_eq!(classify(&Some(response(true, b"desserts", None, 3))), CallState::Executed);
    assert_eq!(classify(&Some(response(false, b"", Some("boom"), 3))), CallState::Failed);
    assert_eq!(classify(&None), CallState::Timeouted);
}

#[test]
fn outcomes_carry_payload_or_error() {
    match outcome_of(Some(response(true, b"desserts", None, 3))) {
        CallOutcome::Executed { payload, entity_id } => {
            assert_eq!(payload, b"desserts".to_vec());
            assert_eq!(entity_id, 3);
        }
        _ => panic!("expected executed"),
    }
    match outcome_of(Some(response(false, b"", Some("no such method"), 4))) {
        CallOutcome::Failed { error_msg, entity_id } => {
            assert_eq!(error_msg, "no such method");
            assert_eq!(entity_id, 4);
        }
        _ => panic!("expected failed"),
    }
    match outcome_of(Some(response(false, b"", None, 5))) {
        CallOutcome::Failed { error_msg, .. } => assert_eq!(error_msg, "Unknown"),
        _ => panic!("expected failed"),
    }
    match outcome_of(Some(response(false, b"", Some(""), 5))) {
        CallOutcome::Failed { error_msg, .. } => assert_eq!(error_msg, "Unknown"),
        _ => panic!("expected failed"),
    }
    assert!(matches!(outcome_of(None), CallOutcome::Timeouted));
}

#[test]
fn failing_instance_does_not_stop_the_next() {
    let mut fan = FanOut::new(2);
    assert_eq!(fan.next_call(), Some(0));
    fan.record(Some(response(false, b"", Some("fail"), 1)));
    assert_eq!(fan.next_call(), Some(1));
    assert!(!fan.is_done());
    fan.record(Some(response(true, b"ok", None, 2)));
    assert_eq!(fan.next_call(), None);
    assert!(fan.is_done());
    let out = fan.into_outcomes();
    assert_eq!(out.len(), 2);
    assert!(matches!(out[0], CallOutcome::Failed { entity_id: 1, .. }));
    assert!(matches!(out[1], CallOutcome::Executed { entity_id: 2, .. }));
}

#[test]
fn timeout_does_not_stop_the_next() {
    let out = collect_outcomes(vec![None, Some(response(true, b"x", None, 9))]);
    assert_eq!(out.len(), 2);
    assert!(matches!(out[0], CallOutcome::Timeouted));
    assert!(matches!(out[1], CallOutcome::Executed { entity_id: 9, .. }));
}

#[test]
fn no_instances_means_no_calls() {
    let fan = FanOut::new(0);
    assert_eq!(fan.next_call(), None);
    assert!(fan.is_done());
    assert!(collect_outcomes(Vec::new()).is_empty());
}
