use cilux::broker::{bad_request, dispatch_outcome, request_method};
use cilux::protocol::{
    BrokerRequest, BrokerResponse, BrokerResult, HealthRequest, StatusResult, SystemReadRequest,
    SystemReadSelector,
};

#[test]
fn requests_are_audited_under_their_method() {
    assert_eq!(request_method(&BrokerRequest::Health(HealthRequest::default())), "health");
    assert_eq!(
        request_method(&BrokerRequest::SystemRead(SystemReadRequest { selector: SystemReadSelector::Dmesg })),
        "system_read"
    );
}

#[test]
fn outcomes_become_answers() {
    match dispatch_outcome(Ok(BrokerResult::BufferClear(StatusResult { ok: true }))) {
        BrokerResponse::Success { result: BrokerResult::BufferClear(status) } => assert!(status.ok),
        other => panic!("unexpected {other:?}"),
    }
    match dispatch_outcome(Err("trace categories must not be empty".to_string())) {
        BrokerResponse::Error { error } => {
            assert_eq!(error.code, "request_failed");
            assert_eq!(error.message, "trace categories must not be empty");
        },
        other => panic!("unexpected {other:?}"),
    }
    match bad_request("expected value at line 1 column 1") {
        BrokerResponse::Error { error } => {
            assert_eq!(error.code, "bad_request");
            assert_eq!(error.message, "invalid request JSON: expected value at line 1 column 1");
        },
        other => panic!("unexpected {other:?}"),
    }
}
