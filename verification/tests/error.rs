use proxy::resolver::resolve_request;
use proxy::Error;
use proxy::MappingStore;

#[test]
fn transport_failure_is_bad_gateway() {
    assert_eq!(Error::TransportFailure.status(), 502);
    assert_eq!(Error::TransportFailure.diagnostic(), "upstream unreachable");
}

#[test]
fn elapsed_timeout_is_request_timeout() {
    assert_eq!(Error::ElapsedTimeout.status(), 408);
    assert_eq!(Error::ElapsedTimeout.diagnostic(), "upstream timed out");
}

#[test]
fn body_read_failure_is_internal_error() {
    assert_eq!(Error::BodyReadFailure.status(), 500);
    assert_eq!(
        Error::BodyReadFailure.diagnostic(),
        "upstream body could not be read"
    );
}

#[test]
fn malformed_target_is_internal_error() {
    assert_eq!(Error::MalformedTarget.status(), 500);
}

#[test]
fn unclassified_is_internal_error_with_message() {
    let e = Error::Unclassified("boom".to_string());
    let (status, body) = e.translate();
    assert_eq!(status, 500);
    assert_eq!(body, "Unhandled internal error: boom");
}

#[test]
fn transport_failure_leaves_the_store_unmodified() {
    // upstream unreachable: the request resolves, the gateway fails, the
    // failure is translated — and the store holds exactly what it held
    let mut store = MappingStore::new();
    store.put("/7f3a".to_string(), "/original-path".to_string());
    let _target = resolve_request(&store, &"/7f3a".to_string());
    let (status, _body) = Error::TransportFailure.translate();
    assert_eq!(status, 502);
    assert_eq!(
        store.get(&"/7f3a".to_string()),
        Some("/original-path".to_string())
    );
    assert!(store.get(&"/xyz".to_string()).is_none());
}
