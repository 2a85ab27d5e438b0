use barter_integration::error::SocketError as IntegrationSocketError;
use barter_python::socket_error::{DetailValue, SocketErrorDetails, SocketErrorInfo, SocketFault};

fn entry<'a>(entries: &'a [(&'static str, DetailValue)], key: &str) -> Option<&'a DetailValue> {
    entries.iter().find(|(k, _)| *k == key).map(|(_, v)| v)
}

#[test]
fn details_for_subscribe_variant() {
    let error = IntegrationSocketError::Subscribe("subscription failed".to_string());
    let fault = SocketFault::Subscribe { message: "subscription failed".to_string() };
    let info = SocketErrorInfo::from_fault(fault, error.to_string());

    assert_eq!(info.kind(), "Subscribe");
    let details = info.details().cloned().unwrap().into_entries();
    let message = entry(&details, "message").expect("message entry");
    assert_eq!(message, &DetailValue::Text("subscription failed".to_string()));
}

#[test]
fn socket_error_info_exposes_variant_details() {
    let source = || serde_json::from_str::<serde_json::Value>("not-json").unwrap_err();
    let error = IntegrationSocketError::Deserialise {
        error: source(),
        payload: "not-json".to_string(),
    };
    let fault = SocketFault::Deserialise {
        error: source().to_string(),
        payload: "not-json".to_string(),
    };

    let info = SocketErrorInfo::from_fault(fault, error.to_string());

    assert_eq!(info.kind(), "Deserialise");
    assert!(info.message().contains("Deserialising JSON error"));

    let details = info.details().cloned().expect("details dictionary").into_entries();
    let payload = entry(&details, "payload").expect("payload entry");
    assert_eq!(payload, &DetailValue::Text("not-json".to_string()));

    let error_value = entry(&details, "error").expect("error entry");
    let expected_error = serde_json::from_str::<serde_json::Value>("not-json")
        .unwrap_err()
        .to_string();
    assert_eq!(error_value, &DetailValue::Text(expected_error));
}

#[test]
fn socket_error_to_py_err_sets_exception_attributes() {
    let source = || serde_json::from_slice::<serde_json::Value>(b"not-json").unwrap_err();
    let error = IntegrationSocketError::DeserialiseBinary {
        error: source(),
        payload: vec![1_u8, 2, 3],
    };
    let fault = SocketFault::DeserialiseBinary {
        error: source().to_string(),
        payload: vec![1_u8, 2, 3],
    };

    let info = SocketErrorInfo::from_fault(fault, error.to_string());

    assert_eq!(info.kind(), "DeserialiseBinary");
    let details = info.details().cloned().unwrap().into_entries();
    let payload = entry(&details, "payload").expect("payload entry");
    assert_eq!(payload, &DetailValue::Bytes(vec![1, 2, 3]));
    assert!(info.message().contains("binary payload"));
}

#[test]
fn sink_error_has_no_details() {
    let info = SocketErrorInfo::from_fault(SocketFault::Sink, "Sink error".to_string());
    assert_eq!(info.kind(), "Sink");
    assert_eq!(info.message(), "Sink error");
    assert!(info.details().is_none());
}

#[test]
fn http_response_reports_status_then_error() {
    let fault = SocketFault::HttpResponse { status: 503, error: "unavailable".to_string() };
    let info = SocketErrorInfo::from_fault(fault, "HTTP response".to_string());
    assert_eq!(info.kind(), "HttpResponse");
    let entries = info.details().cloned().unwrap().into_entries();
    assert_eq!(
        entries,
        vec![
            ("status", DetailValue::Number(503)),
            ("error", DetailValue::Text("unavailable".to_string())),
        ]
    );
}

#[test]
fn closing_reasons_and_messages_share_the_message_key() {
    let terminated = SocketErrorDetails::Terminated { reason: "closed".to_string() };
    assert_eq!(
        terminated.into_entries(),
        vec![("message", DetailValue::Text("closed".to_string()))]
    );
    let unsupported = SocketErrorDetails::Unsupported {
        entity: "Kraken".to_string(),
        item: "l3".to_string(),
    };
    assert_eq!(
        unsupported.into_entries(),
        vec![
            ("entity", DetailValue::Text("Kraken".to_string())),
            ("item", DetailValue::Text("l3".to_string())),
        ]
    );
    let info = SocketErrorInfo::from_fault(
        SocketFault::Unidentifiable { subscription_id: "sub-1".to_string() },
        "consumed unidentifiable message: sub-1".to_string(),
    );
    assert_eq!(info.kind(), "Unidentifiable");
    assert_eq!(
        info.details().cloned().unwrap().into_entries(),
        vec![("subscription_id", DetailValue::Text("sub-1".to_string()))]
    );
}
