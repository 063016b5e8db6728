use batch_dispatch::{response_result, ErrorKind, ErrorWrapper};

#[test]
fn classify_prefers_timeout_then_status_then_decode() {
    assert_eq!(ErrorKind::classify(true, true, true), ErrorKind::Timeout);
    assert_eq!(ErrorKind::classify(false, true, true), ErrorKind::HttpStatusError);
    assert_eq!(ErrorKind::classify(false, false, true), ErrorKind::DecodeError);
    assert_eq!(ErrorKind::classify(false, false, false), ErrorKind::NetworkError);
}

#[test]
fn success_statuses_keep_the_body() {
    assert_eq!(response_result(200, "t".to_string()).unwrap(), "t");
    assert_eq!(response_result(299, "u".to_string()).unwrap(), "u");
}

#[test]
fn other_statuses_are_status_errors() {
    for status in [199u16, 300, 404, 500] {
        let e = response_result(status, "nope".to_string()).unwrap_err();
        assert_eq!(e.kind, ErrorKind::HttpStatusError);
        assert_eq!(e.message, "nope");
    }
}

#[test]
fn client_error_without_status_is_a_network_error() {
    let error = reqwest::Client::new().get("not a url").send().unwrap_err();
    let wrapped = ErrorWrapper::from(error);
    assert_eq!(wrapped.kind(), ErrorKind::NetworkError);
    let failure = wrapped.to_request_error();
    assert_eq!(failure.kind, ErrorKind::NetworkError);
    assert!(!failure.message.is_empty());
}
