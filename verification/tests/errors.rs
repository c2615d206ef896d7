use mail_server::error::{Error, ErrorKind, JsonError, RequestError, UpstreamError};

#[test]
fn new_error_keeps_kind_and_message() {
    let e = Error::new(ErrorKind::NotFound, "nothing here");
    assert!(matches!(e.kind(), ErrorKind::NotFound));
    assert_eq!(e.to_display_string(), "nothing here");
    assert_eq!(e.source_description(), None);
    assert_eq!(e.serialized_message(), "nothing here");
    assert_eq!(e.serialized_kind(), "MailError");
}

#[test]
fn upstream_error_shows_its_cause() {
    let e = Error::from_upstream(UpstreamError { description: "imap login failed".to_string() });
    assert!(matches!(e.kind(), ErrorKind::SdkError(u) if u.description == "imap login failed"));
    assert_eq!(e.to_display_string(), "Error with upstream mail server");
    assert_eq!(e.source_description(), Some("imap login failed".to_string()));
    assert_eq!(e.serialized_message(), "imap login failed");
}

#[test]
fn request_error_shows_its_cause() {
    let e = Error::from_request(RequestError { description: "connection refused".to_string() });
    assert!(matches!(e.kind(), ErrorKind::OutgoingHttpRequest(_)));
    assert_eq!(e.to_display_string(), "Outgoing HTTP request failed");
    assert_eq!(e.serialized_message(), "connection refused");
}

#[test]
fn json_error_shows_its_own_message() {
    let e = Error::from_json(JsonError { description: "expected value".to_string() });
    assert!(matches!(e.kind(), ErrorKind::SerializeJson(_)));
    assert_eq!(e.source_description(), None);
    assert_eq!(e.serialized_message(), "Failed to serialize json data");
    assert_eq!(e.serialized_kind(), "MailError");
}
