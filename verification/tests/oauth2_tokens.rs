use mail_server::error::{ErrorKind, JsonError};
use mail_server::oauth2::{
    decode_token_response, interpret_token_response, prepare_token_request, AccessTokenResponse, TokenReply,
};

fn pairs(fields: &[mail_server::oauth2::FormField]) -> Vec<(String, String)> {
    fields.iter().map(|f| (f.name.clone(), f.value.clone())).collect()
}

#[test]
fn token_request_for_public_client() {
    let req = prepare_token_request("https://oauth2.example.com/token", "abc", "https://mail.example.com/mail/oauth2/redirect", "client-1", &None)
        .unwrap();
    assert_eq!(req.url, "https://oauth2.example.com/token");
    assert_eq!(req.content_type, "application/x-www-form-urlencoded");
    assert_eq!(
        pairs(&req.form),
        vec![
            ("grant_type".to_string(), "authorization_code".to_string()),
            ("code".to_string(), "abc".to_string()),
            ("redirect_uri".to_string(), "https://mail.example.com/mail/oauth2/redirect".to_string()),
            ("client_id".to_string(), "client-1".to_string()),
        ]
    );
}

#[test]
fn token_request_for_confidential_client_carries_secret() {
    let req = prepare_token_request("https://oauth2.example.com/token", "abc", "r", "c", &Some("s3cret".to_string())).unwrap();
    assert_eq!(req.form.len(), 5);
    assert_eq!(req.form[4].name, "client_secret");
    assert_eq!(req.form[4].value, "s3cret");
}

#[test]
fn token_request_url_is_normalised_by_parsing() {
    let req = prepare_token_request("HTTPS://Example.COM", "a", "r", "c", &None).unwrap();
    assert_eq!(req.url, "https://example.com/");
}

#[test]
fn token_request_refuses_invalid_url() {
    let err = prepare_token_request("not a url", "abc", "r", "c", &None).unwrap_err();
    assert!(matches!(err.kind(), ErrorKind::Parse));
    assert_eq!(err.to_display_string(), "Failed to parse external oauth2 token url");
}

#[test]
fn success_statuses_are_decoded() {
    assert!(matches!(interpret_token_response(200, b"{}"), TokenReply::Decode));
    assert!(matches!(interpret_token_response(299, b""), TokenReply::Decode));
}

#[test]
fn failure_status_reports_body_text() {
    match interpret_token_response(400, b"invalid_grant") {
        TokenReply::Failed(e) => {
            assert!(matches!(e.kind(), ErrorKind::Oauth2));
            assert_eq!(e.to_display_string(), "Failed to fetch oauth2 access token: invalid_grant");
        }
        TokenReply::Decode => panic!("a 400 reply must not be decoded"),
    }
    assert!(matches!(interpret_token_response(199, b""), TokenReply::Failed(_)));
    assert!(matches!(interpret_token_response(300, b""), TokenReply::Failed(_)));
}

#[test]
fn failure_status_with_invalid_utf8_body_is_a_parse_error() {
    match interpret_token_response(500, &[0x61, 0xff, 0x62]) {
        TokenReply::Failed(e) => {
            assert!(matches!(e.kind(), ErrorKind::Parse));
            assert_eq!(
                e.to_display_string(),
                "Failed to parse error response when fetching oauth access token: invalid utf-8 sequence of 1 bytes from index 1"
            );
        }
        TokenReply::Decode => panic!("a 500 reply must not be decoded"),
    }
}

#[test]
fn decoded_token_response_is_kept() {
    let t = AccessTokenResponse {
        access_token: "at".to_string(),
        token_type: "Bearer".to_string(),
        expires_in: 3600,
        refresh_token: None,
    };
    let r = decode_token_response(Ok(t)).unwrap();
    assert_eq!(r.access_token(), "at");
    assert_eq!(r.expires_in, 3600);
}

#[test]
fn undecodable_token_response_is_a_parse_error() {
    let e = decode_token_response(Err(JsonError { description: "missing field `access_token`".to_string() })).unwrap_err();
    assert!(matches!(e.kind(), ErrorKind::Parse));
    assert_eq!(
        e.to_display_string(),
        "Invalid response when fetching oauth access token: missing field `access_token`"
    );
}
