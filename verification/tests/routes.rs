use mail_server::cors::{CORS, NO_CONTENT};
use mail_server::error::{ErrorKind, JsonError};
use mail_server::login::login;
use mail_server::mail_config::Mail;
use mail_server::oauth2::AccessTokenResponse;
use mail_server::responses::{handle_user, settings, user, version, UserResponse};

#[test]
fn login_refused_when_not_a_mail_proxy() {
    let e = login(false, "{\"user\":\"a\"}", &vec![], 10).unwrap_err();
    assert!(matches!(e.kind(), ErrorKind::BadRequest));
    assert_eq!(e.to_display_string(), "This Dust-Mail server does not operate as a mail proxy");
}

#[test]
fn login_returns_base64_session_token() {
    assert_eq!(login(true, "foobar", &vec![], 10).unwrap(), "Zm9vYmFy");
}

#[test]
fn login_refused_at_connection_limit() {
    let open = vec!["a".to_string(), "b".to_string()];
    let e = login(true, "foobar", &open, 2).unwrap_err();
    assert!(matches!(e.kind(), ErrorKind::BadRequest));
    assert_eq!(e.to_display_string(), "You have reached the limit of concurrent connections");
    assert!(login(true, "foobar", &open, 3).is_ok());
    assert!(login(true, "foobar", &vec![], 0).is_err());
}

#[test]
fn repeated_login_is_refused_with_its_token() {
    let token = login(true, "foobar", &vec!["x".to_string()], 5).unwrap();
    let open = vec!["x".to_string(), token];
    let e = login(true, "foobar", &open, 5).unwrap_err();
    assert!(matches!(e.kind(), ErrorKind::BadRequest));
    assert_eq!(
        e.to_display_string(),
        "You already have a session connected to that server with token 'Zm9vYmFy'"
    );
    assert!(login(true, "foobaz", &open, 5).is_ok());
}

#[test]
fn settings_report_configuration() {
    let s = settings(Some("password".to_string()), true);
    assert!(s.authorization);
    assert_eq!(s.authorization_type.as_deref(), Some("password"));
    assert!(s.mail_proxy);
    let s = settings(None, false);
    assert!(!s.authorization);
    assert!(s.authorization_type.is_none());
    assert!(!s.mail_proxy);
}

#[test]
fn user_with_and_without_session() {
    match user(Some(vec!["t1".to_string(), "t2".to_string()])) {
        UserResponse::LoggedIn { sessions } => assert_eq!(sessions, vec!["t1".to_string(), "t2".to_string()]),
        UserResponse::NoSession => panic!("expected a logged in user"),
    }
    assert!(matches!(user(None), UserResponse::NoSession));
}

#[test]
fn version_defaults_to_git_build() {
    let v = version("0.2.4", None);
    assert_eq!(v.version, "0.2.4");
    assert_eq!(v.version_type, "git");
    assert_eq!(version("0.2.4", Some("release".to_string())).version_type, "release");
}

#[test]
fn oauth_user_needs_token_cookie() {
    let e = handle_user(None).unwrap_err();
    assert!(matches!(e.kind(), ErrorKind::Unauthorized));
    assert_eq!(e.to_display_string(), "Missing oAuth session cookie");
    let e = handle_user(Some(Err(JsonError { description: "eof".to_string() }))).unwrap_err();
    assert!(matches!(e.kind(), ErrorKind::SerializeJson(_)));
    let t = AccessTokenResponse {
        access_token: "at".to_string(),
        token_type: "Bearer".to_string(),
        expires_in: 10,
        refresh_token: Some("rt".to_string()),
    };
    let r = handle_user(Some(Ok(t))).unwrap();
    assert_eq!(r.access_token(), "at");
    assert_eq!(r.refresh_token.as_deref(), Some("rt"));
}

#[test]
fn cors_headers_for_configured_origin() {
    let cors = CORS;
    assert_eq!(cors.info_name(), "Add CORS headers to responses");
    let change = cors.on_response(Some("https://app.example.com"), false).unwrap();
    let headers: Vec<(String, String)> = change.headers.iter().map(|h| (h.name.clone(), h.value.clone())).collect();
    assert_eq!(
        headers,
        vec![
            ("Access-Control-Allow-Origin".to_string(), "https://app.example.com".to_string()),
            ("Access-Control-Allow-Methods".to_string(), "POST, GET".to_string()),
            ("Access-Control-Allow-Headers".to_string(), "Content-Type, Authorization".to_string()),
            ("Access-Control-Max-Age".to_string(), "86400".to_string()),
            ("Access-Control-Allow-Credentials".to_string(), "true".to_string()),
        ]
    );
    assert_eq!(change.status, None);
}

#[test]
fn cors_preflight_gets_no_content() {
    let change = CORS.on_response(Some("*"), true).unwrap();
    assert_eq!(change.status, Some(NO_CONTENT));
    assert_eq!(NO_CONTENT, 204);
    assert_eq!(change.headers.len(), 5);
}

#[test]
fn cors_leaves_response_alone_without_configuration() {
    assert!(CORS.on_response(None, true).is_none());
}

#[test]
fn mail_config_lists() {
    let m = Mail::default();
    assert!(m.allowed_servers().is_none());
    assert!(m.disallowed_servers().is_none());
    let m = Mail { allowed_servers: Some(vec!["imap.example.com".to_string()]), disallowed_servers: None };
    assert_eq!(m.allowed_servers().unwrap(), &vec!["imap.example.com".to_string()]);
    assert!(m.disallowed_servers().is_none());
}
