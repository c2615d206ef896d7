use mail_server::error::{ErrorKind, JsonError};
use mail_server::redirect::{
    begin_redirect, create_redirect_uri, find_provider, finish_redirect, ApplicationType, NamedProvider,
    OAuth2Provider, OAuthState, OAUTH2_ACCESS_TOKEN_COOKIE_NAME,
};

fn providers() -> Vec<NamedProvider> {
    vec![
        NamedProvider {
            name: "google".to_string(),
            provider: OAuth2Provider {
                token_url: "https://oauth2.googleapis.com/token".to_string(),
                public_token: "google-client".to_string(),
                secret_token: Some("google-secret".to_string()),
            },
        },
        NamedProvider {
            name: "outlook".to_string(),
            provider: OAuth2Provider {
                token_url: "https://login.microsoftonline.com/common/oauth2/v2.0/token".to_string(),
                public_token: "outlook-client".to_string(),
                secret_token: None,
            },
        },
    ]
}

fn state(provider: &str, application: ApplicationType) -> OAuthState {
    OAuthState { provider: provider.to_string(), application }
}

#[test]
fn redirect_uri_is_joined_to_external_host() {
    assert_eq!(create_redirect_uri("http://localhost:8080").unwrap(), "http://localhost:8080/mail/oauth2/redirect");
    assert_eq!(create_redirect_uri("https://mail.example.com/api/").unwrap(), "https://mail.example.com/api/mail/oauth2/redirect");
}

#[test]
fn redirect_uri_needs_valid_external_host() {
    let e = create_redirect_uri("localhost").unwrap_err();
    assert!(matches!(e.kind(), ErrorKind::InternalError));
    assert_eq!(e.to_display_string(), "external_host config option is not a valid url");
}

#[test]
fn redirect_uri_needs_a_host_that_can_be_joined() {
    let e = create_redirect_uri("mailto:admin@example.com").unwrap_err();
    assert!(matches!(e.kind(), ErrorKind::InternalError));
    assert_eq!(e.to_display_string(), "Failed to create redirect uri");
}

#[test]
fn provider_is_found_by_name() {
    let all = providers();
    assert_eq!(find_provider(&all, "outlook").unwrap().public_token, "outlook-client");
    assert!(find_provider(&all, "yahoo").is_none());
    assert!(find_provider(&all, "Google").is_none());
}

#[test]
fn redirect_with_code_and_scope_prepares_token_exchange() {
    let req = begin_redirect(
        Some("the-code".to_string()),
        &Some("mail".to_string()),
        &None,
        &state("google", ApplicationType::Web),
        &providers(),
        "https://mail.example.com",
    )
    .unwrap();
    assert_eq!(req.url, "https://oauth2.googleapis.com/token");
    let form: Vec<(String, String)> = req.form.iter().map(|f| (f.name.clone(), f.value.clone())).collect();
    assert_eq!(
        form,
        vec![
            ("grant_type".to_string(), "authorization_code".to_string()),
            ("code".to_string(), "the-code".to_string()),
            ("redirect_uri".to_string(), "https://mail.example.com/mail/oauth2/redirect".to_string()),
            ("client_id".to_string(), "google-client".to_string()),
            ("client_secret".to_string(), "google-secret".to_string()),
        ]
    );
}

#[test]
fn redirect_without_code_or_scope_is_refused() {
    let e = begin_redirect(None, &Some("mail".to_string()), &None, &state("google", ApplicationType::Web), &providers(), "https://x.org")
        .unwrap_err();
    assert!(matches!(e.kind(), ErrorKind::BadRequest));
    assert_eq!(e.to_display_string(), "Missing required params");
    let e = begin_redirect(Some("c".to_string()), &None, &None, &state("google", ApplicationType::Web), &providers(), "https://x.org")
        .unwrap_err();
    assert_eq!(e.to_display_string(), "Missing required params");
}

#[test]
fn redirect_reporting_an_error_is_refused() {
    let e = begin_redirect(None, &None, &Some("access_denied".to_string()), &state("google", ApplicationType::Web), &providers(), "https://x.org")
        .unwrap_err();
    assert!(matches!(e.kind(), ErrorKind::BadRequest));
    assert_eq!(e.to_display_string(), "yeet");
}

#[test]
fn redirect_for_unknown_provider_is_refused() {
    let e = begin_redirect(Some("c".to_string()), &Some("s".to_string()), &None, &state("yahoo", ApplicationType::Web), &providers(), "https://x.org")
        .unwrap_err();
    assert!(matches!(e.kind(), ErrorKind::BadRequest));
    assert_eq!(e.to_display_string(), "Could not find requested oauth provider");
}

#[test]
fn redirect_with_bad_external_host_is_an_internal_error() {
    let e = begin_redirect(Some("c".to_string()), &Some("s".to_string()), &None, &state("google", ApplicationType::Desktop), &providers(), "::")
        .unwrap_err();
    assert!(matches!(e.kind(), ErrorKind::InternalError));
}

#[test]
fn web_client_without_cookie_gets_token_cookie() {
    let done = finish_redirect(ApplicationType::Web, Ok("{\"access_token\":\"x\"}".to_string()), false).unwrap();
    assert_eq!(done.message, "You can now close this window");
    let cookie = done.cookie.unwrap();
    assert_eq!(cookie.name, OAUTH2_ACCESS_TOKEN_COOKIE_NAME);
    assert_eq!(cookie.name, "oauth2_access_token");
    assert_eq!(cookie.value, "{\"access_token\":\"x\"}");
    assert!(cookie.http_only);
    assert_eq!(cookie.lifetime_minutes, 5);
}

#[test]
fn existing_cookie_is_not_replaced() {
    let done = finish_redirect(ApplicationType::Web, Ok("{}".to_string()), true).unwrap();
    assert!(done.cookie.is_none());
    assert_eq!(done.message, "You can now close this window");
}

#[test]
fn desktop_client_gets_no_cookie() {
    let done = finish_redirect(ApplicationType::Desktop, Ok("{}".to_string()), false).unwrap();
    assert!(done.cookie.is_none());
}

#[test]
fn unserialisable_tokens_fail_the_redirect() {
    let e = finish_redirect(ApplicationType::Web, Err(JsonError { description: "boom".to_string() }), false).unwrap_err();
    assert!(matches!(e.kind(), ErrorKind::SerializeJson(_)));
    assert_eq!(e.to_display_string(), "Failed to serialize json data");
}

#[test]
fn oauth_state_getters() {
    let s = state("google", ApplicationType::Desktop);
    assert_eq!(s.provider(), "google");
    assert_eq!(*s.application_type(), ApplicationType::Desktop);
}
