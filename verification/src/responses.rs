use vstd::prelude::*;
use crate::error::{Error, ErrorKind, ErrorKindView, ErrorView, JsonError};
use crate::oauth2::AccessTokenResponse;

verus! {

/// What the server tells clients about how it is configured.
#[derive(Debug)]
pub struct SettingsResponse {
    pub authorization: bool,
    pub authorization_type: Option<String>,
    pub mail_proxy: bool,
}

/// The settings answer: authorization is on exactly when an authorization
/// type is configured, which is then reported by name.
pub fn settings(authorization_type: Option<String>, mail_proxy_enabled: bool) -> (r: SettingsResponse)
    ensures
        r.authorization == authorization_type is Some,
        r.authorization_type == authorization_type,
        r.mail_proxy == mail_proxy_enabled,
{
    let authorization = authorization_type.is_some();
    SettingsResponse { authorization, authorization_type, mail_proxy: mail_proxy_enabled }
}

/// Whether the caller has a user session, and the tokens of its mail sessions.
#[derive(Debug)]
pub enum UserResponse {
    LoggedIn { sessions: Vec<String> },
    NoSession,
}

/// The user answer for the mail session tokens of the caller's user session,
/// `None` when the caller has no user session.
pub fn user(session_tokens: Option<Vec<String>>) -> (r: UserResponse)
    ensures
        match session_tokens {
            Some(tokens) => r == UserResponse::LoggedIn { sessions: tokens },
            None => r is NoSession,
        },
{
    match session_tokens {
        Some(sessions) => UserResponse::LoggedIn { sessions },
        None => UserResponse::NoSession,
    }
}

/// The server's version and the kind of build it comes from.
#[derive(Debug)]
pub struct VersionResponse {
    pub version: String,
    pub version_type: String,
}

/// The version answer; a build that does not name its kind is a `git` build.
pub fn version(package_version: &str, version_type: Option<String>) -> (r: VersionResponse)
    ensures
        r.version@ == package_version@,
        r.version_type@ == match version_type {
            Some(t) => t@,
            None => "git"@,
        },
{
    let version_type = match version_type {
        Some(t) => t,
        None => "git".to_string(),
    };
    VersionResponse { version: package_version.to_string(), version_type }
}

/// The answer to a request for the caller's OAuth2 tokens, given what was
/// decoded from the token cookie (`None`: no such cookie).
pub fn handle_user(token_cookie: Option<Result<AccessTokenResponse, JsonError>>) -> (r: Result<
    AccessTokenResponse,
    Error,
>)
    ensures
        token_cookie is None ==> (r matches Err(e) && e@ == (ErrorView {
            kind: ErrorKindView::Unauthorized,
            message: "Missing oAuth session cookie"@,
        })),
        token_cookie matches Some(Ok(t)) ==> r == Ok::<AccessTokenResponse, Error>(t),
        token_cookie matches Some(Err(j)) ==> r matches Err(e) && e@ == (ErrorView {
            kind: ErrorKindView::SerializeJson(j.description@),
            message: "Failed to serialize json data"@,
        }),
{
    match token_cookie {
        Some(Ok(tokens)) => Ok(tokens),
        Some(Err(e)) => Err(Error::from_json(e)),
        None => Err(Error::new(ErrorKind::Unauthorized, "Missing oAuth session cookie")),
    }
}

} // verus!
