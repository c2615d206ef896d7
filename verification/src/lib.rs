//! Request-handling logic of a mail proxy server: error values, CORS
//! decisions, OAuth2 token exchange and redirect handling, session login
//! admission and the small JSON responses of the informational routes.

pub mod error;
pub mod text;
pub mod base64;
pub mod web_url;
pub mod oauth2;
pub mod redirect;
pub mod login;
pub mod responses;
pub mod cors;
pub mod mail_config;
