use vstd::prelude::*;
use crate::error::{Error, ErrorKind, ErrorKindView, ErrorView, JsonError};
use crate::oauth2::{lemma_token_request_fields, prepare_token_request, request_result_view, token_request_for, TokenRequest, TokenRequestView};
use crate::web_url::{join_url, joined_url, parse_url, parsed_url};

verus! {

/// Name of the private cookie that carries a web client's OAuth2 tokens.
pub const OAUTH2_ACCESS_TOKEN_COOKIE_NAME: &'static str = "oauth2_access_token";

/// Path, relative to the server's external host, of the OAuth2 redirect route.
pub const OAUTH2_REDIRECT_PATH: &'static str = "mail/oauth2/redirect";

/// How long, in minutes, the OAuth2 token cookie stays valid.
pub const OAUTH2_COOKIE_LIFETIME_MINUTES: u64 = 5;

/// The kind of client that started an OAuth2 login.
#[derive(Debug, Clone, Copy, PartialEq, Eq, Structural)]
pub enum ApplicationType {
    Desktop,
    Web,
}

/// The `state` parameter of an OAuth2 redirect: the provider to log in with
/// and the kind of client that asked.
#[derive(Debug)]
pub struct OAuthState {
    pub provider: String,
    pub application: ApplicationType,
}

impl OAuthState {
    pub fn provider(&self) -> (r: &str)
        ensures
            r@ == self.provider@,
    {
        self.provider.as_str()
    }

    pub fn application_type(&self) -> (r: &ApplicationType)
        ensures
            *r == self.application,
    {
        &self.application
    }
}

/// What the redirect handling reads of a configured OAuth2 provider.
#[derive(Debug)]
pub struct OAuth2Provider {
    pub token_url: String,
    pub public_token: String,
    pub secret_token: Option<String>,
}

/// A configured provider under the name clients use for it.
#[derive(Debug)]
pub struct NamedProvider {
    pub name: String,
    pub provider: OAuth2Provider,
}

/// The first provider configured under `name`.
pub open spec fn provider_named(entries: Seq<NamedProvider>, name: Seq<char>) -> Option<OAuth2Provider>
    decreases entries.len(),
{
    if entries.len() == 0 {
        None
    } else if entries[0].name@ == name {
        Some(entries[0].provider)
    } else {
        provider_named(entries.drop_first(), name)
    }
}

/// Looks up the provider configured under `name`.
pub fn find_provider<'a>(entries: &'a Vec<NamedProvider>, name: &str) -> (r: Option<&'a OAuth2Provider>)
    ensures
        match r {
            Some(p) => provider_named(entries@, name@) == Some(*p),
            None => provider_named(entries@, name@) is None,
        },
{
    let target = name.to_string();
    let mut i: usize = 0;
    assert(entries@.skip(0) =~= entries@);
    while i < entries.len()
        invariant
            i <= entries@.len(),
            target@ == name@,
            provider_named(entries@, name@) == provider_named(entries@.skip(i as int), name@),
        decreases entries@.len() - i,
    {
        let ghost rest = entries@.skip(i as int);
        assert(rest[0] == entries@[i as int]);
        if entries[i].name == target {
            return Some(&entries[i].provider);
        }
        assert(rest.drop_first() =~= entries@.skip(i + 1));
        i = i + 1;
    }
    None
}

/// The URI the provider is to redirect back to, for the server's external
/// host, or why there is none.
pub open spec fn redirect_uri_for(external_host: Seq<char>) -> Result<Seq<char>, ErrorView> {
    if parsed_url(external_host) is None {
        Err(ErrorView {
            kind: ErrorKindView::InternalError,
            message: "external_host config option is not a valid url"@,
        })
    } else {
        match joined_url(external_host, OAUTH2_REDIRECT_PATH@) {
            Some(uri) => Ok(uri),
            None => Err(ErrorView {
                kind: ErrorKindView::InternalError,
                message: "Failed to create redirect uri"@,
            }),
        }
    }
}

/// Builds the OAuth2 redirect URI from the server's external host.
pub fn create_redirect_uri(external_host: &str) -> (r: Result<String, Error>)
    ensures
        match r {
            Ok(uri) => redirect_uri_for(external_host@) == Ok::<Seq<char>, ErrorView>(uri@),
            Err(e) => redirect_uri_for(external_host@) == Err::<Seq<char>, ErrorView>(e@),
        },
        r matches Ok(uri) ==> joined_url(external_host@, "mail/oauth2/redirect"@) == Some(uri@),
        r is Ok <==> (parsed_url(external_host@) is Some && joined_url(external_host@, "mail/oauth2/redirect"@) is Some),
{
    if parse_url(external_host).is_none() {
        return Err(Error::new(ErrorKind::InternalError, "external_host config option is not a valid url"));
    }
    match join_url(external_host, OAUTH2_REDIRECT_PATH) {
        Some(uri) => Ok(uri),
        None => Err(Error::new(ErrorKind::InternalError, "Failed to create redirect uri")),
    }
}

/// What an OAuth2 redirect leads to before any request is made: the token
/// exchange to perform, or the error to answer with.
pub open spec fn redirect_plan(
    code: Option<Seq<char>>,
    scope_given: bool,
    error_given: bool,
    provider: Option<OAuth2Provider>,
    external_host: Seq<char>,
) -> Result<TokenRequestView, ErrorView> {
    if code is Some && scope_given {
        match provider {
            None => Err(ErrorView {
                kind: ErrorKindView::BadRequest,
                message: "Could not find requested oauth provider"@,
            }),
            Some(p) => match redirect_uri_for(external_host) {
                Err(e) => Err(e),
                Ok(uri) => token_request_for(
                    p.token_url@,
                    code->0,
                    uri,
                    p.public_token@,
                    p.secret_token.deep_view(),
                ),
            },
        }
    } else if error_given {
        Err(ErrorView { kind: ErrorKindView::BadRequest, message: "yeet"@ })
    } else {
        Err(ErrorView { kind: ErrorKindView::BadRequest, message: "Missing required params"@ })
    }
}

/// First half of an OAuth2 redirect: checks the parameters, finds the
/// provider named in `state` and prepares the token exchange for `code`.
pub fn begin_redirect(
    code: Option<String>,
    scope: &Option<String>,
    error: &Option<String>,
    state: &OAuthState,
    providers: &Vec<NamedProvider>,
    external_host: &str,
) -> (r: Result<TokenRequest, Error>)
    ensures
        request_result_view(r) == redirect_plan(
            code.deep_view(),
            scope is Some,
            error is Some,
            provider_named(providers@, state.provider@),
            external_host@,
        ),
{
    match code {
        Some(code) if scope.is_some() => {
            let provider = match find_provider(providers, state.provider()) {
                Some(p) => p,
                None => {
                    return Err(Error::new(ErrorKind::BadRequest, "Could not find requested oauth provider"));
                },
            };
            let redirect_uri = match create_redirect_uri(external_host) {
                Ok(uri) => uri,
                Err(e) => {
                    return Err(e);
                },
            };
            prepare_token_request(
                provider.token_url.as_str(),
                code.as_str(),
                redirect_uri.as_str(),
                provider.public_token.as_str(),
                &provider.secret_token,
            )
        },
        _ => {
            if error.is_some() {
                Err(Error::new(ErrorKind::BadRequest, "yeet"))
            } else {
                Err(Error::new(ErrorKind::BadRequest, "Missing required params"))
            }
        },
    }
}

/// A cookie for the client to keep.
#[derive(Debug)]
pub struct SessionCookie {
    pub name: String,
    pub value: String,
    pub http_only: bool,
    pub lifetime_minutes: u64,
}

/// How a successful OAuth2 redirect is answered: an optional cookie to set
/// and the message for the user.
#[derive(Debug)]
pub struct RedirectCompletion {
    pub cookie: Option<SessionCookie>,
    pub message: String,
}

/// Second half of an OAuth2 redirect, once the tokens were fetched and
/// serialised to `token_json`: a web client without the token cookie gets it
/// set, and the user is told the window can be closed.
pub fn finish_redirect(
    application: ApplicationType,
    token_json: Result<String, JsonError>,
    cookie_present: bool,
) -> (r: Result<RedirectCompletion, Error>)
    ensures
        token_json matches Err(e) ==> r matches Err(x) && x@ == (ErrorView {
            kind: ErrorKindView::SerializeJson(e.description@),
            message: "Failed to serialize json data"@,
        }),
        token_json matches Ok(json) ==> r matches Ok(c) && {
            &&& c.message@ == "You can now close this window"@
            &&& (c.cookie is Some <==> (application == ApplicationType::Web && !cookie_present))
            &&& c.cookie matches Some(k) ==> {
                &&& k.name@ == OAUTH2_ACCESS_TOKEN_COOKIE_NAME@
                &&& k.value@ == json@
                &&& k.http_only
                &&& k.lifetime_minutes == OAUTH2_COOKIE_LIFETIME_MINUTES
            }
        },
{
    let json = match token_json {
        Ok(json) => json,
        Err(e) => {
            return Err(Error::from_json(e));
        },
    };
    let cookie = match application {
        ApplicationType::Web => {
            if cookie_present {
                None
            } else {
                Some(
                    SessionCookie {
                        name: OAUTH2_ACCESS_TOKEN_COOKIE_NAME.to_string(),
                        value: json,
                        http_only: true,
                        lifetime_minutes: OAUTH2_COOKIE_LIFETIME_MINUTES,
                    },
                )
            }
        },
        ApplicationType::Desktop => None,
    };
    Ok(RedirectCompletion { cookie, message: "You can now close this window".to_string() })
}

/// A redirect without both a code and a scope never leads to a token exchange.
pub proof fn lemma_redirect_needs_code_and_scope(
    code: Option<Seq<char>>,
    scope_given: bool,
    error_given: bool,
    provider: Option<OAuth2Provider>,
    external_host: Seq<char>,
)
    requires
        code is None || !scope_given,
    ensures
        redirect_plan(code, scope_given, error_given, provider, external_host) is Err,
        error_given ==> redirect_plan(code, scope_given, error_given, provider, external_host)
            == Err::<TokenRequestView, ErrorView>(ErrorView { kind: ErrorKindView::BadRequest, message: "yeet"@ }),
        !error_given ==> redirect_plan(code, scope_given, error_given, provider, external_host)
            == Err::<TokenRequestView, ErrorView>(
            ErrorView { kind: ErrorKindView::BadRequest, message: "Missing required params"@ },
        ),
{
}

/// A redirect for a provider that is not configured is refused as a bad
/// request, whatever the rest of the configuration.
pub proof fn lemma_unknown_provider_refused(
    code: Seq<char>,
    error_given: bool,
    external_host: Seq<char>,
)
    ensures
        redirect_plan(Some(code), true, error_given, None, external_host) == Err::<TokenRequestView, ErrorView>(
            ErrorView { kind: ErrorKindView::BadRequest, message: "Could not find requested oauth provider"@ },
        ),
{
}

/// The redirect URI is the redirect path resolved, as a URL reference,
/// against the URL of the external host; it exists exactly when the host
/// parses and the resolution succeeds, and otherwise the failure is an
/// internal error naming which of the two went wrong.
pub proof fn lemma_redirect_uri_is_resolved_path(external_host: Seq<char>)
    ensures
        redirect_uri_for(external_host) is Ok <==> (parsed_url(external_host) is Some && joined_url(
            external_host,
            "mail/oauth2/redirect"@,
        ) is Some),
        redirect_uri_for(external_host) matches Ok(uri) ==> joined_url(external_host, "mail/oauth2/redirect"@)
            == Some(uri),
        parsed_url(external_host) is None ==> redirect_uri_for(external_host) == Err::<Seq<char>, ErrorView>(
            ErrorView {
                kind: ErrorKindView::InternalError,
                message: "external_host config option is not a valid url"@,
            },
        ),
        parsed_url(external_host) is Some && joined_url(external_host, "mail/oauth2/redirect"@) is None
            ==> redirect_uri_for(external_host) == Err::<Seq<char>, ErrorView>(
            ErrorView { kind: ErrorKindView::InternalError, message: "Failed to create redirect uri"@ },
        ),
{
}

/// A provider is found under a name exactly when some configured entry has
/// that name, and then it is the provider of the first such entry.
pub proof fn lemma_provider_named_is_first_match(entries: Seq<NamedProvider>, name: Seq<char>)
    ensures
        provider_named(entries, name) is None <==> forall|i: int| 0 <= i < entries.len() ==> #[trigger] entries[i].name@ != name,
        provider_named(entries, name) matches Some(p) ==> exists|i: int|
            0 <= i < entries.len() && #[trigger] entries[i].name@ == name && entries[i].provider == p
                && forall|j: int| 0 <= j < i ==> #[trigger] entries[j].name@ != name,
    decreases entries.len(),
{
    if entries.len() > 0 {
        let rest = entries.drop_first();
        lemma_provider_named_is_first_match(rest, name);
        if entries[0].name@ == name {
            assert(entries[0].name@ == name);
        } else {
            assert forall|i: int| 0 < i < entries.len() implies entries[i] == #[trigger] rest[i - 1] by {}
            if let Some(p) = provider_named(entries, name) {
                let k = choose|k: int|
                    0 <= k < rest.len() && #[trigger] rest[k].name@ == name && rest[k].provider == p
                        && forall|j: int| 0 <= j < k ==> #[trigger] rest[j].name@ != name;
                assert(entries[k + 1] == rest[k]);
                assert forall|j: int| 0 <= j < k + 1 implies #[trigger] entries[j].name@ != name by {
                    if j > 0 {
                        assert(entries[j] == rest[j - 1]);
                    }
                }
            } else {
                assert forall|i: int| 0 <= i < entries.len() implies #[trigger] entries[i].name@ != name by {
                    if i > 0 {
                        assert(entries[i] == rest[i - 1]);
                    }
                }
            }
        }
    }
}

/// A redirect with a code and a scope for a configured provider `p` starts the
/// authorization-code exchange with `p`: it is posted to `p`'s token URL and
/// carries the code as received, the redirect URI resolved against the
/// external host, `p`'s public token as client id and, exactly when `p` has
/// one, `p`'s secret token as client secret. It fails only where the external
/// host or the token URL does not make a valid URL.
pub proof fn lemma_redirect_exchanges_code_with_provider(
    code: Seq<char>,
    error_given: bool,
    p: OAuth2Provider,
    external_host: Seq<char>,
)
    ensures
        redirect_plan(Some(code), true, error_given, Some(p), external_host) is Ok <==> {
            &&& parsed_url(external_host) is Some
            &&& joined_url(external_host, "mail/oauth2/redirect"@) is Some
            &&& parsed_url(p.token_url@) is Some
        },
        redirect_plan(Some(code), true, error_given, Some(p), external_host) matches Ok(q) ==> {
            &&& q.url == parsed_url(p.token_url@)->0
            &&& q.form.len() == if p.secret_token is Some { 5int } else { 4int }
            &&& q.form[0] == ("grant_type"@, "authorization_code"@)
            &&& q.form[1] == ("code"@, code)
            &&& q.form[2] == ("redirect_uri"@, joined_url(external_host, "mail/oauth2/redirect"@)->0)
            &&& q.form[3] == ("client_id"@, p.public_token@)
            &&& p.secret_token matches Some(secret) ==> q.form[4] == ("client_secret"@, secret@)
            &&& forall|i: int| 0 <= i < q.form.len() && #[trigger] q.form[i].0 == "client_secret"@
                ==> p.secret_token.deep_view() == Some(q.form[i].1)
        },
        redirect_uri_for(external_host) matches Err(e) ==> redirect_plan(
            Some(code),
            true,
            error_given,
            Some(p),
            external_host,
        ) == Err::<TokenRequestView, ErrorView>(e),
        redirect_uri_for(external_host) is Ok && parsed_url(p.token_url@) is None ==> redirect_plan(
            Some(code),
            true,
            error_given,
            Some(p),
            external_host,
        ) == Err::<TokenRequestView, ErrorView>(
            ErrorView { kind: ErrorKindView::Parse, message: "Failed to parse external oauth2 token url"@ },
        ),
{
    lemma_redirect_uri_is_resolved_path(external_host);
    if let Ok(uri) = redirect_uri_for(external_host) {
        lemma_token_request_fields(p.token_url@, code, uri, p.public_token@, p.secret_token.deep_view());
    }
}

/// The token cookie is named `oauth2_access_token` and lives five minutes; the
/// redirect route's path is `mail/oauth2/redirect`.
pub proof fn lemma_redirect_constants()
    ensures
        OAUTH2_ACCESS_TOKEN_COOKIE_NAME@ == "oauth2_access_token"@,
        OAUTH2_REDIRECT_PATH@ == "mail/oauth2/redirect"@,
        OAUTH2_COOKIE_LIFETIME_MINUTES == 5,
{
}

} // verus!
