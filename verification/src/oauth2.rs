use vstd::prelude::*;
use vstd::utf8::{decode_utf8, valid_utf8};
use crate::error::{Error, ErrorKind, ErrorKindView, ErrorView, JsonError};
use crate::text::{decode_utf8_text, join_text, utf8_error_text};
use crate::web_url::{parse_url, parsed_url};

verus! {

/// The body of a successful OAuth2 token response.
#[derive(Debug)]
pub struct AccessTokenResponse {
    pub access_token: String,
    pub token_type: String,
    pub expires_in: usize,
    pub refresh_token: Option<String>,
}

impl AccessTokenResponse {
    pub fn access_token(&self) -> (r: &str)
        ensures
            r@ == self.access_token@,
    {
        self.access_token.as_str()
    }
}

/// One `name=value` pair of a URL-encoded form.
#[derive(Debug)]
pub struct FormField {
    pub name: String,
    pub value: String,
}

/// A prepared request for an OAuth2 access token: a POST of `form`, encoded
/// as `content_type`, to `url`.
#[derive(Debug)]
pub struct TokenRequest {
    pub url: String,
    pub form: Vec<FormField>,
    pub content_type: String,
}

/// Mathematical model of a [`TokenRequest`].
pub struct TokenRequestView {
    pub url: Seq<char>,
    pub form: Seq<(Seq<char>, Seq<char>)>,
    pub content_type: Seq<char>,
}

pub open spec fn form_view(form: Seq<FormField>) -> Seq<(Seq<char>, Seq<char>)> {
    form.map_values(|f: FormField| (f.name@, f.value@))
}

impl View for TokenRequest {
    type V = TokenRequestView;

    open spec fn view(&self) -> TokenRequestView {
        TokenRequestView { url: self.url@, form: form_view(self.form@), content_type: self.content_type@ }
    }
}

/// The form of an authorization-code grant: grant type, code, redirect URI,
/// client id and, for a confidential client, the client secret.
pub open spec fn token_form(
    code: Seq<char>,
    redirect_uri: Seq<char>,
    client_id: Seq<char>,
    client_secret: Option<Seq<char>>,
) -> Seq<(Seq<char>, Seq<char>)> {
    let fields = seq![
        ("grant_type"@, "authorization_code"@),
        ("code"@, code),
        ("redirect_uri"@, redirect_uri),
        ("client_id"@, client_id),
    ];
    match client_secret {
        Some(secret) => fields.push(("client_secret"@, secret)),
        None => fields,
    }
}

/// The token request for the given provider token endpoint and grant, or the
/// error for an endpoint that is not a valid URL.
pub open spec fn token_request_for(
    token_url: Seq<char>,
    code: Seq<char>,
    redirect_uri: Seq<char>,
    client_id: Seq<char>,
    client_secret: Option<Seq<char>>,
) -> Result<TokenRequestView, ErrorView> {
    match parsed_url(token_url) {
        Some(url) => Ok(TokenRequestView {
            url,
            form: token_form(code, redirect_uri, client_id, client_secret),
            content_type: "application/x-www-form-urlencoded"@,
        }),
        None => Err(ErrorView {
            kind: ErrorKindView::Parse,
            message: "Failed to parse external oauth2 token url"@,
        }),
    }
}

pub open spec fn request_result_view(r: Result<TokenRequest, Error>) -> Result<TokenRequestView, ErrorView> {
    match r {
        Ok(q) => Ok(q@),
        Err(e) => Err(e@),
    }
}

fn field(name: &str, value: &str) -> (f: FormField)
    ensures
        f.name@ == name@,
        f.value@ == value@,
{
    FormField { name: name.to_string(), value: value.to_string() }
}

/// Prepares the request that exchanges an authorization `code` for an access
/// token at `token_url`; fails when `token_url` is not a valid URL.
pub fn prepare_token_request(
    token_url: &str,
    code: &str,
    redirect_uri: &str,
    client_id: &str,
    client_secret: &Option<String>,
) -> (r: Result<TokenRequest, Error>)
    ensures
        request_result_view(r) == token_request_for(
            token_url@,
            code@,
            redirect_uri@,
            client_id@,
            client_secret.deep_view(),
        ),
{
    let mut form: Vec<FormField> = Vec::new();
    form.push(field("grant_type", "authorization_code"));
    form.push(field("code", code));
    form.push(field("redirect_uri", redirect_uri));
    form.push(field("client_id", client_id));
    match client_secret {
        Some(secret) => {
            form.push(field("client_secret", secret.as_str()));
        },
        None => {},
    }
    match parse_url(token_url) {
        Some(url) => {
            let r = TokenRequest {
                url,
                form,
                content_type: "application/x-www-form-urlencoded".to_string(),
            };
            assert(form_view(r.form@) =~= token_form(
                code@,
                redirect_uri@,
                client_id@,
                client_secret.deep_view(),
            ));
            Ok(r)
        },
        None => Err(Error::new(ErrorKind::Parse, "Failed to parse external oauth2 token url")),
    }
}

/// The fields of a token form all have distinct names, as those of the map
/// that the form is encoded from.
pub proof fn lemma_token_form_names_distinct(
    code: Seq<char>,
    redirect_uri: Seq<char>,
    client_id: Seq<char>,
    client_secret: Option<Seq<char>>,
)
    ensures
        ({
            let form = token_form(code, redirect_uri, client_id, client_secret);
            forall|i: int, j: int|
                0 <= i < form.len() && 0 <= j < form.len() && i != j ==> #[trigger] form[i].0 != #[trigger] form[j].0
        }),
        token_form(code, redirect_uri, client_id, client_secret).len() == if client_secret is Some { 5int } else { 4int },
{
    reveal_strlit("grant_type");
    reveal_strlit("code");
    reveal_strlit("redirect_uri");
    reveal_strlit("client_id");
    reveal_strlit("client_secret");
    let form = token_form(code, redirect_uri, client_id, client_secret);
    assert forall|i: int, j: int|
        0 <= i < form.len() && 0 <= j < form.len() && i != j implies #[trigger] form[i].0 != #[trigger] form[j].0 by {
        // the five field names have five different lengths
        assert(form[i].0.len() != form[j].0.len());
    }
}

/// What the server does with the status and body of a token endpoint's reply.
#[derive(Debug)]
pub enum TokenReply {
    /// A success status: the body is to be decoded as an [`AccessTokenResponse`].
    Decode,
    /// Any other status: the request failed with this error.
    Failed(Error),
}

/// HTTP success statuses, 200 to 299.
pub open spec fn is_success_status(status: u16) -> bool {
    200 <= status <= 299
}

/// The error reported for a token endpoint reply with a failure status: the
/// body's text where it is UTF-8, else the decoding error.
pub open spec fn token_failure(body: Seq<u8>) -> ErrorView {
    if valid_utf8(body) {
        ErrorView {
            kind: ErrorKindView::Oauth2,
            message: "Failed to fetch oauth2 access token: "@ + decode_utf8(body),
        }
    } else {
        ErrorView {
            kind: ErrorKindView::Parse,
            message: "Failed to parse error response when fetching oauth access token: "@ + utf8_error_text(body),
        }
    }
}

/// Classifies a token endpoint's reply by its HTTP `status` and `body`.
pub fn interpret_token_response(status: u16, body: &[u8]) -> (r: TokenReply)
    ensures
        r is Decode <==> is_success_status(status),
        r is Decode <==> (200 <= status && status <= 299),
        r matches TokenReply::Failed(e) ==> e@ == token_failure(body@),
        r matches TokenReply::Failed(e) ==> (valid_utf8(body@) ==> e@ == (ErrorView {
            kind: ErrorKindView::Oauth2,
            message: "Failed to fetch oauth2 access token: "@ + decode_utf8(body@),
        })),
        r matches TokenReply::Failed(e) ==> (!valid_utf8(body@) ==> e@ == (ErrorView {
            kind: ErrorKindView::Parse,
            message: "Failed to parse error response when fetching oauth access token: "@ + utf8_error_text(body@),
        })),
{
    if 200 <= status && status <= 299 {
        TokenReply::Decode
    } else {
        match decode_utf8_text(body) {
            Ok(text) => {
                let message = join_text("Failed to fetch oauth2 access token: ", text.as_str());
                TokenReply::Failed(Error::new(ErrorKind::Oauth2, message.as_str()))
            },
            Err(reason) => {
                let message = join_text(
                    "Failed to parse error response when fetching oauth access token: ",
                    reason.as_str(),
                );
                TokenReply::Failed(Error::new(ErrorKind::Parse, message.as_str()))
            },
        }
    }
}

/// The outcome of decoding a successful token reply's body as JSON.
pub fn decode_token_response(parsed: Result<AccessTokenResponse, JsonError>) -> (r: Result<
    AccessTokenResponse,
    Error,
>)
    ensures
        parsed matches Ok(t) ==> r == Ok::<AccessTokenResponse, Error>(t),
        parsed matches Err(e) ==> r matches Err(x) && x@ == (ErrorView {
            kind: ErrorKindView::Parse,
            message: "Invalid response when fetching oauth access token: "@ + e.description@,
        }),
{
    match parsed {
        Ok(t) => Ok(t),
        Err(e) => {
            let message = join_text(
                "Invalid response when fetching oauth access token: ",
                e.description.as_str(),
            );
            Err(Error::new(ErrorKind::Parse, message.as_str()))
        },
    }
}

/// The success statuses are exactly 200 to 299: every informational,
/// redirection, client-error and server-error status is a failure.
pub proof fn lemma_success_statuses(status: u16)
    ensures
        is_success_status(status) <==> (200 <= status && status < 300),
        400 <= status < 500 ==> !is_success_status(status),
        500 <= status ==> !is_success_status(status),
        status < 200 ==> !is_success_status(status),
{
}

/// A failed token reply reports the provider's own words: a UTF-8 body is
/// an OAuth2 error whose message ends with the whole body text; any other
/// body is a parse error naming the decoding problem.
pub proof fn lemma_token_failure_reports_body(body: Seq<u8>)
    ensures
        valid_utf8(body) ==> token_failure(body).kind == ErrorKindView::Oauth2,
        valid_utf8(body) ==> token_failure(body).message
            == "Failed to fetch oauth2 access token: "@ + decode_utf8(body),
        !valid_utf8(body) ==> token_failure(body).kind == ErrorKindView::Parse,
        !valid_utf8(body) ==> token_failure(body).message
            == "Failed to parse error response when fetching oauth access token: "@ + utf8_error_text(body),
{
}

/// The view of a form is its fields' names and values, one for one, in order.
pub proof fn lemma_form_view_fields(form: Seq<FormField>)
    ensures
        form_view(form).len() == form.len(),
        forall|i: int| 0 <= i < form.len() ==> #[trigger] form_view(form)[i] == (form[i].name@, form[i].value@),
{
}

/// The token request for an authorization-code grant: it exists exactly when
/// the token URL parses, and then goes to that URL as a URL-encoded form
/// whose fields carry the arguments unchanged: grant type, code, redirect
/// URI, client id and, only when there is one, the client secret.
pub proof fn lemma_token_request_fields(
    token_url: Seq<char>,
    code: Seq<char>,
    redirect_uri: Seq<char>,
    client_id: Seq<char>,
    client_secret: Option<Seq<char>>,
)
    ensures
        token_request_for(token_url, code, redirect_uri, client_id, client_secret) is Ok
            <==> parsed_url(token_url) is Some,
        token_request_for(token_url, code, redirect_uri, client_id, client_secret) matches Err(e) ==> e
            == (ErrorView { kind: ErrorKindView::Parse, message: "Failed to parse external oauth2 token url"@ }),
        token_request_for(token_url, code, redirect_uri, client_id, client_secret) matches Ok(q) ==> {
            &&& q.url == parsed_url(token_url)->0
            &&& q.content_type == "application/x-www-form-urlencoded"@
            &&& q.form.len() == if client_secret is Some { 5int } else { 4int }
            &&& q.form[0] == ("grant_type"@, "authorization_code"@)
            &&& q.form[1] == ("code"@, code)
            &&& q.form[2] == ("redirect_uri"@, redirect_uri)
            &&& q.form[3] == ("client_id"@, client_id)
            &&& client_secret matches Some(secret) ==> q.form[4] == ("client_secret"@, secret)
            &&& forall|i: int| 0 <= i < q.form.len() && #[trigger] q.form[i].0 == "client_secret"@
                ==> client_secret == Some(q.form[i].1)
        },
{
    lemma_token_form_names_distinct(code, redirect_uri, client_id, client_secret);
    reveal_strlit("grant_type");
    reveal_strlit("code");
    reveal_strlit("redirect_uri");
    reveal_strlit("client_id");
    reveal_strlit("client_secret");
    if let Ok(q) = token_request_for(token_url, code, redirect_uri, client_id, client_secret) {
        assert forall|i: int| 0 <= i < q.form.len() && #[trigger] q.form[i].0 == "client_secret"@
            implies client_secret == Some(q.form[i].1) by {
            assert(q.form[i].0.len() == 13);
        }
    }
}

/// The model of a token request is its URL, form fields and content type,
/// and the model of a result keeps its success or failure.
pub proof fn lemma_request_models(q: TokenRequest, r: Result<TokenRequest, Error>)
    ensures
        q@.url == q.url@,
        q@.form == form_view(q.form@),
        q@.content_type == q.content_type@,
        request_result_view(r) is Ok <==> r is Ok,
        r matches Ok(x) ==> request_result_view(r) == Ok::<TokenRequestView, ErrorView>(x@),
        r matches Err(e) ==> request_result_view(r) == Err::<TokenRequestView, ErrorView>(e@),
{
}

} // verus!
