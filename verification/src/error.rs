use vstd::prelude::*;

verus! {

/// What the server keeps of an error reported by the upstream mail library:
/// the text that the library's error displays.
#[derive(Debug)]
pub struct UpstreamError {
    pub description: String,
}

/// What the server keeps of a failed outgoing HTTP request: the text that the
/// HTTP client's error displays.
#[derive(Debug)]
pub struct RequestError {
    pub description: String,
}

/// What the server keeps of a failed JSON (de)serialisation: the text that
/// the JSON library's error displays.
#[derive(Debug)]
pub struct JsonError {
    pub description: String,
}

/// The category of an [`Error`]; three categories carry the error that caused them.
#[derive(Debug)]
pub enum ErrorKind {
    SdkError(UpstreamError),
    OutgoingHttpRequest(RequestError),
    SerializeJson(JsonError),
    Oauth2,
    BadConfig,
    Unauthorized,
    BadRequest,
    TooManyRequests,
    NotFound,
    Parse,
    InternalError,
}

/// Mathematical model of an [`ErrorKind`]: a wrapped cause is kept as its text.
pub enum ErrorKindView {
    SdkError(Seq<char>),
    OutgoingHttpRequest(Seq<char>),
    SerializeJson(Seq<char>),
    Oauth2,
    BadConfig,
    Unauthorized,
    BadRequest,
    TooManyRequests,
    NotFound,
    Parse,
    InternalError,
}

impl View for ErrorKind {
    type V = ErrorKindView;

    open spec fn view(&self) -> ErrorKindView {
        match self {
            ErrorKind::SdkError(e) => ErrorKindView::SdkError(e.description@),
            ErrorKind::OutgoingHttpRequest(e) => ErrorKindView::OutgoingHttpRequest(e.description@),
            ErrorKind::SerializeJson(e) => ErrorKindView::SerializeJson(e.description@),
            ErrorKind::Oauth2 => ErrorKindView::Oauth2,
            ErrorKind::BadConfig => ErrorKindView::BadConfig,
            ErrorKind::Unauthorized => ErrorKindView::Unauthorized,
            ErrorKind::BadRequest => ErrorKindView::BadRequest,
            ErrorKind::TooManyRequests => ErrorKindView::TooManyRequests,
            ErrorKind::NotFound => ErrorKindView::NotFound,
            ErrorKind::Parse => ErrorKindView::Parse,
            ErrorKind::InternalError => ErrorKindView::InternalError,
        }
    }
}

/// The error of every fallible operation of the server: a category and a
/// human readable message.
#[derive(Debug)]
pub struct Error {
    message: String,
    kind: ErrorKind,
}

/// Mathematical model of an [`Error`].
pub struct ErrorView {
    pub kind: ErrorKindView,
    pub message: Seq<char>,
}

impl View for Error {
    type V = ErrorView;

    closed spec fn view(&self) -> ErrorView {
        ErrorView { kind: self.kind@, message: self.message@ }
    }
}

impl Error {
    pub fn new(kind: ErrorKind, message: &str) -> (r: Error)
        ensures
            r@ == (ErrorView { kind: kind@, message: message@ }),
    {
        Error { kind, message: message.to_string() }
    }

    pub fn kind(&self) -> (r: &ErrorKind)
        ensures
            r@ == self@.kind,
    {
        &self.kind
    }

    /// The error that the upstream mail library reported, wrapped.
    pub fn from_upstream(error: UpstreamError) -> (r: Error)
        ensures
            r@ == (ErrorView {
                kind: ErrorKindView::SdkError(error.description@),
                message: "Error with upstream mail server"@,
            }),
    {
        Error::new(ErrorKind::SdkError(error), "Error with upstream mail server")
    }

    /// A failed outgoing HTTP request, wrapped.
    pub fn from_request(error: RequestError) -> (r: Error)
        ensures
            r@ == (ErrorView {
                kind: ErrorKindView::OutgoingHttpRequest(error.description@),
                message: "Outgoing HTTP request failed"@,
            }),
    {
        Error::new(ErrorKind::OutgoingHttpRequest(error), "Outgoing HTTP request failed")
    }

    /// A failed JSON (de)serialisation, wrapped.
    pub fn from_json(error: JsonError) -> (r: Error)
        ensures
            r@ == (ErrorView {
                kind: ErrorKindView::SerializeJson(error.description@),
                message: "Failed to serialize json data"@,
            }),
    {
        Error::new(ErrorKind::SerializeJson(error), "Failed to serialize json data")
    }

    /// The text the error displays: its own message.
    pub fn to_display_string(&self) -> (r: String)
        ensures
            r@ == self@.message,
    {
        self.message.clone()
    }

    /// The text of the underlying cause, for the two categories that keep one
    /// as their source (upstream mail errors and outgoing HTTP errors).
    pub fn source_description(&self) -> (r: Option<String>)
        ensures
            r.deep_view() == source_text(self@.kind),
    {
        match &self.kind {
            ErrorKind::SdkError(e) => Some(e.description.clone()),
            ErrorKind::OutgoingHttpRequest(e) => Some(e.description.clone()),
            _ => None,
        }
    }

    /// The `message` field of the error's JSON form: the source's text where
    /// there is a source, the error's own message otherwise.
    pub fn serialized_message(&self) -> (r: String)
        ensures
            r@ == public_message(self@),
    {
        match self.source_description() {
            Some(d) => d,
            None => self.to_display_string(),
        }
    }

    /// The `kind` field of the error's JSON form, the same for every error.
    pub fn serialized_kind(&self) -> (r: String)
        ensures
            r@ == "MailError"@,
    {
        "MailError".to_string()
    }
}

/// The text of an error's source, where its category keeps one.
pub open spec fn source_text(kind: ErrorKindView) -> Option<Seq<char>> {
    match kind {
        ErrorKindView::SdkError(d) => Some(d),
        ErrorKindView::OutgoingHttpRequest(d) => Some(d),
        _ => None,
    }
}

/// The message that a client sees of an error.
pub open spec fn public_message(e: ErrorView) -> Seq<char> {
    match source_text(e.kind) {
        Some(d) => d,
        None => e.message,
    }
}

/// A client is shown the upstream mail library's own text for an upstream
/// failure and the HTTP client's own text for an outgoing request failure,
/// not the generic wrapping message; every other error shows its message.
pub proof fn lemma_public_message_shows_cause(e: ErrorView)
    ensures
        e.kind matches ErrorKindView::SdkError(d) ==> public_message(e) == d,
        e.kind matches ErrorKindView::OutgoingHttpRequest(d) ==> public_message(e) == d,
        !(e.kind is SdkError) && !(e.kind is OutgoingHttpRequest) ==> public_message(e) == e.message,
{
}

/// The model of an error category is that same category, and a wrapped
/// cause is modelled by its text.
pub proof fn lemma_kind_view_same_category(kind: ErrorKind)
    ensures
        (kind@ is SdkError) <==> (kind is SdkError),
        (kind@ is OutgoingHttpRequest) <==> (kind is OutgoingHttpRequest),
        (kind@ is SerializeJson) <==> (kind is SerializeJson),
        (kind@ is Oauth2) <==> (kind is Oauth2),
        (kind@ is BadConfig) <==> (kind is BadConfig),
        (kind@ is Unauthorized) <==> (kind is Unauthorized),
        (kind@ is BadRequest) <==> (kind is BadRequest),
        (kind@ is TooManyRequests) <==> (kind is TooManyRequests),
        (kind@ is NotFound) <==> (kind is NotFound),
        (kind@ is Parse) <==> (kind is Parse),
        (kind@ is InternalError) <==> (kind is InternalError),
        kind matches ErrorKind::SdkError(e) ==> kind@ == ErrorKindView::SdkError(e.description@),
        kind matches ErrorKind::OutgoingHttpRequest(e) ==> kind@ == ErrorKindView::OutgoingHttpRequest(e.description@),
        kind matches ErrorKind::SerializeJson(e) ==> kind@ == ErrorKindView::SerializeJson(e.description@),
{
}

} // verus!
