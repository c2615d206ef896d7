use vstd::prelude::*;

verus! {

/// Adds the CORS headers that let the web client call the server.
#[derive(Debug, Clone, Copy)]
pub struct CORS;

/// A header to set on a response.
#[derive(Debug)]
pub struct ResponseHeader {
    pub name: String,
    pub value: String,
}

/// How a response is to be changed: headers to set and, for a preflight
/// request, the status to answer with.
#[derive(Debug)]
pub struct ResponseChange {
    pub headers: Vec<ResponseHeader>,
    pub status: Option<u16>,
}

/// The HTTP status "204 No Content".
pub const NO_CONTENT: u16 = 204;

/// The CORS headers for the configured allowed origin, in the order they are set.
pub open spec fn cors_headers(origin: Seq<char>) -> Seq<(Seq<char>, Seq<char>)> {
    seq![
        ("Access-Control-Allow-Origin"@, origin),
        ("Access-Control-Allow-Methods"@, "POST, GET"@),
        ("Access-Control-Allow-Headers"@, "Content-Type, Authorization"@),
        ("Access-Control-Max-Age"@, "86400"@),
        ("Access-Control-Allow-Credentials"@, "true"@),
    ]
}

pub open spec fn headers_view(headers: Seq<ResponseHeader>) -> Seq<(Seq<char>, Seq<char>)> {
    headers.map_values(|h: ResponseHeader| (h.name@, h.value@))
}

fn header(name: &str, value: &str) -> (h: ResponseHeader)
    ensures
        h.name@ == name@,
        h.value@ == value@,
{
    ResponseHeader { name: name.to_string(), value: value.to_string() }
}

impl CORS {
    /// The name under which the fairing is registered.
    pub fn info_name(&self) -> (r: &'static str)
        ensures
            r@ == "Add CORS headers to responses"@,
    {
        "Add CORS headers to responses"
    }

    /// The change to every response: nothing when the server configuration
    /// is not available (`cors_origin` is `None`); otherwise the CORS headers
    /// for the configured origin, and "No Content" for an `OPTIONS` request.
    pub fn on_response(&self, cors_origin: Option<&str>, is_options_request: bool) -> (r: Option<ResponseChange>)
        ensures
            match cors_origin {
                None => r is None,
                Some(origin) => r matches Some(change) && {
                    &&& headers_view(change.headers@) == cors_headers(origin@)
                    &&& change.status == if is_options_request { Some(NO_CONTENT) } else { None }
                },
            },
    {
        match cors_origin {
            None => None,
            Some(origin) => {
                let mut headers: Vec<ResponseHeader> = Vec::new();
                headers.push(header("Access-Control-Allow-Origin", origin));
                headers.push(header("Access-Control-Allow-Methods", "POST, GET"));
                headers.push(header("Access-Control-Allow-Headers", "Content-Type, Authorization"));
                headers.push(header("Access-Control-Max-Age", "86400"));
                headers.push(header("Access-Control-Allow-Credentials", "true"));
                assert(headers_view(headers@) =~= cors_headers(origin@));
                let status = if is_options_request { Some(NO_CONTENT) } else { None };
                Some(ResponseChange { headers, status })
            },
        }
    }
}

/// Every response gets the same five CORS headers; the allowed origin is the
/// configured one, and only that header depends on the configuration.
pub proof fn lemma_cors_headers_fixed(a: Seq<char>, b: Seq<char>)
    ensures
        cors_headers(a).len() == 5,
        cors_headers(a)[0] == ("Access-Control-Allow-Origin"@, a),
        forall|i: int| 1 <= i < 5 ==> cors_headers(a)[i] == cors_headers(b)[i],
{
}

/// The CORS headers allow the configured origin, the POST and GET methods,
/// the Content-Type and Authorization request headers and credentials, and
/// let browsers cache this for a day (86400 seconds).
pub proof fn lemma_cors_header_values(origin: Seq<char>)
    ensures
        cors_headers(origin) == seq![
            ("Access-Control-Allow-Origin"@, origin),
            ("Access-Control-Allow-Methods"@, "POST, GET"@),
            ("Access-Control-Allow-Headers"@, "Content-Type, Authorization"@),
            ("Access-Control-Max-Age"@, "86400"@),
            ("Access-Control-Allow-Credentials"@, "true"@),
        ],
        NO_CONTENT == 204,
{
}

/// The view of a header list is the headers' names and values, one for one.
pub proof fn lemma_headers_view_fields(headers: Seq<ResponseHeader>)
    ensures
        headers_view(headers).len() == headers.len(),
        forall|i: int| 0 <= i < headers.len() ==> #[trigger] headers_view(headers)[i] == (headers[i].name@, headers[i].value@),
{
}

} // verus!
