//! Building the one authenticated GET request, and classifying its response.
use vstd::prelude::*;
use crate::error::{JinabError, TransportStage};

verus! {

/// The two services a request can go to.
#[derive(Clone, Copy, Debug, PartialEq, Eq, Structural)]
pub enum Endpoint {
    /// Reads a page: the path segment is the page's URL.
    Read,
    /// Searches the web: the path segment is the query.
    Search,
}

/// The base URL of an endpoint, without a trailing slash.
pub open spec fn base_url_of(e: Endpoint) -> Seq<char> {
    match e {
        Endpoint::Read => "https://r.jina.ai"@,
        Endpoint::Search => "https://s.jina.ai"@,
    }
}

impl Endpoint {
    /// The base URL of this endpoint.
    pub fn base_url(&self) -> (r: &'static str)
        ensures
            r@ == base_url_of(*self),
    {
        match self {
            Endpoint::Read => "https://r.jina.ai",
            Endpoint::Search => "https://s.jina.ai",
        }
    }
}

/// One request header.
#[derive(Clone, Debug, PartialEq, Eq)]
pub struct Header {
    pub name: String,
    pub value: String,
}

impl Header {
    /// The header as a (name, value) pair of character sequences.
    pub open spec fn view_pair(&self) -> (Seq<char>, Seq<char>) {
        (self.name@, self.value@)
    }
}

/// A GET request: where it goes, and the headers it carries, in order.
#[derive(Clone, Debug, PartialEq, Eq)]
pub struct ApiRequest {
    pub url: String,
    pub headers: Vec<Header>,
}

impl ApiRequest {
    /// The headers as (name, value) pairs of character sequences.
    pub open spec fn header_pairs(&self) -> Seq<(Seq<char>, Seq<char>)> {
        self.headers@.map_values(|h: Header| h.view_pair())
    }
}

/// The request URL: the base, one slash, and the path segment unchanged.
pub open spec fn request_url(e: Endpoint, path: Seq<char>) -> Seq<char> {
    base_url_of(e) + "/"@ + path
}

/// The header that asks for a structured (JSON) response.
pub open spec fn accept_json_header() -> (Seq<char>, Seq<char>) {
    ("Accept"@, "application/json"@)
}

/// The headers of a request: the bearer credential, then, where structured
/// output is wanted, the JSON `Accept` header.
pub open spec fn request_headers(api_key: Seq<char>, want_structured: bool) -> Seq<(Seq<char>, Seq<char>)> {
    let auth = seq![("Authorization"@, "Bearer "@ + api_key)];
    if want_structured {
        auth.push(accept_json_header())
    } else {
        auth
    }
}

/// Builds the request for `path` on `endpoint`, authenticated by `api_key`.
pub fn build_request(endpoint: Endpoint, path: &str, api_key: &str, want_structured: bool) -> (r: ApiRequest)
    ensures
        r.url@ == request_url(endpoint, path@),
        r.header_pairs() == request_headers(api_key@, want_structured),
{
    let mut url = endpoint.base_url().to_string();
    url.append("/");
    url.append(path);
    let mut value = "Bearer ".to_string();
    value.append(api_key);
    let mut headers: Vec<Header> = Vec::new();
    headers.push(Header { name: "Authorization".to_string(), value });
    if want_structured {
        headers.push(Header { name: "Accept".to_string(), value: "application/json".to_string() });
    }
    let r = ApiRequest { url, headers };
    assert(r.header_pairs() =~= request_headers(api_key@, want_structured));
    r
}

/// A status code in the success range 200..=299.
pub open spec fn is_success_status(status: u16) -> bool {
    200 <= status <= 299
}

/// Classifies a response with `status`, whose body was read as `body` (`Err`
/// holding the cause where reading it failed). A success status yields the
/// body unchanged; any other status yields `ApiError` with that exact status
/// and the body, or an empty body where it could not be read. Only a failed
/// read after a success status is a transport failure.
pub fn classify_response(status: u16, body: Result<String, String>) -> (r: Result<String, JinabError>)
    ensures
        !is_success_status(status) ==> (r matches Err(JinabError::ApiError { status: s, .. }) && s == status),
        match r {
            Ok(b) => is_success_status(status) && body is Ok && b@ == body->Ok_0@,
            Err(JinabError::TransportError { stage, cause }) => is_success_status(status) && body is Err
                && stage == TransportStage::ReadBody && cause@ == body->Err_0@,
            Err(JinabError::ApiError { status: s, body: t }) => !is_success_status(status) && s == status
                && t@ == match body {
                Ok(b) => b@,
                Err(_) => Seq::<char>::empty(),
            },
            Err(_) => false,
        },
{
    if 200 <= status && status <= 299 {
        match body {
            Ok(b) => Ok(b),
            Err(cause) => Err(JinabError::TransportError { stage: TransportStage::ReadBody, cause }),
        }
    } else {
        let text = match body {
            Ok(b) => b,
            Err(_) => String::new(),
        };
        Err(JinabError::ApiError { status, body: text })
    }
}

/// A request asks for structured output exactly when it was built to.
pub proof fn lemma_accept_header_iff_structured(api_key: Seq<char>, want_structured: bool)
    ensures
        request_headers(api_key, want_structured).contains(accept_json_header()) <==> want_structured,
{
    let hs = request_headers(api_key, want_structured);
    reveal_strlit("Authorization");
    reveal_strlit("Accept");
    assert("Authorization"@[1] != "Accept"@[1]);
    if want_structured {
        assert(hs[1] == accept_json_header());
    } else {
        assert(hs.len() == 1);
        assert(hs[0] != accept_json_header());
    }
}

} // verus!
