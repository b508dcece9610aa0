//! The decisions of each command: which request to send, and how a result
//! becomes an exit status and a diagnostic line.
use vstd::prelude::*;
use crate::api::{build_request, request_headers, request_url, ApiRequest, Endpoint};
use crate::credential::{require_api_key, resolved, CredentialSources};
use crate::error::{message_of, JinabError};

verus! {

/// Plans a request to `endpoint` for `path`: it is authenticated by the
/// credential in effect, and there is no request when no credential exists.
pub fn prepare_request(sources: &CredentialSources, endpoint: Endpoint, path: &str, json: bool) -> (r: Result<ApiRequest, JinabError>)
    ensures
        match r {
            Ok(req) => resolved(sources.env_view(), sources.file_view()) is Some
                && req.url@ == request_url(endpoint, path@)
                && req.header_pairs() == request_headers(
                    resolved(sources.env_view(), sources.file_view())->Some_0, json),
            Err(e) => resolved(sources.env_view(), sources.file_view()) is None
                && e == JinabError::MissingCredential,
        },
{
    let api_key = require_api_key(sources)?;
    Ok(build_request(endpoint, path, api_key.as_str(), json))
}

/// Plans the request that reads the page at `url`.
pub fn cmd_read(sources: &CredentialSources, url: &str, json: bool) -> (r: Result<ApiRequest, JinabError>)
    ensures
        match r {
            Ok(req) => resolved(sources.env_view(), sources.file_view()) is Some
                && req.url@ == request_url(Endpoint::Read, url@)
                && req.header_pairs() == request_headers(
                    resolved(sources.env_view(), sources.file_view())->Some_0, json),
            Err(e) => resolved(sources.env_view(), sources.file_view()) is None
                && e == JinabError::MissingCredential,
        },
{
    prepare_request(sources, Endpoint::Read, url, json)
}

/// Plans the request that searches the web for `query`.
pub fn cmd_search(sources: &CredentialSources, query: &str, json: bool) -> (r: Result<ApiRequest, JinabError>)
    ensures
        match r {
            Ok(req) => resolved(sources.env_view(), sources.file_view()) is Some
                && req.url@ == request_url(Endpoint::Search, query@)
                && req.header_pairs() == request_headers(
                    resolved(sources.env_view(), sources.file_view())->Some_0, json),
            Err(e) => resolved(sources.env_view(), sources.file_view()) is None
                && e == JinabError::MissingCredential,
        },
{
    prepare_request(sources, Endpoint::Search, query, json)
}

/// The process exit status for a command's result: 0 on success, 1 on failure.
pub fn exit_status(result: &Result<(), JinabError>) -> (r: u8)
    ensures
        r == (if result is Ok { 0u8 } else { 1u8 }),
{
    match result {
        Ok(()) => 0,
        Err(_) => 1,
    }
}

/// The diagnostic line for a failure: its message after an `Error: ` prefix.
pub fn error_line(e: &JinabError) -> (r: String)
    ensures
        r@ == "Error: "@ + message_of(*e),
{
    let mut r = "Error: ".to_string();
    r.append(e.message().as_str());
    r
}

} // verus!
