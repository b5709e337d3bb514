//! Plain-value shapes of an HTTP exchange: the request the library builds,
//! and the outcome of a fetch that the surrounding program hands back.

use vstd::prelude::*;
use vstd::string::*;

verus! {

/// The HTTP method of a request.
#[derive(Clone, Copy, PartialEq, Eq, Structural, Debug)]
pub enum Method {
    Get,
    Post,
}

/// One request, fully built: everything the transport needs to send it.
#[derive(Debug)]
pub struct ApiRequest {
    pub method: Method,
    pub url: String,
    /// Header name and value pairs, in the order they are attached.
    pub headers: Vec<(String, String)>,
    /// The JSON body, absent for requests sent without one.
    pub body: Option<String>,
}

/// What one fetch attempt produced: the response body text, or a transport
/// failure (connection, TLS or timeout — anything that left no body).
#[derive(Debug)]
pub enum FetchOutcome {
    Body(String),
    TransportFailure,
}

/// The bearer authorization header for the given key.
pub fn bearer_header(api_key: &str) -> (h: (String, String))
    ensures
        h.0@ == "Authorization"@,
        h.1@ == "Bearer "@ + api_key@,
{
    let mut value = String::from_str("Bearer ");
    value.append(api_key);
    (String::from_str("Authorization"), value)
}

/// The JSON content-type header.
pub fn json_content_header() -> (h: (String, String))
    ensures
        h.0@ == "Content-Type"@,
        h.1@ == "application/json"@,
{
    (String::from_str("Content-Type"), String::from_str("application/json"))
}

/// The beta-feature header that the assistants endpoints require.
pub fn beta_header() -> (h: (String, String))
    ensures
        h.0@ == "OpenAI-Beta"@,
        h.1@ == "assistants=v2"@,
{
    (String::from_str("OpenAI-Beta"), String::from_str("assistants=v2"))
}

/// Appends the beta-feature header to an already built request, leaving
/// everything else as it was.
pub fn push_beta_header(req: &mut ApiRequest)
    ensures
        final(req).method == old(req).method,
        final(req).url == old(req).url,
        final(req).body == old(req).body,
        final(req).headers@.len() == old(req).headers@.len() + 1,
        forall|i: int| 0 <= i < old(req).headers@.len()
            ==> final(req).headers@[i] == old(req).headers@[i],
        final(req).headers@.last().0@ == "OpenAI-Beta"@,
        final(req).headers@.last().1@ == "assistants=v2"@,
{
    let h = beta_header();
    req.headers.push(h);
}

} // verus!
