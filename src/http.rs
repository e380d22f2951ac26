//! The request options and response of the outbound HTTP helper, and the decisions it makes
//! from them: which method to send and how to read the body.
use std::collections::HashMap;
use vstd::prelude::*;
use crate::text::{lower_of, lowercase, same_text, upper_of, uppercase};

verus! {

/// Options of one request.
pub struct FetchOptions {
    /// The method name, matched without regard to case; `GET` when absent.
    pub method: Option<String>,
    pub headers: Option<HashMap<String, String>>,
    pub body: Option<String>,
    /// `bytes` (in any case) to read the body as bytes; anything else reads it as text.
    pub response_type: String,
}

/// What came back.
pub struct FetchResponse {
    pub status: u16,
    pub text: Option<String>,
    pub bytes: Option<Vec<u8>>,
    pub headers: HashMap<String, String>,
}

/// The response type used when the options name none.
pub fn default_response_type() -> (r: String)
    ensures
        r@ == "text"@,
{
    String::from_str("text")
}

/// The methods that a request may use.
#[derive(Clone, Copy, Debug, PartialEq, Eq, Structural)]
pub enum HttpMethod {
    Get,
    Post,
    Put,
    Delete,
    Patch,
    Head,
}

/// The method name of the options, `GET` when absent.
pub open spec fn method_name(m: Option<String>) -> Seq<char> {
    match m {
        Some(s) => s@,
        None => "GET"@,
    }
}

/// The method that the (uppercased) name `u` selects, if any.
pub open spec fn method_of_upper(u: Seq<char>) -> Option<HttpMethod> {
    if u == "GET"@ {
        Some(HttpMethod::Get)
    } else if u == "POST"@ {
        Some(HttpMethod::Post)
    } else if u == "PUT"@ {
        Some(HttpMethod::Put)
    } else if u == "DELETE"@ {
        Some(HttpMethod::Delete)
    } else if u == "PATCH"@ {
        Some(HttpMethod::Patch)
    } else if u == "HEAD"@ {
        Some(HttpMethod::Head)
    } else {
        None
    }
}

/// The method that an already uppercased name selects.
pub fn method_from_upper(u: &str) -> (r: Option<HttpMethod>)
    ensures
        r == method_of_upper(u@),
{
    if same_text(u, "GET") {
        Some(HttpMethod::Get)
    } else if same_text(u, "POST") {
        Some(HttpMethod::Post)
    } else if same_text(u, "PUT") {
        Some(HttpMethod::Put)
    } else if same_text(u, "DELETE") {
        Some(HttpMethod::Delete)
    } else if same_text(u, "PATCH") {
        Some(HttpMethod::Patch)
    } else if same_text(u, "HEAD") {
        Some(HttpMethod::Head)
    } else {
        None
    }
}

/// The method to send, matched without regard to case, or the error naming an unsupported one.
pub fn request_method(method: &Option<String>) -> (r: Result<HttpMethod, String>)
    ensures
        match method_of_upper(upper_of(method_name(*method))) {
            Some(m) => r == Ok::<HttpMethod, String>(m),
            None => r is Err && r->Err_0@ == "Unsupported HTTP method: "@ + method_name(*method),
        },
{
    let name = match method {
        Some(m) => m.clone(),
        None => String::from_str("GET"),
    };
    let upper = uppercase(name.as_str());
    match method_from_upper(upper.as_str()) {
        Some(m) => Ok(m),
        None => Err(String::from_str("Unsupported HTTP method: ").concat(name.as_str())),
    }
}

/// Whether the body is to be read as bytes: the response type is `bytes` in any case.
pub fn wants_bytes(response_type: &str) -> (r: bool)
    ensures
        r == (lower_of(response_type@) == "bytes"@),
{
    let lower = lowercase(response_type);
    same_text(lower.as_str(), "bytes")
}

} // verus!
