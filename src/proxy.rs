//! The proxy client: requests to the worker's fixed local endpoint, and the
//! classification of their outcomes.
use vstd::prelude::*;
use crate::text::{decode_lossy, lossy_text};

verus! {

#[verifier::external_type_specification]
#[verifier::external_body]
pub struct ExJsonValue(serde_json::Value);

#[verifier::external_type_specification]
#[verifier::external_body]
pub struct ExJsonError(serde_json::Error);

/// The worker's HTTP endpoint; every request path is appended to it.
pub const BASE_URL: &'static str = "http://127.0.0.1:9527";

/// How many redirects a request follows.
pub const MAX_REDIRECTS: usize = 10;

/// Whether a byte sequence is one JSON document, as serde_json reads it.
pub uninterp spec fn json_accepts(b: Seq<u8>) -> bool;

/// Relies on `serde_json::from_slice` into a `serde_json::Value`: it succeeds
/// exactly on the inputs that hold one JSON document.
#[verifier::external_body]
fn parse_json(b: &[u8]) -> (r: Result<serde_json::Value, serde_json::Error>)
    ensures
        r is Ok <==> json_accepts(b@),
{
    serde_json::from_slice::<serde_json::Value>(b)
}

/// Relies on the `Display` impl of `serde_json::Error` for its message.
#[verifier::external_body]
fn json_error_message(e: &serde_json::Error) -> (r: String) {
    e.to_string()
}

/// The method of a unary request.
#[derive(Clone, Copy, Debug, PartialEq, Eq, Structural)]
pub enum Method {
    Get,
    Post,
    Put,
    Patch,
    Delete,
}

impl Method {
    /// Whether requests of this method carry a JSON body when one is given.
    pub fn takes_body(&self) -> (r: bool)
        ensures
            r == !(*self is Get || *self is Delete),
    {
        match self {
            Method::Get | Method::Delete => false,
            _ => true,
        }
    }

    /// The method's name on the wire.
    pub fn as_str(&self) -> (r: &'static str)
        ensures
            r@ == match *self {
                Method::Get => "GET"@,
                Method::Post => "POST"@,
                Method::Put => "PUT"@,
                Method::Patch => "PATCH"@,
                Method::Delete => "DELETE"@,
            },
    {
        match self {
            Method::Get => "GET",
            Method::Post => "POST",
            Method::Put => "PUT",
            Method::Patch => "PATCH",
            Method::Delete => "DELETE",
        }
    }
}

/// The full address of a path on the worker.
pub open spec fn url_of(path: Seq<char>) -> Seq<char> {
    BASE_URL@ + path
}

/// The full address of `path` on the worker: the base address followed by
/// the path as given.
pub fn request_url(path: &str) -> (r: String)
    ensures
        r@ == url_of(path@),
{
    let mut url = BASE_URL.to_owned();
    url.append(path);
    url
}

/// Why a request to the worker failed.
#[derive(Clone, Debug, PartialEq, Eq)]
pub enum ProxyError {
    /// The worker could not be reached, with the transport's message.
    Transport(String),
    /// The worker answered with a status outside 2xx, and this body text.
    Http { status: u16, body_text: String },
    /// A 2xx answer whose body is not JSON, with the parser's message.
    Decode(String),
    /// A streaming request named a method other than GET or POST.
    UnsupportedMethod(String),
}

/// A response as it arrived: its status, and its body unless the body could
/// not be read.
#[derive(Clone, Debug, PartialEq, Eq)]
pub struct Reply {
    pub status: u16,
    pub body: Option<Vec<u8>>,
}

/// Whether a status is a success (2xx).
pub open spec fn is_success(status: u16) -> bool {
    200 <= status < 300
}

/// The text reported for the body of a failed request: empty when the body
/// could not be read.
pub open spec fn body_text_of(body: Option<Seq<u8>>) -> Seq<char> {
    match body {
        Some(b) => lossy_text(b),
        None => Seq::empty(),
    }
}

/// The body of a reply as plain values.
pub open spec fn body_view(reply: Reply) -> Option<Seq<u8>> {
    match reply.body {
        Some(b) => Some(b@),
        None => None,
    }
}

/// Whether a status is a success (2xx).
pub fn status_is_success(status: u16) -> (r: bool)
    ensures
        r == is_success(status),
{
    200 <= status && status < 300
}

/// Checks the status of a streaming response before its body is relayed: a
/// failure status becomes an HTTP error carrying the body text.
pub fn check_status(reply: &Reply) -> (r: Result<(), ProxyError>)
    ensures
        is_success(reply.status) ==> r is Ok,
        !is_success(reply.status) ==> r is Err && r->Err_0 is Http && r->Err_0->Http_status
            == reply.status && r->Err_0->Http_body_text@ == body_text_of(body_view(*reply)),
{
    if status_is_success(reply.status) {
        Ok(())
    } else {
        let body_text = match &reply.body {
            Some(b) => decode_lossy(b.as_slice()),
            None => String::new(),
        };
        Err(ProxyError::Http { status: reply.status, body_text })
    }
}

/// Classifies the outcome of a unary request: a transport failure, a failure
/// status with its body text, a body that is not JSON, or the parsed JSON.
pub fn classify_response(sent: Result<Reply, String>) -> (r: Result<serde_json::Value, ProxyError>)
    ensures
        match sent {
            Err(m) => r == Err::<serde_json::Value, ProxyError>(ProxyError::Transport(m)),
            Ok(reply) => if !is_success(reply.status) {
                &&& r is Err
                &&& r->Err_0 is Http
                &&& r->Err_0->Http_status == reply.status
                &&& r->Err_0->Http_body_text@ == body_text_of(body_view(reply))
            } else {
                match reply.body {
                    Some(b) => {
                        &&& r is Ok <==> json_accepts(b@)
                        &&& r is Err ==> r->Err_0 is Decode
                    },
                    None => r is Err && r->Err_0 is Decode,
                }
            },
        },
{
    match sent {
        Err(m) => Err(ProxyError::Transport(m)),
        Ok(reply) => {
            match check_status(&reply) {
                Err(e) => Err(e),
                Ok(()) => match reply.body {
                    Some(b) => match parse_json(b.as_slice()) {
                        Ok(v) => Ok(v),
                        Err(e) => Err(ProxyError::Decode(json_error_message(&e))),
                    },
                    None => Err(ProxyError::Decode("response body could not be read".to_owned())),
                },
            }
        },
    }
}

} // verus!
