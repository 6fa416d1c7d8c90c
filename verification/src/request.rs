//! The one request shape that the transport ever sends, and the destination
//! addresses it may be sent to.

use vstd::prelude::*;

verus! {

/// The text of the URI that `hyper::Uri`'s parser makes of `text`, or `None`
/// where the parser refuses `text`.
pub uninterp spec fn parsed_uri(text: Seq<char>) -> Option<Seq<char>>;

/// Parses `text` with `hyper::Uri`'s `FromStr` and reads the accepted URI back
/// through its `AsRef<str>`.
///
/// The parser is a function of the text alone, so its answer has a name:
/// on success the returned string is `parsed_uri(text@)`, and a refusal means
/// that `parsed_uri(text@)` is `None`.
#[verifier::external_body]
pub(crate) fn parse_uri(text: &str) -> (r: Result<String, hyper::error::UriError>)
    ensures
        match r {
            Ok(uri) => parsed_uri(text@) == Some(uri@),
            Err(_) => parsed_uri(text@) is None,
        },
{
    match text.parse::<hyper::Uri>() {
        Ok(uri) => Ok(uri.as_ref().to_string()),
        Err(refusal) => Err(refusal),
    }
}

/// HTTP request methods.
#[derive(Clone, Copy, Debug, PartialEq, Eq, Structural)]
pub enum Method {
    Options,
    Get,
    Post,
    Put,
    Delete,
    Head,
    Trace,
    Connect,
    Patch,
}

/// The media type of every request body.
pub const JSON_CONTENT_TYPE: &'static str = "application/json";

/// An outbound HTTP request, as plain values.
#[derive(Debug)]
pub struct HttpRequest {
    pub method: Method,
    /// Text of the destination URI.
    pub uri: String,
    /// Value of the `Content-Type` header.
    pub content_type: &'static str,
    /// Value of the `Content-Length` header.
    pub content_length: u64,
    pub body: Vec<u8>,
}

/// The request that carries `payload` to `uri`: a POST with a JSON content
/// type whose declared length is the payload's length and whose body is the
/// payload, byte for byte.
pub open spec fn rpc_request(uri: Seq<char>, payload: Seq<u8>, r: HttpRequest) -> bool {
    &&& r.method == Method::Post
    &&& r.uri@ == uri
    &&& r.content_type == JSON_CONTENT_TYPE
    &&& r.content_length == payload.len()
    &&& r.body@ == payload
}

impl HttpRequest {
    /// Whether the declared length is the length of the body.
    pub open spec fn length_matches(&self) -> bool {
        self.content_length == self.body@.len()
    }

    /// Builds the request that carries `payload` to `uri`.
    pub fn post_json(uri: &String, payload: Vec<u8>) -> (r: HttpRequest)
        ensures
            rpc_request(uri@, payload@, r),
            r.length_matches(),
    {
        let content_length = payload.len() as u64;
        HttpRequest {
            method: Method::Post,
            uri: uri.clone(),
            content_type: JSON_CONTENT_TYPE,
            content_length,
            body: payload,
        }
    }
}

} // verus!
