//! HTTP transport layer, content type encoding, and client abstraction.
//!
//! HTTP messages are plain data here: a request is a method, a URI, a
//! list of headers and either a parameter list (before encoding) or a
//! body of bytes (after). Sending is the transport collaborator's job,
//! reached through the [`HttpClient`] trait; this layer performs no
//! retries and keeps no state.

use vstd::prelude::*;
use vstd::string::{StrSliceExecFns, StringExecFns};

use crate::client::OAuth2ClientError;
use crate::codec::{form_encode_params, form_encoded_of, param_keys, param_values};
use crate::types::{str_eq, text_bytes};

verus! {

/// `Content-Type` value for JSON bodies.
pub const APPLICATION_JSON: &'static str = "application/json";

/// `Content-Type` value for form-urlencoded bodies.
pub const APPLICATION_X_WWW_FORM_URLENCODED: &'static str = "application/x-www-form-urlencoded";

/// An HTTP method used by this protocol.
#[derive(Debug, Clone, Copy, PartialEq, Eq, Structural)]
pub enum Method {
    /// `GET`.
    Get,
    /// `POST`.
    Post,
}

/// An HTTP request before body encoding: the body is still a parameter
/// list, together with the content type that will encode it.
pub struct RequestParts {
    /// The request method.
    pub method: Method,
    /// The request URI, as text.
    pub uri: String,
    /// The request headers, as name-value pairs with lowercase names.
    pub headers: Vec<(String, String)>,
    /// The content type that encodes the parameters.
    pub content_type: BodyEncoding,
    /// The body, as a parameter list.
    pub params: Vec<(String, String)>,
}

/// An encoded HTTP request, ready for the transport.
pub struct RawRequest {
    /// The request method.
    pub method: Method,
    /// The request URI, as text.
    pub uri: String,
    /// The request headers, as name-value pairs with lowercase names.
    pub headers: Vec<(String, String)>,
    /// The encoded body.
    pub body: Vec<u8>,
}

/// An HTTP response, as raw data.
pub struct ResponseParts {
    /// The response status code.
    pub status: u16,
    /// The response headers, as name-value pairs with lowercase names.
    pub headers: Vec<(String, String)>,
    /// The raw response body.
    pub body: Vec<u8>,
}

/// The body encoding of a request: no body, or a form-urlencoded body.
///
/// JSON appears in this protocol only on the response side, so requests
/// are never JSON-encoded here.
#[derive(Debug, Clone, Copy, PartialEq, Eq, Structural)]
pub enum BodyEncoding {
    /// No request body.
    NoBody,
    /// `application/x-www-form-urlencoded`.
    Form,
}

/// The header value declared by a body encoding, if any.
pub open spec fn body_encoding_header(k: BodyEncoding) -> Option<Seq<char>> {
    match k {
        BodyEncoding::NoBody => None,
        BodyEncoding::Form => Some(APPLICATION_X_WWW_FORM_URLENCODED@),
    }
}

/// The bytes a body encoding produces from a parameter list.
pub open spec fn body_encoding_bytes(k: BodyEncoding, params: Seq<(String, String)>) -> Seq<u8> {
    match k {
        BodyEncoding::NoBody => Seq::<u8>::empty(),
        BodyEncoding::Form => text_bytes(form_encoded_of(param_keys(params), param_values(params))),
    }
}

/// Encodes a parameter list with the given body encoding.
pub fn encode_body(k: BodyEncoding, params: &Vec<(String, String)>) -> (r: Vec<u8>)
    ensures
        r@ == body_encoding_bytes(k, params@),
{
    match k {
        BodyEncoding::NoBody => Vec::new(),
        BodyEncoding::Form => {
            let s = form_encode_params(params);
            let v = s.as_str().as_bytes_vec();
            proof {
                assert(v@ =~= text_bytes(s@));
            }
            v
        },
    }
}

/// Trait for encoding request bodies with a specific content type.
pub trait ContentType {
    /// The `Content-Type` header value, or `None` for requests with no
    /// body.
    fn header_value() -> (r: Option<&'static str>);

    /// The body encoding this content type stands for.
    fn encoding() -> (r: BodyEncoding);
}

/// No request body. Used for requests that don't carry a payload.
pub struct NoContent;

impl ContentType for NoContent {
    fn header_value() -> (r: Option<&'static str>)
        ensures
            match r {
                Some(v) => body_encoding_header(BodyEncoding::NoBody) == Some(v@),
                None => body_encoding_header(BodyEncoding::NoBody) is None,
            },
    {
        None
    }

    fn encoding() -> (r: BodyEncoding)
        ensures
            r == BodyEncoding::NoBody,
    {
        BodyEncoding::NoBody
    }
}

/// JSON (`application/json`) content. In this protocol JSON stands only
/// in responses; requests never carry a JSON body.
pub struct Json;

impl Json {
    /// The `Content-Type` value of a JSON body.
    pub fn header_value() -> (r: &'static str)
        ensures
            r@ == APPLICATION_JSON@,
    {
        APPLICATION_JSON
    }
}

/// URL-encoded form (`application/x-www-form-urlencoded`) content type
/// encoding.
pub struct WwwFormUrlEncoded;

impl ContentType for WwwFormUrlEncoded {
    fn header_value() -> (r: Option<&'static str>)
        ensures
            match r {
                Some(v) => body_encoding_header(BodyEncoding::Form) == Some(v@),
                None => body_encoding_header(BodyEncoding::Form) is None,
            },
    {
        Some(APPLICATION_X_WWW_FORM_URLENCODED)
    }

    fn encoding() -> (r: BodyEncoding)
        ensures
            r == BodyEncoding::Form,
    {
        BodyEncoding::Form
    }
}

/// The value of the first header with the given name.
pub open spec fn header_lookup(headers: Seq<(String, String)>, name: Seq<char>) -> Option<
    Seq<char>,
>
    decreases headers.len(),
{
    if headers.len() == 0 {
        None
    } else if headers[0].0@ == name {
        Some(headers[0].1@)
    } else {
        header_lookup(headers.drop_first(), name)
    }
}

/// Returns the value of the first header with the given name.
pub fn get_header<'a>(headers: &'a Vec<(String, String)>, name: &str) -> (r: Option<&'a str>)
    ensures
        match r {
            Some(v) => header_lookup(headers@, name@) == Some(v@),
            None => header_lookup(headers@, name@) is None,
        },
{
    let mut i: usize = 0;
    proof {
        assert(headers@.skip(0) =~= headers@);
    }
    while i < headers.len()
        invariant
            i <= headers@.len(),
            header_lookup(headers@, name@) == header_lookup(headers@.skip(i as int), name@),
        decreases headers@.len() - i,
    {
        proof {
            assert(headers@.skip(i as int)[0] == headers@[i as int]);
            assert(headers@.skip(i as int).drop_first() =~= headers@.skip(i + 1));
        }
        if str_eq(headers[i].0.as_str(), name) {
            return Some(headers[i].1.as_str());
        }
        i += 1;
    }
    proof {
        assert(headers@.skip(headers@.len() as int).len() == 0);
    }
    None
}

/// One byte sequence is a prefix of another.
pub open spec fn bytes_prefix(b: Seq<u8>, p: Seq<u8>) -> bool {
    p.len() <= b.len() && b.take(p.len() as int) == p
}

/// The first `content-type` header is present and starts with the
/// expected value.
pub open spec fn content_type_matches(headers: Seq<(String, String)>, expected: Seq<char>) -> bool {
    match header_lookup(headers, "content-type"@) {
        Some(v) => bytes_prefix(text_bytes(v), text_bytes(expected)),
        None => false,
    }
}

/// Returns `true` if `p` is a prefix of `b`.
pub fn starts_with_bytes(b: &[u8], p: &[u8]) -> (r: bool)
    ensures
        r == bytes_prefix(b@, p@),
{
    if p.len() > b.len() {
        return false;
    }
    let mut i: usize = 0;
    while i < p.len()
        invariant
            p@.len() <= b@.len(),
            i <= p@.len(),
            forall|j: int| 0 <= j < i ==> b@[j] == p@[j],
        decreases p@.len() - i,
    {
        if b[i] != p[i] {
            proof {
                assert(b@.take(p@.len() as int)[i as int] != p@[i as int]);
            }
            return false;
        }
        i += 1;
    }
    proof {
        assert(b@.take(p@.len() as int) =~= p@);
    }
    true
}

/// Validates that the response `Content-Type` header matches the
/// expected value, by prefix (parameters such as `; charset=utf-8` are
/// allowed after it).
///
/// Returns a response error if the header is missing or does not match.
pub fn expect_content_type(headers: &Vec<(String, String)>, expected_value: &str) -> (r: Result<
    (),
    OAuth2ClientError,
>)
    ensures
        r is Ok <==> match header_lookup(headers@, "content-type"@) {
            Some(v) => bytes_prefix(text_bytes(v), text_bytes(expected_value@)),
            None => false,
        },
        r matches Err(e) ==> e is Response,
{
    let content_type = match get_header(headers, "content-type") {
        Some(v) => v,
        None => {
            return Err(OAuth2ClientError::response(String::from_str("missing content type")));
        },
    };
    if !starts_with_bytes(content_type.as_bytes(), expected_value.as_bytes()) {
        Err(OAuth2ClientError::response(String::from_str("unexpected content type")))
    } else {
        Ok(())
    }
}

/// An HTTP client capable of sending raw requests.
///
/// This trait abstracts over the actual HTTP implementation, allowing
/// the library to work with any transport. It is the only place the
/// exchange pipeline leaves this library: a single attempt per call, no
/// retries, with transport-level failures surfaced as errors.
pub trait HttpClient {
    /// Sends an HTTP request and returns the response.
    fn send(&self, request: RawRequest) -> Result<ResponseParts, OAuth2ClientError>;
}

impl<T: HttpClient> HttpClient for &T {
    fn send(&self, request: RawRequest) -> Result<ResponseParts, OAuth2ClientError> {
        T::send(*self, request)
    }
}

} // verus!
