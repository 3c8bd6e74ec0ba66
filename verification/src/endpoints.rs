//! OAuth 2.0 endpoint abstractions and request/response traits.
//!
//! This module provides the core of the request-composition mechanism:
//!
//! - [`Endpoint`] — associates a client with an endpoint URI.
//! - [`RedirectRequest`] — builds query parameters for redirect-based
//!   flows; its contract names exactly the parameters produced.
//! - [`HttpRequest`] — builds, decodes and post-processes HTTP
//!   exchanges; its contract names the method, URI, headers and body
//!   parameters of the built request, so a composition of extension
//!   wrappers provably contributes every layer's parameters.
//! - [`RequestBuilder`] — the composition primitive: `map` wraps the
//!   held request value in one more extension layer; `send` drives the
//!   build → encode → send → decode → process pipeline; and
//!   `into_redirect_uri` serializes the composed parameters onto the
//!   endpoint URI.

use vstd::prelude::*;
use vstd::string::StringExecFns;

use crate::client::{OAuth2Client, OAuth2ClientError};
use crate::codec::{form_encoded_of, param_keys, param_values};
use crate::transport::{APPLICATION_X_WWW_FORM_URLENCODED, BodyEncoding, HttpClient, Method,
    RawRequest, RequestParts, ResponseParts, body_encoding_bytes, body_encoding_header,
    encode_body};
use crate::types::text_bytes;
use crate::util::{NoExtension, UriBuf, UriPartsView, extend_uri_query, spec_concat_query_bytes};

pub mod authorization;
pub mod pushed_authorization;
pub mod token;

verus! {

/// The key-value pairs of a parameter list, as bytes.
pub open spec fn byte_pairs_view(params: Seq<(String, String)>) -> Seq<(Seq<u8>, Seq<u8>)> {
    params.map_values(|p: (String, String)| (text_bytes(p.0@), text_bytes(p.1@)))
}

/// The keys of a list of byte pairs.
pub open spec fn pair_keys(ps: Seq<(Seq<u8>, Seq<u8>)>) -> Seq<Seq<u8>> {
    ps.map_values(|p: (Seq<u8>, Seq<u8>)| p.0)
}

/// The values of a list of byte pairs.
pub open spec fn pair_values(ps: Seq<(Seq<u8>, Seq<u8>)>) -> Seq<Seq<u8>> {
    ps.map_values(|p: (Seq<u8>, Seq<u8>)| p.1)
}

/// Splitting a parameter list into keys and values commutes with taking
/// byte pairs.
pub proof fn lemma_pairs_split(params: Seq<(String, String)>)
    ensures
        param_keys(params) =~= pair_keys(byte_pairs_view(params)),
        param_values(params) =~= pair_values(byte_pairs_view(params)),
{
}

/// An OAuth 2.0 endpoint bound to a specific client.
pub trait Endpoint {
    /// The client type associated with this endpoint.
    type Client: OAuth2Client;

    /// The components of the endpoint URI.
    spec fn uri_spec(&self) -> UriPartsView;

    /// Returns a reference to the associated client.
    fn client(&self) -> &Self::Client;

    /// Returns the endpoint URI.
    fn uri(&self) -> (r: &UriBuf)
        ensures
            r.parts() == self.uri_spec(),
    ;
}

/// A request that can be serialized into URI query parameters for a
/// redirect-based flow (e.g. the authorization endpoint).
pub trait RedirectRequest {
    /// The query parameters this request serializes to: each layer's own
    /// parameters followed by the wrapped request's.
    spec fn query_spec(&self) -> Seq<(Seq<u8>, Seq<u8>)>;

    /// Builds the query parameters for this redirect request.
    fn build_query(&self) -> (r: Vec<(String, String)>)
        ensures
            byte_pairs_view(r@) == self.query_spec(),
    ;
}

/// A placeholder request carries no parameters at all.
impl RedirectRequest for NoExtension {
    open spec fn query_spec(&self) -> Seq<(Seq<u8>, Seq<u8>)> {
        Seq::<(Seq<u8>, Seq<u8>)>::empty()
    }

    fn build_query(&self) -> (r: Vec<(String, String)>) {
        let params: Vec<(String, String)> = Vec::new();
        proof {
            assert(byte_pairs_view(params@) =~= Seq::<(Seq<u8>, Seq<u8>)>::empty());
        }
        params
    }
}

/// A request that can be sent to an endpoint over HTTP.
///
/// This trait handles the full lifecycle of an HTTP request: building
/// the request, decoding the raw response, and post-processing the
/// decoded payload into the final response type. The specification
/// functions name what the built request holds, layer by layer, and
/// which HTTP status the endpoint counts as success.
pub trait HttpRequest<E>: Sized {
    /// The intermediate payload type obtained by decoding the raw HTTP
    /// response bytes.
    type Payload;

    /// The final response type returned after post-processing.
    type Response;

    /// Whether building the request succeeds.
    spec fn req_ok(&self, endpoint: &E) -> bool;

    /// The method of the built request.
    spec fn req_method(&self, endpoint: &E) -> Method;

    /// The URI of the built request, as bytes.
    spec fn req_uri_bytes(&self, endpoint: &E) -> Seq<u8>;

    /// The content type that encodes the body parameters.
    spec fn req_content_type(&self, endpoint: &E) -> BodyEncoding;

    /// The body parameters of the built request.
    spec fn req_params(&self, endpoint: &E) -> Seq<(Seq<u8>, Seq<u8>)>;

    /// The extra headers of the built request.
    spec fn req_headers(&self, endpoint: &E) -> Seq<(Seq<u8>, Seq<u8>)>;

    /// The HTTP status the endpoint answers with on success.
    spec fn expected_status(&self, endpoint: &E) -> u16;

    /// Whether decoding the response succeeds.
    spec fn decode_ok(&self, endpoint: &E, response: &ResponseParts) -> bool;

    /// What a decoded payload holds, in terms of the response it was
    /// decoded from.
    spec fn decode_post(
        &self,
        endpoint: &E,
        response: &ResponseParts,
        payload: &Self::Payload,
    ) -> bool;

    /// What post-processing returns for a decoded payload.
    spec fn process_spec(&self, endpoint: &E, payload: Self::Payload) -> Result<
        Self::Response,
        OAuth2ClientError,
    >;

    /// Builds an HTTP request for this endpoint.
    fn build_request(&self, endpoint: &E) -> (r: Result<RequestParts, OAuth2ClientError>)
        ensures
            r is Ok <==> self.req_ok(endpoint),
            r matches Ok(req) ==> req.method == self.req_method(endpoint) && text_bytes(req.uri@)
                == self.req_uri_bytes(endpoint) && req.content_type == self.req_content_type(
                endpoint,
            ) && byte_pairs_view(req.params@) == self.req_params(endpoint) && byte_pairs_view(
                req.headers@,
            ) == self.req_headers(endpoint),
    ;

    /// Decodes a raw HTTP response into the intermediate payload type.
    ///
    /// A response whose status is not the expected one is a server
    /// error, never a decode attempt; any other failure is a response
    /// error. Decoding succeeds exactly on the responses
    /// [`HttpRequest::decode_ok`] describes, and the payload holds what
    /// [`HttpRequest::decode_post`] says of the response. An extension
    /// wrapper defines both as the wrapped request's, so a wrapper
    /// neither invents nor swallows decode outcomes.
    fn decode_response(&self, endpoint: &E, response: &ResponseParts) -> (r: Result<
        Self::Payload,
        OAuth2ClientError,
    >)
        ensures
            response.status != self.expected_status(endpoint) ==> r == Err::<
                Self::Payload,
                OAuth2ClientError,
            >(OAuth2ClientError::ServerError(response.status)),
            r is Ok <==> self.decode_ok(endpoint, response),
            r matches Ok(p) ==> self.decode_post(endpoint, response, &p),
            r matches Err(e) ==> response.status != self.expected_status(endpoint) || e
                is Response,
    ;

    /// Post-processes the decoded payload into the final response type.
    ///
    /// The default contract is the identity; this is the extension point
    /// for multi-round exchanges.
    fn process_response(&self, endpoint: &E, payload: Self::Payload) -> (r: Result<
        Self::Response,
        OAuth2ClientError,
    >)
        ensures
            r == self.process_spec(endpoint, payload),
    ;
}

/// Adds the content-type header declared by the body encoding and
/// encodes the body parameters, turning request parts into a raw
/// request.
pub fn finish_request(request: RequestParts) -> (r: RawRequest)
    ensures
        r.method == request.method,
        r.uri == request.uri,
        r.body@ == body_encoding_bytes(request.content_type, request.params@),
        byte_pairs_view(r.headers@) == match body_encoding_header(request.content_type) {
            Some(v) => byte_pairs_view(request.headers@).push(
                (text_bytes("content-type"@), text_bytes(v)),
            ),
            None => byte_pairs_view(request.headers@),
        },
{
    let mut headers = request.headers;
    let ghost headers0: Seq<(String, String)> = headers@;
    match request.content_type {
        BodyEncoding::NoBody => {
        },
        BodyEncoding::Form => {
            let name = String::from_str("content-type");
            let value = String::from_str(APPLICATION_X_WWW_FORM_URLENCODED);
            headers.push((name, value));
            proof {
                assert(byte_pairs_view(headers@) =~= byte_pairs_view(headers0).push(
                    (text_bytes("content-type"@), text_bytes(APPLICATION_X_WWW_FORM_URLENCODED@)),
                ));
            }
        },
    }
    let body = encode_body(request.content_type, &request.params);
    RawRequest { method: request.method, uri: request.uri, headers, body }
}

/// Fluent builder for composing an endpoint request with extensions.
///
/// Extension traits (`AddState`, `AddPkceChallenge`, and the like) add
/// methods to `RequestBuilder` that wrap the inner request with
/// additional parameters; every such method is defined in terms of
/// [`RequestBuilder::map`].
pub struct RequestBuilder<E, T> {
    /// The endpoint this request targets.
    pub endpoint: E,
    /// The request being built.
    pub request: T,
}

impl<E, T> RequestBuilder<E, T> {
    /// Creates a new request builder for the given endpoint and request.
    pub fn new(endpoint: E, request: T) -> (r: Self)
        ensures
            r == (RequestBuilder { endpoint, request }),
    {
        RequestBuilder { endpoint, request }
    }

    /// Transforms the inner request using the provided closure.
    ///
    /// This is the mechanism used by extension traits to wrap the
    /// request in additional layers: the endpoint is kept, the held
    /// request is replaced by `f`'s result.
    pub fn map<U, F: FnOnce(T) -> U>(self, f: F) -> (r: RequestBuilder<E, U>)
        requires
            f.requires((self.request,)),
        ensures
            r.endpoint == self.endpoint,
            f.ensures((self.request,), r.request),
    {
        RequestBuilder { endpoint: self.endpoint, request: f(self.request) }
    }

    /// Builds, encodes, sends, decodes, and processes a request in a
    /// single call.
    ///
    /// Stage by stage: the composed request value builds the request
    /// parts (exact, by [`HttpRequest::build_request`]'s contract); the
    /// declared content type encodes the body; the transport sends it,
    /// in a single attempt; the response is decoded (a wrong status is a
    /// server error) and post-processed.
    pub fn send(self, http_client: &impl HttpClient) -> (r: Result<T::Response, OAuth2ClientError>)
        where T: HttpRequest<E>
        ensures
            !self.request.req_ok(&self.endpoint) ==> r is Err,
            r matches Ok(x) ==> self.request.req_ok(&self.endpoint) && exists|
                response: ResponseParts,
                p: T::Payload,
            |
                {
                    &&& self.request.decode_ok(&self.endpoint, &response)
                    &&& #[trigger] self.request.decode_post(&self.endpoint, &response, &p)
                    &&& self.request.process_spec(&self.endpoint, p) == Ok::<
                        T::Response,
                        OAuth2ClientError,
                    >(x)
                },
    {
        let request = match self.request.build_request(&self.endpoint) {
            Ok(req) => req,
            Err(e) => {
                return Err(e);
            },
        };
        let raw = finish_request(request);
        let response = match http_client.send(raw) {
            Ok(resp) => resp,
            Err(e) => {
                return Err(e);
            },
        };
        let payload = match self.request.decode_response(&self.endpoint, &response) {
            Ok(p) => p,
            Err(e) => {
                return Err(e);
            },
        };
        let ghost decoded: T::Payload = payload;
        let ghost received: ResponseParts = response;
        let r = self.request.process_response(&self.endpoint, payload);
        proof {
            if r is Ok {
                let x = r->Ok_0;
                assert(self.request.decode_ok(&self.endpoint, &received)
                    && self.request.decode_post(&self.endpoint, &received, &decoded)
                    && self.request.process_spec(&self.endpoint, decoded) == Ok::<
                    T::Response,
                    OAuth2ClientError,
                >(x));
            }
        }
        r
    }

    /// Converts this request builder into a complete redirect URI.
    ///
    /// The composed request's parameters are serialized as query
    /// parameters and appended to the endpoint URI; query parameters
    /// already on the endpoint URI are preserved ahead of them. A
    /// request without parameters onto a URI without query text leaves
    /// the URI untouched.
    pub fn into_redirect_uri(self) -> (r: UriBuf) where E: Endpoint, T: RedirectRequest
        ensures
            r.parts() == (UriPartsView {
                query: {
                    let combined = spec_concat_query_bytes(
                        match self.endpoint.uri_spec().query {
                            Some(q) => q,
                            None => Seq::<u8>::empty(),
                        },
                        text_bytes(
                            form_encoded_of(
                                pair_keys(self.request.query_spec()),
                                pair_values(self.request.query_spec()),
                            ),
                        ),
                    );
                    if combined.len() == 0 {
                        self.endpoint.uri_spec().query
                    } else {
                        Some(combined)
                    }
                },
                ..self.endpoint.uri_spec()
            }),
    {
        let params = self.request.build_query();
        let mut uri = self.endpoint.uri().clone();
        proof {
            lemma_pairs_split(params@);
        }
        extend_uri_query(&mut uri, &params);
        uri
    }
}

} // verus!
