//! OAuth 2.0 Pushed Authorization Requests (RFC 9126).
//!
//! Phase one sends the full authorization request, extensions included,
//! as a form-encoded POST to the PAR endpoint; success is strictly HTTP
//! 201 with a JSON body holding `request_uri` and `expires_in`. Phase
//! two builds the user-facing redirect to the authorization endpoint
//! carrying only `client_id` and `request_uri` — the phase-one
//! parameters are intentionally not repeated, the server already has
//! them.

use vstd::prelude::*;
use vstd::string::StringExecFns;

use crate::client::{OAuth2Client, OAuth2ClientError};
use crate::codec::{form_encoded_of, json_ok, json_ok_of, json_str_field, json_str_field_of,
    json_u64_field, json_u64_field_of};
use crate::endpoints::{Endpoint, HttpRequest, RedirectRequest, byte_pairs_view, lemma_pairs_split,
    pair_keys, pair_values};
use crate::endpoints::authorization::AuthorizationEndpoint;
use crate::transport::{APPLICATION_JSON, BodyEncoding, Method, RequestParts, ResponseParts,
    content_type_matches, expect_content_type};
use crate::types::{ClientIdBuf, text_bytes};
use crate::util::{UriBuf, UriPartsView, extend_uri_query, spec_concat_query_bytes};

verus! {

/// The OAuth 2.0 Pushed Authorization Request (PAR) endpoint.
///
/// This endpoint allows clients to push the payload of an authorization
/// request directly to the authorization server, receiving a
/// `request_uri` in return that can be used at the authorization
/// endpoint.
pub struct PushedAuthorizationEndpoint<'a, C> {
    /// The OAuth 2.0 client.
    pub client: &'a C,
    /// The PAR endpoint URI.
    pub uri: &'a UriBuf,
}

impl<'a, C> Clone for PushedAuthorizationEndpoint<'a, C> {
    fn clone(&self) -> (r: Self)
        ensures
            r == *self,
    {
        PushedAuthorizationEndpoint { client: self.client, uri: self.uri }
    }
}

impl<'a, C> PushedAuthorizationEndpoint<'a, C> {
    /// Creates a new PAR endpoint for the given client and URI.
    pub fn new(client: &'a C, uri: &'a UriBuf) -> (r: Self)
        ensures
            r == (PushedAuthorizationEndpoint { client, uri }),
    {
        PushedAuthorizationEndpoint { client, uri }
    }

    /// Marks a redirect request as pushed, to be POSTed to this endpoint
    /// instead of being serialized onto a redirect URI.
    pub fn build_authorization_request<T>(request: T) -> (r: Pushed<T>)
        ensures
            r == Pushed(request),
    {
        Pushed(request)
    }
}

impl<'a, C> Endpoint for PushedAuthorizationEndpoint<'a, C> where C: OAuth2Client {
    type Client = C;

    open spec fn uri_spec(&self) -> UriPartsView {
        self.uri.parts()
    }

    fn client(&self) -> &Self::Client {
        self.client
    }

    fn uri(&self) -> (r: &UriBuf) {
        self.uri
    }
}

/// Wrapper marking a request as a Pushed Authorization Request.
///
/// When sent to a [`PushedAuthorizationEndpoint`], the inner request's
/// query parameters are POSTed as `application/x-www-form-urlencoded`
/// instead of being appended to a redirect URI.
pub struct Pushed<T>(pub T);

impl<'a, C, T> HttpRequest<PushedAuthorizationEndpoint<'a, C>> for Pushed<T> where
    C: OAuth2Client,
    T: RedirectRequest,
 {
    type Payload = PushedAuthorizationResponse;

    type Response = PushedAuthorizationResponse;

    open spec fn req_ok(&self, endpoint: &PushedAuthorizationEndpoint<'a, C>) -> bool {
        true
    }

    open spec fn req_method(&self, endpoint: &PushedAuthorizationEndpoint<'a, C>) -> Method {
        Method::Post
    }

    open spec fn req_uri_bytes(&self, endpoint: &PushedAuthorizationEndpoint<'a, C>) -> Seq<u8> {
        crate::util::uri_parts_bytes(endpoint.uri.parts())
    }

    open spec fn req_content_type(&self, endpoint: &PushedAuthorizationEndpoint<'a, C>) -> BodyEncoding {
        BodyEncoding::Form
    }

    open spec fn req_params(&self, endpoint: &PushedAuthorizationEndpoint<'a, C>) -> Seq<
        (Seq<u8>, Seq<u8>),
    > {
        self.0.query_spec()
    }

    open spec fn req_headers(&self, endpoint: &PushedAuthorizationEndpoint<'a, C>) -> Seq<
        (Seq<u8>, Seq<u8>),
    > {
        Seq::<(Seq<u8>, Seq<u8>)>::empty()
    }

    open spec fn expected_status(&self, endpoint: &PushedAuthorizationEndpoint<'a, C>) -> u16 {
        201
    }

    open spec fn decode_ok(
        &self,
        endpoint: &PushedAuthorizationEndpoint<'a, C>,
        response: &ResponseParts,
    ) -> bool {
        par_decode_ok(response)
    }

    open spec fn decode_post(
        &self,
        endpoint: &PushedAuthorizationEndpoint<'a, C>,
        response: &ResponseParts,
        payload: &PushedAuthorizationResponse,
    ) -> bool {
        par_decode_post(response, payload)
    }

    open spec fn process_spec(
        &self,
        endpoint: &PushedAuthorizationEndpoint<'a, C>,
        payload: PushedAuthorizationResponse,
    ) -> Result<PushedAuthorizationResponse, OAuth2ClientError> {
        Ok(payload)
    }

    fn build_request(&self, endpoint: &PushedAuthorizationEndpoint<'a, C>) -> (r: Result<
        RequestParts,
        OAuth2ClientError,
    >) {
        let params = self.0.build_query();
        proof {
            assert(byte_pairs_view(Seq::<(String, String)>::empty())
                =~= Seq::<(Seq<u8>, Seq<u8>)>::empty());
        }
        Ok(
            RequestParts {
                method: Method::Post,
                uri: endpoint.uri.to_text(),
                headers: Vec::new(),
                content_type: BodyEncoding::Form,
                params,
            },
        )
    }

    fn decode_response(
        &self,
        endpoint: &PushedAuthorizationEndpoint<'a, C>,
        response: &ResponseParts,
    ) -> (r: Result<PushedAuthorizationResponse, OAuth2ClientError>) {
        decode_par_response(response)
    }

    fn process_response(
        &self,
        endpoint: &PushedAuthorizationEndpoint<'a, C>,
        payload: PushedAuthorizationResponse,
    ) -> (r: Result<PushedAuthorizationResponse, OAuth2ClientError>) {
        Ok(payload)
    }
}

/// Successful response from the PAR endpoint.
///
/// Contains an opaque `request_uri` that the client uses at the
/// authorization endpoint, along with an expiration time in seconds.
/// The reference must be redeemed before it expires and exactly once;
/// this library does not track wall-clock time itself.
#[derive(Debug, Clone, PartialEq, Eq)]
pub struct PushedAuthorizationResponse {
    /// Opaque URI referencing the pushed authorization request.
    pub request_uri: UriBuf,
    /// Lifetime in seconds of the `request_uri`.
    pub expires_in: u64,
}

/// A response body holds a usable PAR response: well-formed JSON with a
/// `request_uri` string field holding a well-formed URI and an
/// `expires_in` nonnegative integer field.
pub open spec fn par_fields_ok(body: Seq<u8>) -> bool {
    &&& json_ok_of(body)
    &&& json_str_field_of(body, "request_uri"@) matches Some(u)
        && vstd::utf8::is_ascii_chars(u) && crate::util::spec_parse_uri(text_bytes(u)) is Some
    &&& json_u64_field_of(body, "expires_in"@) is Some
}

/// A PAR endpoint response decodes: HTTP 201, a JSON content type, and a
/// usable body.
pub open spec fn par_decode_ok(response: &ResponseParts) -> bool {
    &&& response.status == 201
    &&& content_type_matches(response.headers@, APPLICATION_JSON@)
    &&& par_fields_ok(response.body@)
}

/// What a decoded PAR response holds: exactly the body's fields.
pub open spec fn par_decode_post(response: &ResponseParts, p: &PushedAuthorizationResponse) -> bool {
    let body = response.body@;
    &&& json_str_field_of(body, "request_uri"@) matches Some(u) && p.request_uri.bytes_view()
        == text_bytes(u)
    &&& json_u64_field_of(body, "expires_in"@) == Some(p.expires_in)
}

/// Decodes a PAR endpoint response: HTTP 201, `application/json`, a
/// JSON object with `request_uri` and `expires_in`.
///
/// A status other than 201 is a server error carrying that status, and
/// is never a decode attempt — PAR success is strictly 201, never 200;
/// every other failure is a response error. Decoding succeeds exactly on
/// [`par_decode_ok`] responses, and the result holds exactly the body's
/// fields.
pub fn decode_par_response(response: &ResponseParts) -> (r: Result<
    PushedAuthorizationResponse,
    OAuth2ClientError,
>)
    ensures
        response.status != 201 ==> r == Err::<PushedAuthorizationResponse, _>(
            OAuth2ClientError::ServerError(response.status),
        ),
        r is Ok <==> par_decode_ok(response),
        r matches Ok(p) ==> par_decode_post(response, &p),
        r matches Err(e) ==> response.status != 201 || e is Response,
{
    if response.status != 201 {
        return Err(OAuth2ClientError::server(response.status));
    }
    match expect_content_type(&response.headers, APPLICATION_JSON) {
        Ok(_) => {
        },
        Err(e) => {
            return Err(e);
        },
    }
    let body = response.body.as_slice();
    if !json_ok(body) {
        return Err(OAuth2ClientError::response(String::from_str("malformed JSON body")));
    }
    let request_uri = match json_str_field(body, "request_uri") {
        Some(u) => u,
        None => {
            return Err(OAuth2ClientError::response(String::from_str("missing request_uri")));
        },
    };
    let request_uri = match UriBuf::new(request_uri.as_str()) {
        Ok(u) => u,
        Err(_) => {
            return Err(OAuth2ClientError::response(String::from_str("malformed request_uri")));
        },
    };
    let expires_in = match json_u64_field(body, "expires_in") {
        Some(e) => e,
        None => {
            return Err(OAuth2ClientError::response(String::from_str("missing expires_in")));
        },
    };
    Ok(PushedAuthorizationResponse { request_uri, expires_in })
}

impl PushedAuthorizationResponse {
    /// Builds the authorization URI for the given authorization
    /// endpoint.
    ///
    /// The returned URI carries exactly the `client_id` and the
    /// `request_uri` as new query parameters, after any query parameters
    /// already on the authorization endpoint URI — and none of the
    /// parameters pushed in phase one.
    pub fn for_endpoint<'a, C>(&self, endpoint: &AuthorizationEndpoint<'a, C>) -> (r: UriBuf) where
        C: OAuth2Client,

        ensures
            r.parts() == (UriPartsView {
                query: Some(
                    spec_concat_query_bytes(
                        match endpoint.uri.parts().query {
                            Some(q) => q,
                            None => Seq::<u8>::empty(),
                        },
                        text_bytes(
                            form_encoded_of(
                                seq![text_bytes("client_id"@), text_bytes("request_uri"@)],
                                seq![
                                    text_bytes(endpoint.client.client_id_spec()),
                                    self.request_uri.bytes_view(),
                                ],
                            ),
                        ),
                    ),
                ),
                ..endpoint.uri.parts()
            }),
    {
        let request = PushedAuthorizationRequest {
            client_id: endpoint.client.client_id().clone(),
            request_uri: self.request_uri.clone(),
        };
        let params = request.build_query();
        proof {
            lemma_pairs_split(params@);
            assert(pair_keys(request.query_spec()) =~= seq![
                text_bytes("client_id"@),
                text_bytes("request_uri"@),
            ]);
            assert(pair_values(request.query_spec()) =~= seq![
                text_bytes(endpoint.client.client_id_spec()),
                self.request_uri.bytes_view(),
            ]);
        }
        let mut uri = endpoint.uri.clone();
        extend_uri_query(&mut uri, &params);
        uri
    }
}

/// Authorization request referencing a previously pushed request.
///
/// This is the query sent to the authorization endpoint after a
/// successful PAR exchange, containing the `client_id` and the opaque
/// `request_uri`.
#[derive(Debug, Clone, PartialEq, Eq)]
pub struct PushedAuthorizationRequest {
    /// The client identifier.
    pub client_id: ClientIdBuf,
    /// The opaque URI returned by the PAR endpoint.
    pub request_uri: UriBuf,
}

impl RedirectRequest for PushedAuthorizationRequest {
    open spec fn query_spec(&self) -> Seq<(Seq<u8>, Seq<u8>)> {
        seq![
            (text_bytes("client_id"@), text_bytes(self.client_id@)),
            (text_bytes("request_uri"@), self.request_uri.bytes_view()),
        ]
    }

    fn build_query(&self) -> (r: Vec<(String, String)>) {
        let mut params: Vec<(String, String)> = Vec::new();
        params.push((String::from_str("client_id"), self.client_id.as_str().to_owned()));
        let uri_text = self.request_uri.to_text();
        params.push((String::from_str("request_uri"), uri_text));
        proof {
            assert(byte_pairs_view(params@) =~= self.query_spec());
        }
        params
    }
}

} // verus!
