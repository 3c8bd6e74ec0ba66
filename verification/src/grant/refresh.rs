//! Refresh Token Grant (RFC 6749, section 6).

use vstd::prelude::*;
use vstd::string::StringExecFns;

use crate::client::{OAuth2Client, OAuth2ClientError};
use crate::endpoints::{HttpRequest, byte_pairs_view};
use crate::endpoints::token::{TokenEndpoint, TokenResponse, decode_token_response,
    token_decode_ok, token_decode_post};
use crate::transport::{BodyEncoding, Method, RequestParts, ResponseParts};
use crate::types::{ClientIdBuf, ScopeBuf, text_bytes};
use crate::util::NoExtension;

verus! {

/// Token request exchanging a refresh token for a fresh access token.
pub struct RefreshTokenRequest {
    /// The client identifier, required for unauthenticated clients.
    pub client_id: Option<ClientIdBuf>,
    /// The refresh token issued with an earlier access token.
    pub refresh_token: String,
    /// The requested scope; must not exceed the originally granted one.
    pub scope: Option<ScopeBuf>,
}

/// The form parameters of a refresh token request.
pub open spec fn refresh_token_params(r: RefreshTokenRequest) -> Seq<(Seq<u8>, Seq<u8>)> {
    seq![
        (text_bytes("grant_type"@), text_bytes("refresh_token"@)),
        (text_bytes("refresh_token"@), text_bytes(r.refresh_token@)),
    ] + (match r.scope {
        Some(s) => seq![(text_bytes("scope"@), text_bytes(s@))],
        None => Seq::<(Seq<u8>, Seq<u8>)>::empty(),
    }) + (match r.client_id {
        Some(c) => seq![(text_bytes("client_id"@), text_bytes(c@))],
        None => Seq::<(Seq<u8>, Seq<u8>)>::empty(),
    })
}

impl RefreshTokenRequest {
    /// Creates a new refresh token request.
    pub fn new(
        client_id: Option<ClientIdBuf>,
        refresh_token: String,
        scope: Option<ScopeBuf>,
    ) -> (r: Self)
        ensures
            r == (RefreshTokenRequest { client_id, refresh_token, scope }),
    {
        RefreshTokenRequest { client_id, refresh_token, scope }
    }
}

impl<'a, C> HttpRequest<TokenEndpoint<'a, C>> for RefreshTokenRequest where C: OAuth2Client {
    type Payload = TokenResponse<String, NoExtension>;

    type Response = TokenResponse<String, NoExtension>;

    open spec fn req_ok(&self, endpoint: &TokenEndpoint<'a, C>) -> bool {
        true
    }

    open spec fn req_method(&self, endpoint: &TokenEndpoint<'a, C>) -> Method {
        Method::Post
    }

    open spec fn req_uri_bytes(&self, endpoint: &TokenEndpoint<'a, C>) -> Seq<u8> {
        crate::util::uri_parts_bytes(endpoint.uri.parts())
    }

    open spec fn req_content_type(&self, endpoint: &TokenEndpoint<'a, C>) -> BodyEncoding {
        BodyEncoding::Form
    }

    open spec fn req_params(&self, endpoint: &TokenEndpoint<'a, C>) -> Seq<(Seq<u8>, Seq<u8>)> {
        refresh_token_params(*self)
    }

    open spec fn req_headers(&self, endpoint: &TokenEndpoint<'a, C>) -> Seq<(Seq<u8>, Seq<u8>)> {
        Seq::<(Seq<u8>, Seq<u8>)>::empty()
    }

    open spec fn expected_status(&self, endpoint: &TokenEndpoint<'a, C>) -> u16 {
        200
    }

    open spec fn decode_ok(&self, endpoint: &TokenEndpoint<'a, C>, response: &ResponseParts) -> bool {
        token_decode_ok(response)
    }

    open spec fn decode_post(
        &self,
        endpoint: &TokenEndpoint<'a, C>,
        response: &ResponseParts,
        payload: &TokenResponse<String, NoExtension>,
    ) -> bool {
        token_decode_post(response, payload)
    }

    open spec fn process_spec(
        &self,
        endpoint: &TokenEndpoint<'a, C>,
        payload: TokenResponse<String, NoExtension>,
    ) -> Result<TokenResponse<String, NoExtension>, OAuth2ClientError> {
        Ok(payload)
    }

    fn build_request(&self, endpoint: &TokenEndpoint<'a, C>) -> (r: Result<
        RequestParts,
        OAuth2ClientError,
    >) {
        let mut params: Vec<(String, String)> = Vec::new();
        params.push((String::from_str("grant_type"), String::from_str("refresh_token")));
        params.push((String::from_str("refresh_token"), self.refresh_token.as_str().to_owned()));
        match &self.scope {
            Some(s) => {
                params.push((String::from_str("scope"), s.as_str().to_owned()));
            },
            None => {
            },
        }
        match &self.client_id {
            Some(c) => {
                params.push((String::from_str("client_id"), c.as_str().to_owned()));
            },
            None => {
            },
        }
        proof {
            assert(byte_pairs_view(params@) =~= refresh_token_params(*self));
            assert(byte_pairs_view(Seq::<(String, String)>::empty())
                =~= Seq::<(Seq<u8>, Seq<u8>)>::empty());
        }
        Ok(
            RequestParts {
                method: Method::Post,
                uri: endpoint.uri.to_text(),
                headers: Vec::new(),
                content_type: BodyEncoding::Form,
                params,
            },
        )
    }

    fn decode_response(&self, endpoint: &TokenEndpoint<'a, C>, response: &ResponseParts) -> (r:
        Result<TokenResponse<String, NoExtension>, OAuth2ClientError>) {
        decode_token_response(response)
    }

    fn process_response(
        &self,
        endpoint: &TokenEndpoint<'a, C>,
        payload: TokenResponse<String, NoExtension>,
    ) -> (r: Result<TokenResponse<String, NoExtension>, OAuth2ClientError>) {
        Ok(payload)
    }
}

} // verus!
