//! Authorization Code Grant (RFC 6749, section 4.1).

use vstd::prelude::*;
use vstd::string::StringExecFns;

use crate::client::{OAuth2Client, OAuth2ClientError};
use crate::endpoints::{HttpRequest, RequestBuilder, byte_pairs_view};
use crate::endpoints::token::{TokenEndpoint, TokenResponse, decode_token_response,
    token_decode_ok, token_decode_post};
use crate::transport::{BodyEncoding, Method, RequestParts, ResponseParts};
use crate::types::{ClientIdBuf, CodeBuf, text_bytes};
use crate::util::{NoExtension, UriBuf};

verus! {

/// Token request exchanging an authorization code for an access token
/// (RFC 6749, section 4.1.3).
pub struct AuthorizationCodeTokenRequest {
    /// The authorization code received from the authorization endpoint.
    pub code: CodeBuf,
    /// The redirect URI of the authorization request, required when one
    /// was sent there.
    pub redirect_uri: Option<UriBuf>,
    /// The client identifier, required for unauthenticated clients.
    pub client_id: Option<ClientIdBuf>,
}

/// The form parameters of an authorization code token request.
pub open spec fn authorization_code_params(r: AuthorizationCodeTokenRequest) -> Seq<
    (Seq<u8>, Seq<u8>),
> {
    seq![
        (text_bytes("grant_type"@), text_bytes("authorization_code"@)),
        (text_bytes("code"@), text_bytes(r.code@)),
    ] + (match r.redirect_uri {
        Some(u) => seq![(text_bytes("redirect_uri"@), u.bytes_view())],
        None => Seq::<(Seq<u8>, Seq<u8>)>::empty(),
    }) + (match r.client_id {
        Some(c) => seq![(text_bytes("client_id"@), text_bytes(c@))],
        None => Seq::<(Seq<u8>, Seq<u8>)>::empty(),
    })
}

impl AuthorizationCodeTokenRequest {
    /// Creates a new authorization code token request.
    pub fn new(
        code: CodeBuf,
        redirect_uri: Option<UriBuf>,
        client_id: Option<ClientIdBuf>,
    ) -> (r: Self)
        ensures
            r == (AuthorizationCodeTokenRequest { code, redirect_uri, client_id }),
    {
        AuthorizationCodeTokenRequest { code, redirect_uri, client_id }
    }
}

impl<'a, C> HttpRequest<TokenEndpoint<'a, C>> for AuthorizationCodeTokenRequest where
    C: OAuth2Client,
 {
    type Payload = TokenResponse<String, NoExtension>;

    type Response = TokenResponse<String, NoExtension>;

    open spec fn req_ok(&self, endpoint: &TokenEndpoint<'a, C>) -> bool {
        true
    }

    open spec fn req_method(&self, endpoint: &TokenEndpoint<'a, C>) -> Method {
        Method::Post
    }

    open spec fn req_uri_bytes(&self, endpoint: &TokenEndpoint<'a, C>) -> Seq<u8> {
        crate::util::uri_parts_bytes(endpoint.uri.parts())
    }

    open spec fn req_content_type(&self, endpoint: &TokenEndpoint<'a, C>) -> BodyEncoding {
        BodyEncoding::Form
    }

    open spec fn req_params(&self, endpoint: &TokenEndpoint<'a, C>) -> Seq<(Seq<u8>, Seq<u8>)> {
        authorization_code_params(*self)
    }

    open spec fn req_headers(&self, endpoint: &TokenEndpoint<'a, C>) -> Seq<(Seq<u8>, Seq<u8>)> {
        Seq::<(Seq<u8>, Seq<u8>)>::empty()
    }

    open spec fn expected_status(&self, endpoint: &TokenEndpoint<'a, C>) -> u16 {
        200
    }

    open spec fn decode_ok(&self, endpoint: &TokenEndpoint<'a, C>, response: &ResponseParts) -> bool {
        token_decode_ok(response)
    }

    open spec fn decode_post(
        &self,
        endpoint: &TokenEndpoint<'a, C>,
        response: &ResponseParts,
        payload: &TokenResponse<String, NoExtension>,
    ) -> bool {
        token_decode_post(response, payload)
    }

    open spec fn process_spec(
        &self,
        endpoint: &TokenEndpoint<'a, C>,
        payload: TokenResponse<String, NoExtension>,
    ) -> Result<TokenResponse<String, NoExtension>, OAuth2ClientError> {
        Ok(payload)
    }

    fn build_request(&self, endpoint: &TokenEndpoint<'a, C>) -> (r: Result<
        RequestParts,
        OAuth2ClientError,
    >) {
        let mut params: Vec<(String, String)> = Vec::new();
        params.push((String::from_str("grant_type"), String::from_str("authorization_code")));
        params.push((String::from_str("code"), self.code.as_str().to_owned()));
        match &self.redirect_uri {
            Some(u) => {
                params.push((String::from_str("redirect_uri"), u.to_text()));
            },
            None => {
            },
        }
        match &self.client_id {
            Some(c) => {
                params.push((String::from_str("client_id"), c.as_str().to_owned()));
            },
            None => {
            },
        }
        proof {
            assert(byte_pairs_view(params@) =~= authorization_code_params(*self));
            assert(byte_pairs_view(Seq::<(String, String)>::empty())
                =~= Seq::<(Seq<u8>, Seq<u8>)>::empty());
        }
        Ok(
            RequestParts {
                method: Method::Post,
                uri: endpoint.uri.to_text(),
                headers: Vec::new(),
                content_type: BodyEncoding::Form,
                params,
            },
        )
    }

    fn decode_response(&self, endpoint: &TokenEndpoint<'a, C>, response: &ResponseParts) -> (r:
        Result<TokenResponse<String, NoExtension>, OAuth2ClientError>) {
        decode_token_response(response)
    }

    fn process_response(
        &self,
        endpoint: &TokenEndpoint<'a, C>,
        payload: TokenResponse<String, NoExtension>,
    ) -> (r: Result<TokenResponse<String, NoExtension>, OAuth2ClientError>) {
        Ok(payload)
    }
}

impl<'a, C> TokenEndpoint<'a, C> where C: OAuth2Client {
    /// Begins an authorization code exchange at this endpoint, under the
    /// client's identifier.
    pub fn exchange_code(self, code: CodeBuf, redirect_uri: Option<UriBuf>) -> (r: RequestBuilder<
        TokenEndpoint<'a, C>,
        AuthorizationCodeTokenRequest,
    >)
        ensures
            r.endpoint == self,
            r.request.code@ == code@,
            r.request.redirect_uri == redirect_uri,
            r.request.client_id matches Some(c) && c@ == self.client.client_id_spec(),
    {
        let client_id = self.client.client_id().clone();
        RequestBuilder {
            endpoint: self,
            request: AuthorizationCodeTokenRequest {
                code,
                redirect_uri,
                client_id: Some(client_id),
            },
        }
    }
}

} // verus!
