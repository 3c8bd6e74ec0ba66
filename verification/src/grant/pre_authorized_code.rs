//! Pre-Authorized Code Grant (OpenID4VCI).

use vstd::prelude::*;
use vstd::string::StringExecFns;

use crate::client::{OAuth2Client, OAuth2ClientError};
use crate::endpoints::{HttpRequest, RequestBuilder, byte_pairs_view};
use crate::endpoints::token::{TokenEndpoint, TokenResponse, decode_token_response,
    token_decode_ok, token_decode_post};
use crate::transport::{BodyEncoding, Method, RequestParts, ResponseParts};
use crate::types::{ClientIdBuf, text_bytes};
use crate::util::NoExtension;

verus! {

/// Token request with the pre-authorized code grant.
pub struct PreAuthorizedCodeTokenRequest {
    /// The client identifier, absent for anonymous exchanges.
    pub client_id: Option<ClientIdBuf>,
    /// The pre-authorized code handed out with the credential offer.
    pub pre_authorized_code: String,
    /// The transaction code the user received, if the offer demands one.
    pub tx_code: Option<String>,
}

/// The form parameters of a pre-authorized code token request:
/// the grant type tag, the optional client identifier, the code and the
/// optional transaction code.
pub open spec fn pre_authorized_code_params(r: PreAuthorizedCodeTokenRequest) -> Seq<
    (Seq<u8>, Seq<u8>),
> {
    seq![
        (
            text_bytes("grant_type"@),
            text_bytes("urn:ietf:params:oauth:grant-type:pre-authorized_code"@),
        ),
    ] + (match r.client_id {
        Some(c) => seq![(text_bytes("client_id"@), text_bytes(c@))],
        None => Seq::<(Seq<u8>, Seq<u8>)>::empty(),
    }) + seq![(text_bytes("pre-authorized_code"@), text_bytes(r.pre_authorized_code@))] + (
    match r.tx_code {
        Some(t) => seq![(text_bytes("tx_code"@), text_bytes(t@))],
        None => Seq::<(Seq<u8>, Seq<u8>)>::empty(),
    })
}

impl PreAuthorizedCodeTokenRequest {
    /// Creates a new pre-authorized code token request.
    pub fn new(
        client_id: Option<ClientIdBuf>,
        pre_authorized_code: String,
        tx_code: Option<String>,
    ) -> (r: Self)
        ensures
            r == (PreAuthorizedCodeTokenRequest { client_id, pre_authorized_code, tx_code }),
    {
        PreAuthorizedCodeTokenRequest { client_id, pre_authorized_code, tx_code }
    }

    /// Drops the client identifier, for anonymous exchanges.
    pub fn anonymous(self) -> (r: Self)
        ensures
            r.client_id is None,
            r.pre_authorized_code@ == self.pre_authorized_code@,
            r.tx_code == self.tx_code,
    {
        PreAuthorizedCodeTokenRequest {
            client_id: None,
            pre_authorized_code: self.pre_authorized_code,
            tx_code: self.tx_code,
        }
    }
}

impl<'a, C> HttpRequest<TokenEndpoint<'a, C>> for PreAuthorizedCodeTokenRequest where
    C: OAuth2Client,
 {
    type Payload = TokenResponse<String, NoExtension>;

    type Response = TokenResponse<String, NoExtension>;

    open spec fn req_ok(&self, endpoint: &TokenEndpoint<'a, C>) -> bool {
        true
    }

    open spec fn req_method(&self, endpoint: &TokenEndpoint<'a, C>) -> Method {
        Method::Post
    }

    open spec fn req_uri_bytes(&self, endpoint: &TokenEndpoint<'a, C>) -> Seq<u8> {
        crate::util::uri_parts_bytes(endpoint.uri.parts())
    }

    open spec fn req_content_type(&self, endpoint: &TokenEndpoint<'a, C>) -> BodyEncoding {
        BodyEncoding::Form
    }

    open spec fn req_params(&self, endpoint: &TokenEndpoint<'a, C>) -> Seq<(Seq<u8>, Seq<u8>)> {
        pre_authorized_code_params(*self)
    }

    open spec fn req_headers(&self, endpoint: &TokenEndpoint<'a, C>) -> Seq<(Seq<u8>, Seq<u8>)> {
        Seq::<(Seq<u8>, Seq<u8>)>::empty()
    }

    open spec fn expected_status(&self, endpoint: &TokenEndpoint<'a, C>) -> u16 {
        200
    }

    open spec fn decode_ok(&self, endpoint: &TokenEndpoint<'a, C>, response: &ResponseParts) -> bool {
        token_decode_ok(response)
    }

    open spec fn decode_post(
        &self,
        endpoint: &TokenEndpoint<'a, C>,
        response: &ResponseParts,
        payload: &TokenResponse<String, NoExtension>,
    ) -> bool {
        token_decode_post(response, payload)
    }

    open spec fn process_spec(
        &self,
        endpoint: &TokenEndpoint<'a, C>,
        payload: TokenResponse<String, NoExtension>,
    ) -> Result<TokenResponse<String, NoExtension>, OAuth2ClientError> {
        Ok(payload)
    }

    fn build_request(&self, endpoint: &TokenEndpoint<'a, C>) -> (r: Result<
        RequestParts,
        OAuth2ClientError,
    >) {
        let mut params: Vec<(String, String)> = Vec::new();
        params.push(
            (
                String::from_str("grant_type"),
                String::from_str("urn:ietf:params:oauth:grant-type:pre-authorized_code"),
            ),
        );
        match &self.client_id {
            Some(c) => {
                params.push((String::from_str("client_id"), c.as_str().to_owned()));
            },
            None => {
            },
        }
        params.push(
            (String::from_str("pre-authorized_code"), self.pre_authorized_code.as_str().to_owned()),
        );
        match &self.tx_code {
            Some(t) => {
                params.push((String::from_str("tx_code"), t.as_str().to_owned()));
            },
            None => {
            },
        }
        proof {
            assert(byte_pairs_view(params@) =~= pre_authorized_code_params(*self));
            assert(byte_pairs_view(Seq::<(String, String)>::empty())
                =~= Seq::<(Seq<u8>, Seq<u8>)>::empty());
        }
        Ok(
            RequestParts {
                method: Method::Post,
                uri: endpoint.uri.to_text(),
                headers: Vec::new(),
                content_type: BodyEncoding::Form,
                params,
            },
        )
    }

    fn decode_response(&self, endpoint: &TokenEndpoint<'a, C>, response: &ResponseParts) -> (r:
        Result<TokenResponse<String, NoExtension>, OAuth2ClientError>) {
        decode_token_response(response)
    }

    fn process_response(
        &self,
        endpoint: &TokenEndpoint<'a, C>,
        payload: TokenResponse<String, NoExtension>,
    ) -> (r: Result<TokenResponse<String, NoExtension>, OAuth2ClientError>) {
        Ok(payload)
    }
}

impl<'a, C> TokenEndpoint<'a, C> where C: OAuth2Client {
    /// Begins a pre-authorized code exchange at this endpoint, under the
    /// client's identifier.
    pub fn exchange_pre_authorized_code(
        self,
        pre_authorized_code: String,
        tx_code: Option<String>,
    ) -> (r: RequestBuilder<TokenEndpoint<'a, C>, PreAuthorizedCodeTokenRequest>)
        ensures
            r.endpoint == self,
            r.request.client_id matches Some(c) && c@ == self.client.client_id_spec(),
            r.request.pre_authorized_code@ == pre_authorized_code@,
            r.request.tx_code == tx_code,
    {
        let client_id = self.client.client_id().clone();
        RequestBuilder {
            endpoint: self,
            request: PreAuthorizedCodeTokenRequest {
                client_id: Some(client_id),
                pre_authorized_code,
                tx_code,
            },
        }
    }
}

} // verus!
