//! OAuth 2.0 access tokens.

use vstd::prelude::*;
use vstd::string::StringExecFns;

use crate::client::OAuth2ClientError;
use crate::endpoints::{HttpRequest, RequestBuilder, byte_pairs_view};
use crate::endpoints::token::TokenType;
use crate::transport::{BodyEncoding, Method, RequestParts, ResponseParts};
use super::{GrammarError, is_vschar, spec_vschar, text_bytes, vschar_bytes};

verus! {

/// The grammar of an access token over bytes: one or more VSCHARs.
pub open spec fn access_token_bytes_grammar(b: Seq<u8>) -> bool {
    b.len() >= 1 && vschar_bytes(b)
}

/// The grammar of an access token: one or more VSCHARs.
pub open spec fn access_token_grammar(s: Seq<char>) -> bool {
    access_token_bytes_grammar(text_bytes(s))
}

/// An OAuth 2.0 access token.
///
/// Access tokens are credentials used to access protected resources, as
/// defined in RFC 6749, section 1.4. Every value of this type satisfies
/// [`access_token_grammar`].
#[derive(Debug, PartialEq, Eq, Hash)]
pub struct AccessToken {
    text: String,
}

/// Owned access token; the same type under the name used for owned
/// values.
pub type AccessTokenBuf = AccessToken;

impl Clone for AccessToken {
    fn clone(&self) -> (r: Self)
        ensures
            r@ == self@,
    {
        proof {
            use_type_invariant(self);
        }
        AccessToken { text: self.text.clone() }
    }
}

impl View for AccessToken {
    type V = Seq<char>;

    closed spec fn view(&self) -> Seq<char> {
        self.text@
    }
}

impl AccessToken {
    #[verifier::type_invariant]
    spec fn inv(self) -> bool {
        access_token_grammar(self@)
    }

    /// Validates that the given string is a well-formed access token.
    pub fn validate_str(s: &str) -> (r: bool)
        ensures
            r == access_token_grammar(s@),
    {
        Self::validate_bytes(s.as_bytes())
    }

    /// Validates that the given byte slice is a well-formed access token.
    pub fn validate_bytes(bytes: &[u8]) -> (r: bool)
        ensures
            r == access_token_bytes_grammar(bytes@),
    {
        let mut i: usize = 0;
        while i < bytes.len()
            invariant
                i <= bytes@.len(),
                forall|j: int| 0 <= j < i ==> spec_vschar(#[trigger] bytes@[j]),
            decreases bytes@.len() - i,
        {
            if !is_vschar(bytes[i]) {
                return false;
            }
            i += 1;
        }
        i > 0
    }

    /// Builds an access token, checking the grammar.
    pub fn new(s: String) -> (r: Result<Self, GrammarError>)
        ensures
            r is Ok <==> access_token_grammar(s@),
            r matches Ok(t) ==> t@ == s@,
    {
        if Self::validate_str(s.as_str()) {
            Ok(AccessToken { text: s })
        } else {
            Err(GrammarError)
        }
    }

    /// Returns the token text.
    pub fn as_str(&self) -> (r: &str)
        ensures
            r@ == self@,
            access_token_grammar(self@),
    {
        proof {
            use_type_invariant(self);
        }
        self.text.as_str()
    }
}

/// The text of an `Authorization` header carrying a token:
/// `{token_type} {access_token}`.
pub open spec fn authorization_header_text(token_type: Seq<char>, token: Seq<char>) -> Seq<char> {
    token_type + seq![' '] + token
}

/// Extension wrapper that attaches an access token and token type to a
/// request.
///
/// The access token is injected into the `authorization` HTTP header
/// using the format `{token_type} {access_token}`; the request body is
/// not altered at all, as the contract of its `build_request` shows.
pub struct WithAccessToken<'a, Ty, T> {
    /// The token type (e.g. `"Bearer"`).
    pub token_type: &'a Ty,
    /// The access token value.
    pub access_token: &'a AccessToken,
    /// The inner request being extended.
    pub value: T,
}

impl<'a, Ty, T> WithAccessToken<'a, Ty, T> {
    /// Creates a new [`WithAccessToken`] wrapping the given request.
    pub fn new(value: T, token_type: &'a Ty, access_token: &'a AccessToken) -> (r: Self)
        ensures
            r == (WithAccessToken { token_type, access_token, value }),
    {
        WithAccessToken { token_type, access_token, value }
    }
}

impl<'a, E, Ty, T> HttpRequest<E> for WithAccessToken<'a, Ty, T> where
    T: HttpRequest<E>,
    Ty: TokenType,
 {
    type Payload = T::Payload;

    type Response = T::Response;

    open spec fn req_ok(&self, endpoint: &E) -> bool {
        self.value.req_ok(endpoint)
    }

    open spec fn req_method(&self, endpoint: &E) -> Method {
        self.value.req_method(endpoint)
    }

    open spec fn req_uri_bytes(&self, endpoint: &E) -> Seq<u8> {
        self.value.req_uri_bytes(endpoint)
    }

    open spec fn req_content_type(&self, endpoint: &E) -> BodyEncoding {
        self.value.req_content_type(endpoint)
    }

    open spec fn req_params(&self, endpoint: &E) -> Seq<(Seq<u8>, Seq<u8>)> {
        self.value.req_params(endpoint)
    }

    open spec fn req_headers(&self, endpoint: &E) -> Seq<(Seq<u8>, Seq<u8>)> {
        self.value.req_headers(endpoint).push(
            (
                text_bytes("authorization"@),
                text_bytes(
                    authorization_header_text(self.token_type.token_text(), self.access_token@),
                ),
            ),
        )
    }

    open spec fn expected_status(&self, endpoint: &E) -> u16 {
        self.value.expected_status(endpoint)
    }

    open spec fn decode_ok(&self, endpoint: &E, response: &ResponseParts) -> bool {
        self.value.decode_ok(endpoint, response)
    }

    open spec fn decode_post(
        &self,
        endpoint: &E,
        response: &ResponseParts,
        payload: &T::Payload,
    ) -> bool {
        self.value.decode_post(endpoint, response, payload)
    }

    open spec fn process_spec(&self, endpoint: &E, payload: T::Payload) -> Result<
        T::Response,
        OAuth2ClientError,
    > {
        self.value.process_spec(endpoint, payload)
    }

    fn build_request(&self, endpoint: &E) -> (r: Result<RequestParts, OAuth2ClientError>) {
        let inner = match self.value.build_request(endpoint) {
            Ok(req) => req,
            Err(e) => {
                return Err(e);
            },
        };
        let mut header_value = self.token_type.as_type_str().to_owned();
        proof {
            reveal_strlit(" ");
            assert(" "@ =~= seq![' ']);
        }
        header_value.append(" ");
        header_value.append(self.access_token.as_str());
        let mut headers = inner.headers;
        let ghost headers0: Seq<(String, String)> = headers@;
        headers.push((String::from_str("authorization"), header_value));
        proof {
            assert(byte_pairs_view(headers@) =~= byte_pairs_view(headers0).push(
                (
                    text_bytes("authorization"@),
                    text_bytes(
                        authorization_header_text(
                            self.token_type.token_text(),
                            self.access_token@,
                        ),
                    ),
                ),
            ));
        }
        Ok(
            RequestParts {
                method: inner.method,
                uri: inner.uri,
                headers,
                content_type: inner.content_type,
                params: inner.params,
            },
        )
    }

    fn decode_response(&self, endpoint: &E, response: &ResponseParts) -> (r: Result<
        T::Payload,
        OAuth2ClientError,
    >) {
        self.value.decode_response(endpoint, response)
    }

    fn process_response(&self, endpoint: &E, payload: T::Payload) -> (r: Result<
        T::Response,
        OAuth2ClientError,
    >) {
        self.value.process_response(endpoint, payload)
    }
}

/// Extension trait for attaching an access token and token type to a
/// [`RequestBuilder`].
pub trait AddAccessToken<'a, Ty>: Sized {
    /// The resulting type after adding the access token.
    type Output;

    /// What wrapping with an access token yields.
    spec fn with_access_token_spec(
        self,
        token_type: &'a Ty,
        access_token: &'a AccessToken,
    ) -> Self::Output;

    /// Wraps the current request in a [`WithAccessToken`] that injects
    /// the `authorization` header on send.
    fn with_access_token(self, token_type: &'a Ty, access_token: &'a AccessToken) -> (r:
        Self::Output)
        ensures
            r == self.with_access_token_spec(token_type, access_token),
    ;
}

impl<'a, Ty, E, T> AddAccessToken<'a, Ty> for RequestBuilder<E, T> where Ty: 'a {
    type Output = RequestBuilder<E, WithAccessToken<'a, Ty, T>>;

    open spec fn with_access_token_spec(
        self,
        token_type: &'a Ty,
        access_token: &'a AccessToken,
    ) -> Self::Output {
        RequestBuilder {
            endpoint: self.endpoint,
            request: WithAccessToken { token_type, access_token, value: self.request },
        }
    }

    fn with_access_token(self, token_type: &'a Ty, access_token: &'a AccessToken) -> (r:
        Self::Output) {
        let ghost before = self;
        let f = |value: T| -> (w: WithAccessToken<'a, Ty, T>)
            ensures
                w.token_type == token_type && w.access_token == access_token && w.value == value,
            {
                WithAccessToken::new(value, token_type, access_token)
            };
        let r = self.map(f);
        proof {
            assert(r == before.with_access_token_spec(token_type, access_token));
        }
        r
    }
}

} // verus!
