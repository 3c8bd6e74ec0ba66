//! OAuth 2.0 token endpoint (RFC 6749, section 3.2).

use vstd::prelude::*;
use vstd::string::StringExecFns;

use crate::client::{OAuth2Client, OAuth2ClientError};
use crate::codec::{json_has_field, json_has_field_of, json_ok, json_ok_of, json_str_field,
    json_str_field_of, json_u64_field, json_u64_field_of};
use crate::endpoints::Endpoint;
use crate::transport::{APPLICATION_JSON, ResponseParts, content_type_matches,
    expect_content_type};
use crate::types::{AccessTokenBuf, ScopeBuf, access_token_grammar, scope_grammar, text_bytes};
use crate::util::{NoExtension, UriBuf, UriPartsView};

verus! {

/// The OAuth 2.0 token endpoint.
///
/// This endpoint is used by the client to exchange an authorization
/// grant for an access token.
pub struct TokenEndpoint<'a, C> {
    /// The OAuth 2.0 client.
    pub client: &'a C,
    /// The token endpoint URI.
    pub uri: &'a UriBuf,
}

impl<'a, C> Clone for TokenEndpoint<'a, C> {
    fn clone(&self) -> (r: Self)
        ensures
            r == *self,
    {
        TokenEndpoint { client: self.client, uri: self.uri }
    }
}

impl<'a, C> TokenEndpoint<'a, C> {
    /// Creates a new token endpoint for the given client and URI.
    pub fn new(client: &'a C, uri: &'a UriBuf) -> (r: Self)
        ensures
            r == (TokenEndpoint { client, uri }),
    {
        TokenEndpoint { client, uri }
    }
}

impl<'a, C> Endpoint for TokenEndpoint<'a, C> where C: OAuth2Client {
    type Client = C;

    open spec fn uri_spec(&self) -> UriPartsView {
        self.uri.parts()
    }

    fn client(&self) -> &Self::Client {
        self.client
    }

    fn uri(&self) -> (r: &UriBuf) {
        self.uri
    }
}

/// Marker trait for OAuth 2.0 token types (e.g. `"Bearer"`).
///
/// A token type can be written out as text, for the `Authorization`
/// header and the `token_type` response field.
pub trait TokenType {
    /// The token type's text.
    spec fn token_text(&self) -> Seq<char>;

    /// Returns the token type's text.
    fn as_type_str(&self) -> (r: &str)
        ensures
            r@ == self.token_text(),
    ;
}

impl TokenType for String {
    open spec fn token_text(&self) -> Seq<char> {
        self@
    }

    fn as_type_str(&self) -> (r: &str) {
        self.as_str()
    }
}

/// Successful response from the token endpoint (RFC 6749, section 5.1).
///
/// The type parameters allow customizing the token type and any
/// extension fields returned by the authorization server. Use
/// [`NoExtension`] when no extra fields are expected.
#[derive(Debug)]
pub struct TokenResponse<T, E> {
    /// The access token issued by the authorization server.
    pub access_token: AccessTokenBuf,
    /// The type of the token issued (e.g. `"Bearer"`); case insensitive.
    pub token_type: T,
    /// Lifetime in seconds of the access token.
    pub expires_in: Option<u64>,
    /// The refresh token, which can be used to obtain new access tokens
    /// using the same authorization grant.
    pub refresh_token: Option<String>,
    /// The scope of the access token; optional if identical to the scope
    /// requested by the client.
    pub scope: Option<ScopeBuf>,
    /// Extension fields of the response, for callers that build or
    /// decode token responses themselves. The pipeline's decoder does
    /// not read server-specific extension fields: it always produces
    /// [`NoExtension`] here.
    pub ext: E,
}

impl<T, E> TokenResponse<T, E> {
    /// Creates a new token response with the required fields.
    ///
    /// Optional fields (`expires_in`, `refresh_token`, `scope`) default
    /// to `None`.
    pub fn new(access_token: AccessTokenBuf, token_type: T, ext: E) -> (r: Self)
        ensures
            r == (TokenResponse {
                access_token,
                token_type,
                expires_in: None::<u64>,
                refresh_token: None::<String>,
                scope: None::<ScopeBuf>,
                ext,
            }),
    {
        TokenResponse {
            access_token,
            token_type,
            expires_in: None,
            refresh_token: None,
            scope: None,
            ext,
        }
    }
}

/// Builds a token response from its decoded JSON fields.
///
/// Succeeds exactly when the required `access_token` and `token_type`
/// fields are present, the access token satisfies its grammar, and the
/// scope, when present, satisfies the scope grammar.
pub fn token_response_from_fields(
    access_token: Option<String>,
    token_type: Option<String>,
    expires_in: Option<u64>,
    refresh_token: Option<String>,
    scope: Option<String>,
) -> (r: Result<TokenResponse<String, NoExtension>, OAuth2ClientError>)
    ensures
        r is Ok <==> (access_token matches Some(a) && access_token_grammar(a@)) && token_type
            is Some && (scope matches Some(s) ==> scope_grammar(s@)),
        r matches Ok(tr) ==> tr.access_token@ == access_token.unwrap()@ && tr.token_type@
            == token_type.unwrap()@ && tr.expires_in == expires_in && (match tr.refresh_token {
            Some(x) => refresh_token matches Some(y) && x@ == y@,
            None => refresh_token is None,
        }) && (match tr.scope {
            Some(x) => scope matches Some(y) && x@ == y@,
            None => scope is None,
        }) && tr.ext == (NoExtension {  }),
        r matches Err(e) ==> e is Response,
{
    let access_token = match access_token {
        Some(a) => a,
        None => {
            return Err(OAuth2ClientError::response(String::from_str("missing access_token")));
        },
    };
    let token_type = match token_type {
        Some(t) => t,
        None => {
            return Err(OAuth2ClientError::response(String::from_str("missing token_type")));
        },
    };
    let access_token = match AccessTokenBuf::new(access_token) {
        Ok(a) => a,
        Err(_) => {
            return Err(OAuth2ClientError::response(String::from_str("malformed access_token")));
        },
    };
    let scope = match scope {
        Some(s) => match ScopeBuf::new(s) {
            Ok(sc) => Some(sc),
            Err(_) => {
                return Err(OAuth2ClientError::response(String::from_str("malformed scope")));
            },
        },
        None => None,
    };
    Ok(
        TokenResponse {
            access_token,
            token_type,
            expires_in,
            refresh_token,
            scope,
            ext: NoExtension {  },
        },
    )
}

/// A response body holds a usable token response: well-formed JSON whose
/// required `access_token` and `token_type` string fields are present,
/// the access token satisfying its grammar, and whose optional fields,
/// when present, have the right shape.
pub open spec fn token_fields_ok(body: Seq<u8>) -> bool {
    &&& json_ok_of(body)
    &&& json_str_field_of(body, "access_token"@) matches Some(a) && access_token_grammar(a)
    &&& json_str_field_of(body, "token_type"@) is Some
    &&& (json_has_field_of(body, "expires_in"@) ==> json_u64_field_of(body, "expires_in"@)
        is Some)
    &&& (json_has_field_of(body, "refresh_token"@) ==> json_str_field_of(
        body,
        "refresh_token"@,
    ) is Some)
    &&& (json_has_field_of(body, "scope"@) ==> json_str_field_of(body, "scope"@) is Some)
    &&& (json_str_field_of(body, "scope"@) matches Some(s) ==> scope_grammar(s))
}

/// A token endpoint response decodes: HTTP 200, a JSON content type, and
/// a usable body.
pub open spec fn token_decode_ok(response: &ResponseParts) -> bool {
    &&& response.status == 200
    &&& content_type_matches(response.headers@, APPLICATION_JSON@)
    &&& token_fields_ok(response.body@)
}

/// What a decoded token response holds: exactly the body's fields.
pub open spec fn token_decode_post(
    response: &ResponseParts,
    tr: &TokenResponse<String, NoExtension>,
) -> bool {
    let body = response.body@;
    &&& json_str_field_of(body, "access_token"@) == Some(tr.access_token@)
    &&& json_str_field_of(body, "token_type"@) == Some(tr.token_type@)
    &&& tr.expires_in == json_u64_field_of(body, "expires_in"@)
    &&& (match tr.refresh_token {
        Some(x) => json_str_field_of(body, "refresh_token"@) == Some(x@),
        None => json_str_field_of(body, "refresh_token"@) is None,
    })
    &&& (match tr.scope {
        Some(x) => json_str_field_of(body, "scope"@) == Some(x@),
        None => json_str_field_of(body, "scope"@) is None,
    })
    &&& tr.ext == (NoExtension {  })
}

/// Decodes a token endpoint response: HTTP 200, `application/json`, a
/// JSON object with the token response fields.
///
/// A status other than 200 is a server error carrying that status, and
/// is never a decode attempt; every other failure is a response error.
/// Decoding succeeds exactly on [`token_decode_ok`] responses, and the
/// result holds exactly the body's fields. Extension fields the server
/// may have added are not decoded here: the result's `ext` is always
/// [`NoExtension`].
pub fn decode_token_response(response: &ResponseParts) -> (r: Result<
    TokenResponse<String, NoExtension>,
    OAuth2ClientError,
>)
    ensures
        response.status != 200 ==> r == Err::<TokenResponse<String, NoExtension>, _>(
            OAuth2ClientError::ServerError(response.status),
        ),
        r is Ok <==> token_decode_ok(response),
        r matches Ok(tr) ==> token_decode_post(response, &tr),
        r matches Err(e) ==> response.status != 200 || e is Response,
{
    if response.status != 200 {
        return Err(OAuth2ClientError::server(response.status));
    }
    match expect_content_type(&response.headers, APPLICATION_JSON) {
        Ok(_) => {
        },
        Err(e) => {
            return Err(e);
        },
    }
    let body = response.body.as_slice();
    if !json_ok(body) {
        return Err(OAuth2ClientError::response(String::from_str("malformed JSON body")));
    }
    let access_token = json_str_field(body, "access_token");
    let token_type = json_str_field(body, "token_type");
    let expires_in = json_u64_field(body, "expires_in");
    if expires_in.is_none() && json_has_field(body, "expires_in") {
        return Err(OAuth2ClientError::response(String::from_str("malformed expires_in")));
    }
    let refresh_token = json_str_field(body, "refresh_token");
    if refresh_token.is_none() && json_has_field(body, "refresh_token") {
        return Err(OAuth2ClientError::response(String::from_str("malformed refresh_token")));
    }
    let scope = json_str_field(body, "scope");
    if scope.is_none() && json_has_field(body, "scope") {
        return Err(OAuth2ClientError::response(String::from_str("malformed scope")));
    }
    token_response_from_fields(access_token, token_type, expires_in, refresh_token, scope)
}

} // verus!
