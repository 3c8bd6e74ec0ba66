//! Authorization server metadata (RFC 8414).

use vstd::prelude::*;
use vstd::string::StringExecFns;

use crate::client::OAuth2ClientError;
use crate::codec::{json_has_field, json_has_field_of, json_ok, json_ok_of, json_str_field,
    json_str_field_of, json_str_list_field, json_str_list_field_of};
use crate::ext::pkce::PkceCodeChallengeMethod;
use crate::types::{ScopeBuf, scope_grammar, str_eq, text_bytes};
use crate::util::{Discoverable, UriBuf};

verus! {

/// Grant types a server can announce in its metadata.
#[derive(Debug, Clone, PartialEq, Eq)]
pub enum GrantType {
    /// The authorization code grant.
    AuthorizationCode,
    /// The implicit grant.
    Implicit,
    /// The pre-authorized code grant.
    PreAuthorizedCode,
    /// Any other grant type, by its wire name.
    Extension(String),
}

/// The wire name of a grant type.
pub open spec fn grant_type_text(g: GrantType) -> Seq<char> {
    match g {
        GrantType::AuthorizationCode => "authorization_code"@,
        GrantType::Implicit => "implicit"@,
        GrantType::PreAuthorizedCode => "urn:ietf:params:oauth:grant-type:pre-authorized_code"@,
        GrantType::Extension(s) => s@,
    }
}

/// Parses a grant type from its wire name; an unknown name is an
/// extension grant type.
pub fn grant_type_from_str(s: &str) -> (r: GrantType)
    ensures
        grant_type_text(r) == s@,
{
    if str_eq(s, "authorization_code") {
        GrantType::AuthorizationCode
    } else if str_eq(s, "implicit") {
        GrantType::Implicit
    } else if str_eq(s, "urn:ietf:params:oauth:grant-type:pre-authorized_code") {
        GrantType::PreAuthorizedCode
    } else {
        GrantType::Extension(s.to_owned())
    }
}

/// The default `response_modes_supported`: `query` and `fragment`.
pub fn default_response_modes_supported() -> (r: Vec<String>)
    ensures
        r@.len() == 2,
        r@[0]@ == "query"@,
        r@[1]@ == "fragment"@,
{
    let mut v: Vec<String> = Vec::new();
    v.push(String::from_str("query"));
    v.push(String::from_str("fragment"));
    v
}

/// The default `grant_types_supported`: the authorization code and
/// implicit grants.
pub fn default_grant_types_supported() -> (r: Vec<GrantType>)
    ensures
        r@ == seq![GrantType::AuthorizationCode, GrantType::Implicit],
{
    let mut v: Vec<GrantType> = Vec::new();
    v.push(GrantType::AuthorizationCode);
    v.push(GrantType::Implicit);
    proof {
        assert(v@ =~= seq![GrantType::AuthorizationCode, GrantType::Implicit]);
    }
    v
}

/// Error returned for metadata that does not describe the issuer it was
/// fetched from.
#[derive(Debug, Clone, Copy, PartialEq, Eq, Structural)]
pub struct InvalidAuthorizationServerMetadata;

/// Authorization server metadata (RFC 8414), as served under the
/// well-known discovery path.
#[derive(Debug)]
pub struct AuthorizationServerMetadata<P> {
    /// The issuer identifier; must equal the URL the metadata was
    /// discovered from.
    pub issuer: UriBuf,
    /// URL of the authorization endpoint.
    pub authorization_endpoint: Option<UriBuf>,
    /// URL of the token endpoint.
    pub token_endpoint: Option<UriBuf>,
    /// URL of the server's JSON Web Key Set.
    pub jwks_uri: Option<UriBuf>,
    /// URL of the dynamic client registration endpoint.
    pub registration_endpoint: Option<UriBuf>,
    /// Scopes the server supports.
    pub scopes_supported: Option<Vec<ScopeBuf>>,
    /// Response types the server supports. Required by the core
    /// specification but made optional by some extensions.
    pub response_types_supported: Option<Vec<String>>,
    /// Response modes the server supports.
    pub response_modes_supported: Vec<String>,
    /// Grant types the server supports.
    pub grant_types_supported: Vec<GrantType>,
    /// URL of the revocation endpoint.
    pub revocation_endpoint: Option<UriBuf>,
    /// URL of the introspection endpoint.
    pub introspection_endpoint: Option<UriBuf>,
    /// PKCE challenge methods the server supports.
    pub code_challenge_methods_supported: Option<Vec<PkceCodeChallengeMethod>>,
    /// Extension metadata.
    pub extra: P,
}

impl<P> AuthorizationServerMetadata<P> {
    /// Creates metadata for the given issuer, with no endpoints, the
    /// default response modes and grant types, and the given extension
    /// metadata.
    pub fn new(issuer: UriBuf, extra: P) -> (r: Self)
        ensures
            r.issuer == issuer,
            r.authorization_endpoint is None,
            r.token_endpoint is None,
            r.jwks_uri is None,
            r.registration_endpoint is None,
            r.scopes_supported is None,
            r.response_types_supported is None,
            r.response_modes_supported@.len() == 2 && r.response_modes_supported@[0]@ == "query"@
                && r.response_modes_supported@[1]@ == "fragment"@,
            r.grant_types_supported@ == seq![GrantType::AuthorizationCode, GrantType::Implicit],
            r.revocation_endpoint is None,
            r.introspection_endpoint is None,
            r.code_challenge_methods_supported is None,
            r.extra == extra,
    {
        AuthorizationServerMetadata {
            issuer,
            authorization_endpoint: None,
            token_endpoint: None,
            jwks_uri: None,
            registration_endpoint: None,
            scopes_supported: None,
            response_types_supported: None,
            response_modes_supported: default_response_modes_supported(),
            grant_types_supported: default_grant_types_supported(),
            revocation_endpoint: None,
            introspection_endpoint: None,
            code_challenge_methods_supported: None,
            extra,
        }
    }

    /// Sets the authorization endpoint.
    pub fn with_authorization_endpoint(self, authorization_endpoint: UriBuf) -> (r: Self)
        ensures
            r == (AuthorizationServerMetadata {
                authorization_endpoint: Some(authorization_endpoint),
                ..self
            }),
    {
        AuthorizationServerMetadata { authorization_endpoint: Some(authorization_endpoint), ..self }
    }

    /// Sets the token endpoint.
    pub fn with_token_endpoint(self, token_endpoint: UriBuf) -> (r: Self)
        ensures
            r == (AuthorizationServerMetadata { token_endpoint: Some(token_endpoint), ..self }),
    {
        AuthorizationServerMetadata { token_endpoint: Some(token_endpoint), ..self }
    }

    /// Checks the anti-spoofing rule of RFC 8414: the metadata's issuer
    /// must equal the URL it was discovered from, byte for byte.
    pub fn validate(&self, base_url: &UriBuf) -> (r: Result<(), OAuth2ClientError>)
        ensures
            r is Ok <==> self.issuer.bytes_view() == base_url.bytes_view(),
            r matches Err(e) ==> e is Response,
    {
        let issuer_text = self.issuer.to_text();
        let base_text = base_url.to_text();
        if crate::types::bytes_eq(issuer_text.as_str().as_bytes(), base_text.as_str().as_bytes()) {
            proof {
                assert(text_bytes(issuer_text@) =~= text_bytes(base_text@));
            }
            Ok(())
        } else {
            proof {
                if self.issuer.bytes_view() == base_url.bytes_view() {
                    assert(text_bytes(issuer_text@) =~= text_bytes(base_text@));
                }
            }
            Err(
                OAuth2ClientError::response(
                    String::from_str("invalid authorization server metadata issuer"),
                ),
            )
        }
    }
}

/// A string is well-formed URI text.
pub open spec fn uri_text_ok(s: Seq<char>) -> bool {
    vstd::utf8::is_ascii_chars(s) && crate::util::spec_parse_uri(text_bytes(s)) is Some
}

/// An optional URI field of a metadata document is absent or holds
/// well-formed URI text.
pub open spec fn metadata_uri_field_ok(body: Seq<u8>, key: Seq<char>) -> bool {
    json_has_field_of(body, key) ==> (json_str_field_of(body, key) matches Some(s) && uri_text_ok(
        s,
    ))
}


/// A response body holds usable authorization server metadata: one JSON
/// object whose required `issuer` field is a well-formed URI, whose
/// optional endpoint fields are well-formed URIs when present, whose
/// list fields are string arrays when present, with the scope and
/// challenge-method entries well-formed.
pub open spec fn metadata_fields_ok(body: Seq<u8>) -> bool {
    &&& json_ok_of(body)
    &&& json_str_field_of(body, "issuer"@) matches Some(s) && uri_text_ok(s)
    &&& metadata_uri_field_ok(body, "authorization_endpoint"@)
    &&& metadata_uri_field_ok(body, "token_endpoint"@)
    &&& metadata_uri_field_ok(body, "jwks_uri"@)
    &&& metadata_uri_field_ok(body, "registration_endpoint"@)
    &&& metadata_uri_field_ok(body, "revocation_endpoint"@)
    &&& metadata_uri_field_ok(body, "introspection_endpoint"@)
    &&& (json_has_field_of(body, "scopes_supported"@) ==> (json_str_list_field_of(
        body,
        "scopes_supported"@,
    ) matches Some(l) && (forall|i: int| 0 <= i < l.len() ==> scope_grammar(#[trigger] l[i]))))
    &&& (json_has_field_of(body, "response_types_supported"@) ==> json_str_list_field_of(
        body,
        "response_types_supported"@,
    ) is Some)
    &&& (json_has_field_of(body, "response_modes_supported"@) ==> json_str_list_field_of(
        body,
        "response_modes_supported"@,
    ) is Some)
    &&& (json_has_field_of(body, "grant_types_supported"@) ==> json_str_list_field_of(
        body,
        "grant_types_supported"@,
    ) is Some)
    &&& (json_has_field_of(body, "code_challenge_methods_supported"@) ==> (json_str_list_field_of(
        body,
        "code_challenge_methods_supported"@,
    ) matches Some(l) && (forall|i: int|
        0 <= i < l.len() ==> #[trigger] l[i] == "plain"@ || l[i] == "S256"@)))
}

/// What a decoded optional URI field holds: the body's field, parsed,
/// or `None` when the body has none.
pub open spec fn metadata_uri_field_post(body: Seq<u8>, key: Seq<char>, field: Option<
    UriBuf,
>) -> bool {
    if json_has_field_of(body, key) {
        field matches Some(u) && (json_str_field_of(body, key) matches Some(s) && u.bytes_view()
            == text_bytes(s))
    } else {
        field is None
    }
}

/// What decoded metadata holds: exactly the body's fields, with the
/// documented defaults where the body has none.
pub open spec fn metadata_decode_post(
    body: Seq<u8>,
    m: &AuthorizationServerMetadata<crate::util::NoExtension>,
) -> bool {
    &&& json_str_field_of(body, "issuer"@) matches Some(s) && m.issuer.bytes_view() == text_bytes(
        s,
    )
    &&& metadata_uri_field_post(body, "authorization_endpoint"@, m.authorization_endpoint)
    &&& metadata_uri_field_post(body, "token_endpoint"@, m.token_endpoint)
    &&& metadata_uri_field_post(body, "jwks_uri"@, m.jwks_uri)
    &&& metadata_uri_field_post(body, "registration_endpoint"@, m.registration_endpoint)
    &&& metadata_uri_field_post(body, "revocation_endpoint"@, m.revocation_endpoint)
    &&& metadata_uri_field_post(body, "introspection_endpoint"@, m.introspection_endpoint)
    &&& (if json_has_field_of(body, "scopes_supported"@) {
        m.scopes_supported matches Some(v) && (json_str_list_field_of(body, "scopes_supported"@)
            matches Some(l) && v@.len() == l.len() && (forall|i: int|
            0 <= i < l.len() ==> #[trigger] v@[i]@ == l[i]))
    } else {
        m.scopes_supported is None
    })
    &&& (if json_has_field_of(body, "response_types_supported"@) {
        m.response_types_supported matches Some(v) && (json_str_list_field_of(
            body,
            "response_types_supported"@,
        ) matches Some(l) && v@.len() == l.len() && (forall|i: int|
            0 <= i < l.len() ==> #[trigger] v@[i]@ == l[i]))
    } else {
        m.response_types_supported is None
    })
    &&& (if json_has_field_of(body, "response_modes_supported"@) {
        json_str_list_field_of(body, "response_modes_supported"@) matches Some(l)
            && m.response_modes_supported@.len() == l.len() && (forall|i: int|
            0 <= i < l.len() ==> #[trigger] m.response_modes_supported@[i]@ == l[i])
    } else {
        m.response_modes_supported@.len() == 2 && m.response_modes_supported@[0]@ == "query"@
            && m.response_modes_supported@[1]@ == "fragment"@
    })
    &&& (if json_has_field_of(body, "grant_types_supported"@) {
        json_str_list_field_of(body, "grant_types_supported"@) matches Some(l)
            && m.grant_types_supported@.len() == l.len() && (forall|i: int|
            0 <= i < l.len() ==> grant_type_text(#[trigger] m.grant_types_supported@[i]) == l[i])
    } else {
        m.grant_types_supported@ == seq![GrantType::AuthorizationCode, GrantType::Implicit]
    })
    &&& (if json_has_field_of(body, "code_challenge_methods_supported"@) {
        m.code_challenge_methods_supported matches Some(v) && (json_str_list_field_of(
            body,
            "code_challenge_methods_supported"@,
        ) matches Some(l) && v@.len() == l.len() && (forall|i: int|
            0 <= i < l.len() ==> #[trigger] v@[i] == (if l[i] == "plain"@ {
                PkceCodeChallengeMethod::Plain
            } else {
                PkceCodeChallengeMethod::S256
            })))
    } else {
        m.code_challenge_methods_supported is None
    })
    &&& m.extra == (crate::util::NoExtension {  })
}

impl Discoverable for AuthorizationServerMetadata<crate::util::NoExtension> {
    open spec fn validate_spec(&self, base_url: &UriBuf) -> bool {
        self.issuer.bytes_view() == base_url.bytes_view()
    }

    open spec fn decode_ok_spec(body: Seq<u8>) -> bool {
        metadata_fields_ok(body)
    }

    open spec fn decode_post_spec(body: Seq<u8>, m: &Self) -> bool {
        metadata_decode_post(body, m)
    }

    fn well_known_suffix() -> &'static str {
        ".well-known/oauth-authorization-server"
    }

    fn decode(body: &[u8]) -> (r: Result<Self, OAuth2ClientError>) {
        decode_authorization_server_metadata(body)
    }

    fn validate(&self, base_url: &UriBuf) -> (r: Result<(), OAuth2ClientError>) {
        AuthorizationServerMetadata::validate(self, base_url)
    }
}

/// Reads an optional URI field of a metadata document: `Ok(None)` when
/// absent, an error when present but not a well-formed URI string.
fn metadata_uri_field(body: &[u8], key: &str) -> (r: Result<Option<UriBuf>, OAuth2ClientError>)
    ensures
        r is Ok <==> metadata_uri_field_ok(body@, key@),
        r matches Ok(f) ==> metadata_uri_field_post(body@, key@, f),
        r matches Err(e) ==> e is Response,
{
    if !json_has_field(body, key) {
        return Ok(None);
    }
    let s = match json_str_field(body, key) {
        Some(s) => s,
        None => {
            return Err(OAuth2ClientError::response(String::from_str("malformed metadata URL")));
        },
    };
    match UriBuf::new(s.as_str()) {
        Ok(u) => Ok(Some(u)),
        Err(_) => Err(OAuth2ClientError::response(String::from_str("malformed metadata URL"))),
    }
}

/// Decodes authorization server metadata from a JSON response body.
///
/// Decoding succeeds exactly on [`metadata_fields_ok`] bodies: the
/// required `issuer` field must hold a well-formed URI; endpoint fields
/// must be URIs when present; `scopes_supported` entries must satisfy
/// the scope grammar; absent `response_modes_supported` and
/// `grant_types_supported` take their documented defaults; and
/// `code_challenge_methods_supported` entries must be known challenge
/// method names. The result holds exactly the body's fields.
pub fn decode_authorization_server_metadata(body: &[u8]) -> (r: Result<
    AuthorizationServerMetadata<crate::util::NoExtension>,
    OAuth2ClientError,
>)
    ensures
        r is Ok <==> metadata_fields_ok(body@),
        r matches Ok(m) ==> metadata_decode_post(body@, &m),
        r matches Err(e) ==> e is Response,
{
    if !json_ok(body) {
        return Err(OAuth2ClientError::response(String::from_str("malformed JSON body")));
    }
    let issuer = match json_str_field(body, "issuer") {
        Some(s) => match UriBuf::new(s.as_str()) {
            Ok(u) => u,
            Err(_) => {
                return Err(OAuth2ClientError::response(String::from_str("malformed issuer")));
            },
        },
        None => {
            return Err(OAuth2ClientError::response(String::from_str("missing issuer")));
        },
    };
    let authorization_endpoint = match metadata_uri_field(body, "authorization_endpoint") {
        Ok(u) => u,
        Err(e) => {
            return Err(e);
        },
    };
    let token_endpoint = match metadata_uri_field(body, "token_endpoint") {
        Ok(u) => u,
        Err(e) => {
            return Err(e);
        },
    };
    let jwks_uri = match metadata_uri_field(body, "jwks_uri") {
        Ok(u) => u,
        Err(e) => {
            return Err(e);
        },
    };
    let registration_endpoint = match metadata_uri_field(body, "registration_endpoint") {
        Ok(u) => u,
        Err(e) => {
            return Err(e);
        },
    };
    let revocation_endpoint = match metadata_uri_field(body, "revocation_endpoint") {
        Ok(u) => u,
        Err(e) => {
            return Err(e);
        },
    };
    let introspection_endpoint = match metadata_uri_field(body, "introspection_endpoint") {
        Ok(u) => u,
        Err(e) => {
            return Err(e);
        },
    };
    let scopes_supported: Option<Vec<ScopeBuf>> = if json_has_field(body, "scopes_supported") {
        let raw = match json_str_list_field(body, "scopes_supported") {
            Some(list) => list,
            None => {
                return Err(
                    OAuth2ClientError::response(String::from_str("malformed scopes_supported")),
                );
            },
        };
        let ghost l: Seq<Seq<char>> = Seq::new(raw@.len(), |i: int| raw@[i]@);
        proof {
            assert(json_str_list_field_of(body@, "scopes_supported"@) matches Some(x) && x =~= l);
        }
        let mut scopes: Vec<ScopeBuf> = Vec::new();
        let mut i: usize = 0;
        while i < raw.len()
            invariant
                i <= raw@.len(),
                json_has_field_of(body@, "scopes_supported"@),
                json_str_list_field_of(body@, "scopes_supported"@) == Some(l),
                l.len() == raw@.len(),
                forall|j: int| 0 <= j < raw@.len() ==> #[trigger] l[j] == raw@[j]@,
                scopes@.len() == i,
                forall|j: int| 0 <= j < i ==> #[trigger] scopes@[j]@ == l[j],
                forall|j: int| 0 <= j < i ==> scope_grammar(#[trigger] l[j]),
            decreases raw@.len() - i,
        {
            let s = raw[i].clone();
            match ScopeBuf::new(s) {
                Ok(sc) => scopes.push(sc),
                Err(_) => {
                    proof {
                        assert(!scope_grammar(l[i as int]));
                        assert(json_str_list_field_of(body@, "scopes_supported"@)
                            matches Some(l2) ==> l2 == l && !scope_grammar(l2[i as int]));
                        assert(!(forall|j: int|
                            0 <= j < l.len() ==> scope_grammar(#[trigger] l[j])));
                        assert(!metadata_fields_ok(body@));
                    }
                    return Err(
                        OAuth2ClientError::response(String::from_str("malformed scopes_supported")),
                    );
                },
            }
            i += 1;
        }
        Some(scopes)
    } else {
        None
    };
    let response_types_supported: Option<Vec<String>> = if json_has_field(
        body,
        "response_types_supported",
    ) {
        match json_str_list_field(body, "response_types_supported") {
            Some(list) => Some(list),
            None => {
                return Err(
                    OAuth2ClientError::response(
                        String::from_str("malformed response_types_supported"),
                    ),
                );
            },
        }
    } else {
        None
    };
    let response_modes_supported: Vec<String> = if json_has_field(
        body,
        "response_modes_supported",
    ) {
        match json_str_list_field(body, "response_modes_supported") {
            Some(list) => list,
            None => {
                return Err(
                    OAuth2ClientError::response(
                        String::from_str("malformed response_modes_supported"),
                    ),
                );
            },
        }
    } else {
        default_response_modes_supported()
    };
    let grant_types_supported: Vec<GrantType> = if json_has_field(body, "grant_types_supported") {
        let raw = match json_str_list_field(body, "grant_types_supported") {
            Some(list) => list,
            None => {
                return Err(
                    OAuth2ClientError::response(String::from_str("malformed grant_types_supported")),
                );
            },
        };
        let ghost l: Seq<Seq<char>> = Seq::new(raw@.len(), |i: int| raw@[i]@);
        proof {
            assert(json_str_list_field_of(body@, "grant_types_supported"@) matches Some(x) && x
                =~= l);
        }
        let mut grants: Vec<GrantType> = Vec::new();
        let mut i: usize = 0;
        while i < raw.len()
            invariant
                i <= raw@.len(),
                json_str_list_field_of(body@, "grant_types_supported"@) == Some(l),
                l.len() == raw@.len(),
                forall|j: int| 0 <= j < raw@.len() ==> #[trigger] l[j] == raw@[j]@,
                grants@.len() == i,
                forall|j: int| 0 <= j < i ==> grant_type_text(#[trigger] grants@[j]) == l[j],
            decreases raw@.len() - i,
        {
            grants.push(grant_type_from_str(raw[i].as_str()));
            i += 1;
        }
        grants
    } else {
        default_grant_types_supported()
    };
    let code_challenge_methods_supported: Option<Vec<PkceCodeChallengeMethod>> = if json_has_field(
        body,
        "code_challenge_methods_supported",
    ) {
        let raw = match json_str_list_field(body, "code_challenge_methods_supported") {
            Some(list) => list,
            None => {
                return Err(
                    OAuth2ClientError::response(
                        String::from_str("malformed code_challenge_methods_supported"),
                    ),
                );
            },
        };
        let ghost l: Seq<Seq<char>> = Seq::new(raw@.len(), |i: int| raw@[i]@);
        proof {
            assert(json_str_list_field_of(body@, "code_challenge_methods_supported"@)
                matches Some(x) && x =~= l);
        }
        let mut methods: Vec<PkceCodeChallengeMethod> = Vec::new();
        let mut i: usize = 0;
        while i < raw.len()
            invariant
                i <= raw@.len(),
                json_has_field_of(body@, "code_challenge_methods_supported"@),
                json_str_list_field_of(body@, "code_challenge_methods_supported"@) == Some(l),
                l.len() == raw@.len(),
                forall|j: int| 0 <= j < raw@.len() ==> #[trigger] l[j] == raw@[j]@,
                methods@.len() == i,
                forall|j: int|
                    0 <= j < i ==> #[trigger] methods@[j] == (if l[j] == "plain"@ {
                        PkceCodeChallengeMethod::Plain
                    } else {
                        PkceCodeChallengeMethod::S256
                    }),
                forall|j: int| 0 <= j < i ==> #[trigger] l[j] == "plain"@ || l[j] == "S256"@,
            decreases raw@.len() - i,
        {
            if str_eq(raw[i].as_str(), "plain") {
                methods.push(PkceCodeChallengeMethod::Plain);
            } else if str_eq(raw[i].as_str(), "S256") {
                methods.push(PkceCodeChallengeMethod::S256);
            } else {
                proof {
                    assert(l[i as int] != "plain"@ && l[i as int] != "S256"@);
                    assert(json_str_list_field_of(body@, "code_challenge_methods_supported"@)
                        matches Some(l2) ==> l2 == l && !(l2[i as int] == "plain"@ || l2[i as int]
                        == "S256"@));
                    assert(!(forall|j: int|
                        0 <= j < l.len() ==> #[trigger] l[j] == "plain"@ || l[j] == "S256"@));
                    assert(!metadata_fields_ok(body@));
                }
                return Err(
                    OAuth2ClientError::response(
                        String::from_str("malformed code_challenge_methods_supported"),
                    ),
                );
            }
            i += 1;
        }
        Some(methods)
    } else {
        None
    };
    Ok(
        AuthorizationServerMetadata {
            issuer,
            authorization_endpoint,
            token_endpoint,
            jwks_uri,
            registration_endpoint,
            scopes_supported,
            response_types_supported,
            response_modes_supported,
            grant_types_supported,
            revocation_endpoint,
            introspection_endpoint,
            code_challenge_methods_supported,
            extra: crate::util::NoExtension {  },
        },
    )
}

} // verus!
