use open_auth2::client::OAuth2ClientError;
use open_auth2::server::metadata::{AuthorizationServerMetadata, GrantType};
use open_auth2::transport::{HttpClient, RawRequest, ResponseParts};
use open_auth2::util::{NoExtension, UriBuf, discover, discovery_response, well_known_uri};

#[test]
fn test_well_known_uri1() {
    let base = UriBuf::new("https://issuer.example.com/tenant").unwrap();
    let result = well_known_uri(&base, "/.well-known/openid-credential-issuer").unwrap();
    assert_eq!(
        result,
        UriBuf::new("https://issuer.example.com/.well-known/openid-credential-issuer/tenant")
            .unwrap()
    );
}

#[test]
fn test_well_known_uri2() {
    let base = UriBuf::new("https://issuer.example.com").unwrap();
    let result = well_known_uri(&base, "/.well-known/openid-credential-issuer").unwrap();
    assert_eq!(
        result,
        UriBuf::new("https://issuer.example.com/.well-known/openid-credential-issuer").unwrap()
    );
}

// The well-known path segments stand ahead of the base URL's own path,
// and scheme, authority, query and fragment survive.
#[test]
fn well_known_uri_oauth_suffix() {
    let base = UriBuf::new("https://issuer.example.com/tenant").unwrap();
    let result = well_known_uri(&base, "/.well-known/oauth-authorization-server").unwrap();
    assert_eq!(
        result.to_text(),
        "https://issuer.example.com/.well-known/oauth-authorization-server/tenant"
    );
    let with_query = UriBuf::new("https://h.example/t?lang=en#frag").unwrap();
    let merged = well_known_uri(&with_query, "/.well-known/oauth-authorization-server").unwrap();
    assert_eq!(
        merged.to_text(),
        "https://h.example/.well-known/oauth-authorization-server/t?lang=en#frag"
    );
}

#[test]
fn well_known_uri_rejects_bad_suffix() {
    let base = UriBuf::new("https://issuer.example.com").unwrap();
    assert!(well_known_uri(&base, "/bad path").is_err());
    assert!(well_known_uri(&base, "/bad?query").is_err());
}

#[test]
fn uri_parse_round_trip() {
    let text = "https://auth.example.com:8443/a/b?x=1&y=2#frag";
    let uri = UriBuf::new(text).unwrap();
    assert_eq!(uri.to_text(), text);
    assert_eq!(uri.scheme_str(), "https");
    assert_eq!(uri.authority_str(), Some("auth.example.com:8443"));
    assert_eq!(uri.path_str(), "/a/b");
    assert_eq!(uri.query_str(), Some("x=1&y=2"));
    assert_eq!(uri.fragment_str(), Some("frag"));
}

#[test]
fn uri_parse_rejects_malformed() {
    assert!(UriBuf::new("no-colon").is_err());
    assert!(UriBuf::new("1https://x").is_err());
    assert!(UriBuf::new("ht tp://x").is_err());
    assert!(UriBuf::new("https://x/a b").is_err());
}

fn metadata_response(status: u16, content_type: &str, body: &[u8]) -> ResponseParts {
    ResponseParts {
        status,
        headers: vec![("content-type".to_owned(), content_type.to_owned())],
        body: body.to_vec(),
    }
}

const ISSUER_BODY: &[u8] = b"{\"issuer\":\"https://issuer.example.com\",\
\"authorization_endpoint\":\"https://issuer.example.com/authorize\",\
\"token_endpoint\":\"https://issuer.example.com/token\",\
\"scopes_supported\":[\"openid\",\"profile\"],\
\"grant_types_supported\":[\"authorization_code\",\"urn:ietf:params:oauth:grant-type:pre-authorized_code\"],\
\"code_challenge_methods_supported\":[\"S256\"]}";

#[test]
fn discovery_decodes_metadata() {
    let base = UriBuf::new("https://issuer.example.com").unwrap();
    let response = metadata_response(200, "application/json", ISSUER_BODY);
    let metadata: AuthorizationServerMetadata<NoExtension> =
        discovery_response(&base, &response).unwrap();
    assert_eq!(metadata.issuer.to_text(), "https://issuer.example.com");
    assert_eq!(
        metadata.authorization_endpoint.as_ref().unwrap().to_text(),
        "https://issuer.example.com/authorize"
    );
    assert_eq!(
        metadata.token_endpoint.as_ref().unwrap().to_text(),
        "https://issuer.example.com/token"
    );
    let scopes: Vec<String> =
        metadata.scopes_supported.unwrap().iter().map(|s| s.as_str().to_owned()).collect();
    assert_eq!(scopes, vec!["openid", "profile"]);
    assert_eq!(
        metadata.grant_types_supported,
        vec![GrantType::AuthorizationCode, GrantType::PreAuthorizedCode]
    );
    // Absent response modes take the documented default.
    assert_eq!(metadata.response_modes_supported, vec!["query", "fragment"]);
}

// The anti-spoofing rule: metadata naming another issuer than the one
// it was fetched from is rejected.
#[test]
fn discovery_rejects_issuer_mismatch() {
    let base = UriBuf::new("https://other.example.com").unwrap();
    let response = metadata_response(200, "application/json", ISSUER_BODY);
    let result: Result<AuthorizationServerMetadata<NoExtension>, OAuth2ClientError> =
        discovery_response(&base, &response);
    assert!(matches!(result, Err(OAuth2ClientError::Response(_))));
}

#[test]
fn discovery_rejects_bad_status() {
    let base = UriBuf::new("https://issuer.example.com").unwrap();
    let response = metadata_response(404, "application/json", ISSUER_BODY);
    let result: Result<AuthorizationServerMetadata<NoExtension>, OAuth2ClientError> =
        discovery_response(&base, &response);
    assert_eq!(result.unwrap_err(), OAuth2ClientError::ServerError(404));
}

#[test]
fn discovery_rejects_bad_content_type() {
    let base = UriBuf::new("https://issuer.example.com").unwrap();
    let response = metadata_response(200, "text/html", ISSUER_BODY);
    let result: Result<AuthorizationServerMetadata<NoExtension>, OAuth2ClientError> =
        discovery_response(&base, &response);
    assert!(matches!(result, Err(OAuth2ClientError::Response(_))));
}

struct WellKnownTransport;

impl HttpClient for WellKnownTransport {
    fn send(&self, request: RawRequest) -> Result<ResponseParts, OAuth2ClientError> {
        assert_eq!(
            request.uri,
            "https://issuer.example.com/.well-known/oauth-authorization-server"
        );
        Ok(metadata_response(200, "application/json", ISSUER_BODY))
    }
}

// End-to-end discovery over a transport: the well-known URI is derived
// from the base URL, and the validated metadata comes back.
#[test]
fn discover_fetches_and_validates() {
    let base = UriBuf::new("https://issuer.example.com").unwrap();
    let metadata: AuthorizationServerMetadata<NoExtension> =
        discover(&WellKnownTransport, &base).unwrap();
    assert_eq!(metadata.issuer.to_text(), "https://issuer.example.com");
}

#[test]
fn metadata_builders() {
    let issuer = UriBuf::new("https://issuer.example.com").unwrap();
    let auth = UriBuf::new("https://issuer.example.com/authorize").unwrap();
    let token = UriBuf::new("https://issuer.example.com/token").unwrap();
    let metadata = AuthorizationServerMetadata::new(issuer.clone(), NoExtension {})
        .with_authorization_endpoint(auth.clone())
        .with_token_endpoint(token.clone());
    assert_eq!(metadata.issuer, issuer);
    assert_eq!(metadata.authorization_endpoint, Some(auth));
    assert_eq!(metadata.token_endpoint, Some(token));
    assert!(metadata.validate(&issuer).is_ok());
    let other = UriBuf::new("https://elsewhere.example.com").unwrap();
    assert!(metadata.validate(&other).is_err());
}
