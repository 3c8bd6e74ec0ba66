use open_auth2::client::OAuth2ClientError;
use open_auth2::endpoints::authorization::AuthorizationEndpoint;
use open_auth2::endpoints::pushed_authorization::{Pushed, PushedAuthorizationEndpoint,
    PushedAuthorizationRequest, PushedAuthorizationResponse};
use open_auth2::endpoints::token::TokenEndpoint;
use open_auth2::endpoints::RequestBuilder;
use open_auth2::ext::pkce::{AddPkceChallenge, AddPkceVerifier, PkceCodeChallengeAndMethod,
    PkceCodeVerifier};
use open_auth2::transport::{HttpClient, Method, RawRequest, ResponseParts};
use open_auth2::ext::rar::{AddAuthorizationDetails, AuthorizationDetails, RawAuthorizationDetail};
use open_auth2::grant::refresh::RefreshTokenRequest;
use open_auth2::util::{NoExtension, UriBuf};
use open_auth2::{AccessToken, AddAccessToken, AddState, ClientId, ClientIdBuf, Code, State};

fn test_client(id: &str) -> ClientIdBuf {
    ClientId::new(id.to_owned()).unwrap()
}

struct MockTransport {
    status: u16,
    content_type: &'static str,
    body: &'static [u8],
}

impl HttpClient for MockTransport {
    fn send(&self, _request: RawRequest) -> Result<ResponseParts, OAuth2ClientError> {
        Ok(ResponseParts {
            status: self.status,
            headers: vec![("content-type".to_owned(), self.content_type.to_owned())],
            body: self.body.to_vec(),
        })
    }
}

// A token exchange against a transport answering 200 with a minimal
// JSON body decodes to a token response with no expiry.
#[test]
fn token_exchange_decodes_success() {
    let client = test_client("my-client");
    let uri = UriBuf::new("https://auth.example.com/token").unwrap();
    let transport = MockTransport {
        status: 200,
        content_type: "application/json",
        body: b"{\"access_token\":\"abc\",\"token_type\":\"Bearer\"}",
    };
    let response = TokenEndpoint::new(&client, &uri)
        .exchange_pre_authorized_code("offer-code".to_owned(), None)
        .send(&transport)
        .unwrap();
    assert_eq!(response.access_token.as_str(), "abc");
    assert_eq!(response.token_type, "Bearer");
    assert_eq!(response.expires_in, None);
    assert_eq!(response.refresh_token, None);
    assert!(response.scope.is_none());
}

// The same transport answering 403 yields a server error carrying the
// status, not a decode attempt.
#[test]
fn token_exchange_surfaces_server_error() {
    let client = test_client("my-client");
    let uri = UriBuf::new("https://auth.example.com/token").unwrap();
    let transport = MockTransport {
        status: 403,
        content_type: "application/json",
        body: b"{\"access_token\":\"abc\",\"token_type\":\"Bearer\"}",
    };
    let result = TokenEndpoint::new(&client, &uri)
        .exchange_code(Code::new("received-code".to_owned()).unwrap(), None)
        .send(&transport);
    assert_eq!(result.unwrap_err(), OAuth2ClientError::ServerError(403));
}

#[test]
fn token_exchange_rejects_malformed_body() {
    let client = test_client("my-client");
    let uri = UriBuf::new("https://auth.example.com/token").unwrap();
    let transport = MockTransport {
        status: 200,
        content_type: "application/json",
        body: b"{\"token_type\":\"Bearer\"}",
    };
    let result = TokenEndpoint::new(&client, &uri)
        .exchange_pre_authorized_code("offer-code".to_owned(), None)
        .send(&transport);
    assert!(matches!(result, Err(OAuth2ClientError::Response(_))));
}

struct FailingTransport;

impl HttpClient for FailingTransport {
    fn send(&self, _request: RawRequest) -> Result<ResponseParts, OAuth2ClientError> {
        Err(OAuth2ClientError::request("connection refused".to_owned()))
    }
}

// A transport failure surfaces as a request error, untouched.
#[test]
fn token_exchange_surfaces_transport_error() {
    let client = test_client("my-client");
    let uri = UriBuf::new("https://auth.example.com/token").unwrap();
    let result = TokenEndpoint::new(&client, &uri)
        .exchange_pre_authorized_code("offer-code".to_owned(), None)
        .send(&FailingTransport);
    assert_eq!(result.unwrap_err(), OAuth2ClientError::Request("connection refused".to_owned()));
}

struct HeaderlessTransport;

impl HttpClient for HeaderlessTransport {
    fn send(&self, _request: RawRequest) -> Result<ResponseParts, OAuth2ClientError> {
        Ok(ResponseParts {
            status: 200,
            headers: vec![],
            body: b"{\"access_token\":\"abc\",\"token_type\":\"Bearer\"}".to_vec(),
        })
    }
}

// A response without a content type is unusable, not decoded.
#[test]
fn token_exchange_requires_content_type() {
    let client = test_client("my-client");
    let uri = UriBuf::new("https://auth.example.com/token").unwrap();
    let result = TokenEndpoint::new(&client, &uri)
        .exchange_pre_authorized_code("offer-code".to_owned(), None)
        .send(&HeaderlessTransport);
    assert!(matches!(result, Err(OAuth2ClientError::Response(_))));
}

struct RecordingTransport;

impl HttpClient for RecordingTransport {
    fn send(&self, request: RawRequest) -> Result<ResponseParts, OAuth2ClientError> {
        assert_eq!(request.method, Method::Post);
        assert_eq!(request.uri, "https://auth.example.com/token");
        let body = String::from_utf8(request.body).unwrap();
        assert_eq!(
            body,
            "code_verifier=dBjftJeZ4CVP-mB92K27uhbUJU1p1r_wW1gFWFOEjXk\
             &grant_type=authorization_code&code=received-code&client_id=my-client"
        );
        let content_type = request
            .headers
            .iter()
            .find(|(name, _)| name == "content-type")
            .map(|(_, value)| value.clone());
        assert_eq!(content_type.as_deref(), Some("application/x-www-form-urlencoded"));
        Ok(ResponseParts {
            status: 200,
            headers: vec![("content-type".to_owned(), "application/json".to_owned())],
            body: b"{\"access_token\":\"abc\",\"token_type\":\"Bearer\",\"expires_in\":3600}"
                .to_vec(),
        })
    }
}

// The composed request carries every layer's parameters: the PKCE
// verifier wrapper's field stands ahead of the base grant's fields in
// the encoded body, and nothing is dropped.
#[test]
fn token_exchange_sends_composed_body() {
    let client = test_client("my-client");
    let uri = UriBuf::new("https://auth.example.com/token").unwrap();
    let verifier =
        PkceCodeVerifier::new("dBjftJeZ4CVP-mB92K27uhbUJU1p1r_wW1gFWFOEjXk".to_owned()).unwrap();
    let response = TokenEndpoint::new(&client, &uri)
        .exchange_code(Code::new("received-code".to_owned()).unwrap(), None)
        .with_pkce_verifier(&verifier)
        .send(&RecordingTransport)
        .unwrap();
    assert_eq!(response.expires_in, Some(3600));
}

// A base request wrapped with state and PKCE in either order serializes
// to the same set of query parameters.
#[test]
fn extension_order_yields_same_parameter_set() {
    let client = test_client("my-client");
    let uri = UriBuf::new("https://auth.example.com/authorize").unwrap();
    let endpoint = AuthorizationEndpoint::new(&client, &uri);
    let base = PushedAuthorizationRequest {
        client_id: ClientId::new("my-client".to_owned()).unwrap(),
        request_uri: UriBuf::new("urn:example:x".to_owned().as_str()).unwrap(),
    };
    let state = State::new("st4te".to_owned()).unwrap();
    let verifier =
        PkceCodeVerifier::new("dBjftJeZ4CVP-mB92K27uhbUJU1p1r_wW1gFWFOEjXk".to_owned()).unwrap();
    let pkce = PkceCodeChallengeAndMethod::from_code_verifier_sha256(&verifier);

    let first = RequestBuilder::new(endpoint.clone(), base.clone())
        .with_state(Some(state.clone()))
        .with_pkce_challenge(pkce.clone())
        .into_redirect_uri();
    let second = RequestBuilder::new(endpoint, base)
        .with_pkce_challenge(pkce)
        .with_state(Some(state))
        .into_redirect_uri();

    let mut q1: Vec<&str> = first.query_str().unwrap().split('&').collect();
    let mut q2: Vec<&str> = second.query_str().unwrap().split('&').collect();
    assert_ne!(q1, q2);
    q1.sort();
    q2.sort();
    assert_eq!(q1, q2);
}

// Phase two of PAR: the redirect carries exactly the existing query, the
// client identifier and the request URI — none of the pushed parameters.
#[test]
fn par_redirect_carries_only_reference() {
    let client = test_client("my-client");
    let uri = UriBuf::new("https://auth.example.com/authorize?lang=en").unwrap();
    let endpoint = AuthorizationEndpoint::new(&client, &uri);
    let response = PushedAuthorizationResponse {
        request_uri: UriBuf::new("urn:x").unwrap(),
        expires_in: 60,
    };
    let redirect = response.for_endpoint(&endpoint);
    assert_eq!(
        redirect.to_text(),
        "https://auth.example.com/authorize?lang=en&client_id=my-client&request_uri=urn%3Ax"
    );
}

struct ParTransport;

impl HttpClient for ParTransport {
    fn send(&self, request: RawRequest) -> Result<ResponseParts, OAuth2ClientError> {
        assert_eq!(request.method, Method::Post);
        assert_eq!(request.uri, "https://auth.example.com/par");
        let body = String::from_utf8(request.body).unwrap();
        assert!(body.contains("client_id=my-client"));
        assert!(body.contains("state=st4te"));
        Ok(ResponseParts {
            status: 201,
            headers: vec![("content-type".to_owned(), "application/json".to_owned())],
            body: b"{\"request_uri\":\"urn:x\",\"expires_in\":60}".to_vec(),
        })
    }
}

// Phase one of PAR: the pushed request is POSTed form-encoded, success
// is strictly 201 with a JSON body.
#[test]
fn par_exchange_round_trip() {
    let client = test_client("my-client");
    let par_uri = UriBuf::new("https://auth.example.com/par").unwrap();
    let endpoint = PushedAuthorizationEndpoint::new(&client, &par_uri);
    let base = PushedAuthorizationRequest {
        client_id: ClientId::new("my-client".to_owned()).unwrap(),
        request_uri: UriBuf::new("urn:seed").unwrap(),
    };
    let state = State::new("st4te".to_owned()).unwrap();
    let response = RequestBuilder::new(endpoint.clone(), Pushed(base.clone()))
        .map(|_| Pushed(open_auth2::Stateful { state: Some(state), value: base }))
        .send(&ParTransport)
        .unwrap();
    assert_eq!(response.request_uri.to_text(), "urn:x");
    assert_eq!(response.expires_in, 60);
}

#[test]
fn par_exchange_rejects_non_created_status() {
    let client = test_client("my-client");
    let par_uri = UriBuf::new("https://auth.example.com/par").unwrap();
    let endpoint = PushedAuthorizationEndpoint::new(&client, &par_uri);
    let base = PushedAuthorizationRequest {
        client_id: ClientId::new("my-client".to_owned()).unwrap(),
        request_uri: UriBuf::new("urn:seed").unwrap(),
    };
    let transport = MockTransport {
        status: 200,
        content_type: "application/json",
        body: b"{\"request_uri\":\"urn:x\",\"expires_in\":60}",
    };
    let result = RequestBuilder::new(endpoint, Pushed(base)).send(&transport);
    assert_eq!(result.unwrap_err(), OAuth2ClientError::ServerError(200));
}

struct HeaderCheckingTransport;

impl HttpClient for HeaderCheckingTransport {
    fn send(&self, request: RawRequest) -> Result<ResponseParts, OAuth2ClientError> {
        let authorization = request
            .headers
            .iter()
            .find(|(name, _)| name == "authorization")
            .map(|(_, value)| value.clone());
        assert_eq!(authorization.as_deref(), Some("Bearer tok123"));
        // Header-carried extensions must not alter the body.
        let body = String::from_utf8(request.body).unwrap();
        assert_eq!(body, "grant_type=refresh_token&refresh_token=r1&client_id=my-client");
        Ok(ResponseParts {
            status: 200,
            headers: vec![("content-type".to_owned(), "application/json".to_owned())],
            body: b"{\"access_token\":\"next\",\"token_type\":\"Bearer\"}".to_vec(),
        })
    }
}

// A bearer token rides in the `authorization` header and leaves the
// request body untouched.
#[test]
fn access_token_rides_in_header_only() {
    let client = test_client("my-client");
    let uri = UriBuf::new("https://auth.example.com/token").unwrap();
    let token = AccessToken::new("tok123".to_owned()).unwrap();
    let token_type = "Bearer".to_owned();
    let request = RefreshTokenRequest::new(
        Some(ClientId::new("my-client".to_owned()).unwrap()),
        "r1".to_owned(),
        None,
    );
    let response = RequestBuilder::new(TokenEndpoint::new(&client, &uri), request)
        .with_access_token(&token_type, &token)
        .send(&HeaderCheckingTransport)
        .unwrap();
    assert_eq!(response.access_token.as_str(), "next");
}

// Authorization details ride as one JSON array in a single parameter;
// an empty collection contributes nothing.
#[test]
fn authorization_details_ride_as_one_parameter() {
    let client = test_client("my-client");
    let uri = UriBuf::new("https://auth.example.com/authorize").unwrap();
    let endpoint = AuthorizationEndpoint::new(&client, &uri);
    let base = PushedAuthorizationRequest {
        client_id: ClientId::new("my-client".to_owned()).unwrap(),
        request_uri: UriBuf::new("urn:x").unwrap(),
    };
    let details = AuthorizationDetails::from_objects(vec![
        RawAuthorizationDetail {
            kind_name: "account_information".to_owned(),
            json: "{\"type\":\"account_information\"}".to_owned(),
        },
    ]);
    let redirect = RequestBuilder::new(endpoint.clone(), base.clone())
        .with_authorization_details(&details)
        .into_redirect_uri();
    assert_eq!(
        redirect.query_str().unwrap(),
        "authorization_details=%5B%7B%22type%22%3A%22account_information%22%7D%5D\
         &client_id=my-client&request_uri=urn%3Ax"
    );
    let empty: AuthorizationDetails<RawAuthorizationDetail> =
        AuthorizationDetails::from_objects(vec![]);
    let plain = RequestBuilder::new(endpoint, base)
        .with_authorization_details(&empty)
        .into_redirect_uri();
    assert_eq!(plain.query_str().unwrap(), "client_id=my-client&request_uri=urn%3Ax");
}

// The redirect-building flow of the lead example: authorization URI with
// state and PKCE challenge.
#[test]
fn authorization_redirect_uri_carries_extensions() {
    let client = test_client("my-client");
    let uri = UriBuf::new("https://auth.example.com/authorize").unwrap();
    let endpoint = AuthorizationEndpoint::new(&client, &uri);
    let base = PushedAuthorizationRequest {
        client_id: ClientId::new("my-client".to_owned()).unwrap(),
        request_uri: UriBuf::new("urn:x").unwrap(),
    };
    let verifier =
        PkceCodeVerifier::new("dBjftJeZ4CVP-mB92K27uhbUJU1p1r_wW1gFWFOEjXk".to_owned()).unwrap();
    let pkce = PkceCodeChallengeAndMethod::from_code_verifier_sha256(&verifier);
    let state = State::new("st4te".to_owned()).unwrap();
    let redirect = RequestBuilder::new(endpoint, base)
        .with_state(Some(state))
        .with_pkce_challenge(pkce)
        .into_redirect_uri();
    assert_eq!(
        redirect.to_text(),
        "https://auth.example.com/authorize?\
         code_challenge=E9Melhoa2OwvFrEMTJguCHaoeK1t8URWbuGJSstw-cM\
         &code_challenge_method=S256&state=st4te&client_id=my-client&request_uri=urn%3Ax"
    );
}

// A parameterless redirect onto a URI without query text leaves the URI
// untouched — no dangling query separator.
#[test]
fn empty_redirect_leaves_uri_untouched() {
    let client = test_client("my-client");
    let uri = UriBuf::new("https://auth.example.com/authorize").unwrap();
    let endpoint = AuthorizationEndpoint::new(&client, &uri);
    let redirect = RequestBuilder::new(endpoint, NoExtension {}).into_redirect_uri();
    assert_eq!(redirect.to_text(), "https://auth.example.com/authorize");
    assert_eq!(redirect.query_str(), None);
}
