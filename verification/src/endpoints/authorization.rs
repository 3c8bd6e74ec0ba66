//! OAuth 2.0 authorization endpoint (RFC 6749, section 3.1).

use vstd::prelude::*;

use crate::client::OAuth2Client;
use crate::endpoints::Endpoint;
use crate::util::{UriBuf, UriPartsView};

verus! {

/// The OAuth 2.0 authorization endpoint.
///
/// Requests to this endpoint are redirects: their parameters are
/// serialized onto the endpoint URI's query string, and no network call
/// is made by this library.
pub struct AuthorizationEndpoint<'a, C> {
    /// The OAuth 2.0 client.
    pub client: &'a C,
    /// The authorization endpoint URI.
    pub uri: &'a UriBuf,
}

impl<'a, C> Clone for AuthorizationEndpoint<'a, C> {
    fn clone(&self) -> (r: Self)
        ensures
            r == *self,
    {
        AuthorizationEndpoint { client: self.client, uri: self.uri }
    }
}

impl<'a, C> AuthorizationEndpoint<'a, C> {
    /// Creates a new authorization endpoint for the given client and
    /// URI.
    pub fn new(client: &'a C, uri: &'a UriBuf) -> (r: Self)
        ensures
            r == (AuthorizationEndpoint { client, uri }),
    {
        AuthorizationEndpoint { client, uri }
    }
}

impl<'a, C> Endpoint for AuthorizationEndpoint<'a, C> where C: OAuth2Client {
    type Client = C;

    open spec fn uri_spec(&self) -> UriPartsView {
        self.uri.parts()
    }

    fn client(&self) -> &Self::Client {
        self.client
    }

    fn uri(&self) -> (r: &UriBuf) {
        self.uri
    }
}

/// Error codes an authorization endpoint may redirect back with
/// (RFC 6749, section 4.1.2.1).
#[derive(Debug, Clone, Copy, PartialEq, Eq, Hash, Structural)]
pub enum AuthorizationErrorCode {
    /// The request is missing a required parameter, includes an invalid
    /// parameter value, includes a parameter more than once, or is
    /// otherwise malformed.
    InvalidRequest,
    /// The client is not authorized to request an authorization code
    /// using this method.
    UnauthorizedClient,
    /// The resource owner or authorization server denied the request.
    AccessDenied,
    /// The authorization server does not support obtaining an
    /// authorization code using this method.
    UnsupportedResponseType,
    /// The requested scope is invalid, unknown, or malformed.
    InvalidScope,
    /// The authorization server encountered an unexpected condition that
    /// prevented it from fulfilling the request.
    ServerError,
    /// The authorization server is currently unable to handle the
    /// request due to a temporary overloading or maintenance of the
    /// server.
    TemporarilyUnavailable,
}

} // verus!
