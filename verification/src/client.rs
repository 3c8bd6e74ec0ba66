//! OAuth 2.0 client trait and error types.

use vstd::prelude::*;

use crate::types::ClientIdBuf;

verus! {

/// An OAuth 2.0 client.
///
/// Implementors represent a registered OAuth 2.0 client with a unique
/// client identifier. Deserializing server-specific extension fields of
/// token responses is outside this library: the exchange pipeline
/// produces token responses without extension fields, and a caller that
/// expects extra fields decodes them from the raw response itself.
pub trait OAuth2Client {
    /// The client identifier's text.
    spec fn client_id_spec(&self) -> Seq<char>;

    /// Returns the client identifier.
    fn client_id(&self) -> (r: &ClientIdBuf)
        ensures
            r@ == self.client_id_spec(),
    ;
}

/// The simplest client is its identifier alone: a bare [`ClientIdBuf`]
/// can stand wherever a client is expected.
impl OAuth2Client for ClientIdBuf {
    open spec fn client_id_spec(&self) -> Seq<char> {
        self@
    }

    fn client_id(&self) -> (r: &ClientIdBuf) {
        self
    }
}

/// Errors that can occur during an OAuth 2.0 HTTP exchange.
///
/// The three variants distinguish "the request never reached the
/// server", "the server was reached but its response was unusable", and
/// "the server rejected the request with a status code", so callers can
/// apply different retry policies. This library itself never retries.
#[derive(Debug, Clone, PartialEq, Eq)]
pub enum OAuth2ClientError {
    /// The HTTP request could not be sent.
    Request(String),
    /// The HTTP response could not be received or parsed.
    Response(String),
    /// The server responded with an unexpected HTTP status code.
    ServerError(u16),
}

impl OAuth2ClientError {
    /// Creates a request error with the given message.
    pub fn request(msg: String) -> (r: Self)
        ensures
            r matches OAuth2ClientError::Request(m) && m@ == msg@,
    {
        OAuth2ClientError::Request(msg)
    }

    /// Creates a response error with the given message.
    pub fn response(msg: String) -> (r: Self)
        ensures
            r matches OAuth2ClientError::Response(m) && m@ == msg@,
    {
        OAuth2ClientError::Response(msg)
    }

    /// Creates a server error with the given status code.
    pub fn server(status: u16) -> (r: Self)
        ensures
            r == OAuth2ClientError::ServerError(status),
    {
        OAuth2ClientError::ServerError(status)
    }
}

} // verus!
