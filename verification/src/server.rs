//! Server-side OAuth 2.0 response types.
//!
//! This library only supplies the handler-side message types and their
//! rules; wiring them to HTTP routes, and writing them out as JSON, is
//! the routing collaborator's job.

use vstd::prelude::*;

use crate::util::UriBuf;

pub mod metadata;

verus! {

/// An OAuth 2.0 error response.
///
/// This is the standard error format returned by the authorization
/// server when a request fails (RFC 6749, section 5.2).
pub struct ErrorResponse<T> {
    /// A single error code.
    pub error: T,
    /// Human-readable text providing additional information about the
    /// error.
    pub error_description: Option<String>,
    /// A URI identifying a human-readable web page with information
    /// about the error.
    pub error_uri: Option<UriBuf>,
}

impl<T> ErrorResponse<T> {
    /// Creates a new error response.
    pub fn new(error: T, error_description: Option<String>, error_uri: Option<UriBuf>) -> (r: Self)
        ensures
            r == (ErrorResponse { error, error_description, error_uri }),
    {
        ErrorResponse { error, error_description, error_uri }
    }
}

/// Result type holding either a success payload or an
/// [`ErrorResponse`]: what a server endpoint answers with.
pub enum ServerResult<T, E> {
    /// The request succeeded.
    Success(T),
    /// The server returned an error.
    Error(ErrorResponse<E>),
}

/// Error codes a token endpoint may answer with (RFC 6749,
/// section 5.2).
#[derive(Debug, Clone, Copy, PartialEq, Eq, Hash, Structural)]
pub enum ErrorCode {
    /// The request is malformed.
    InvalidRequest,
    /// Client authentication failed.
    InvalidClient,
    /// The grant or refresh token is invalid, expired or revoked.
    InvalidGrant,
    /// The client may not use this grant type.
    UnauthorizedClient,
    /// The grant type is not supported by the server.
    UnsupportedGrantType,
    /// The requested scope is invalid, unknown or malformed.
    InvalidScope,
}

/// The wire name of an error code.
pub open spec fn error_code_text(c: ErrorCode) -> Seq<char> {
    match c {
        ErrorCode::InvalidRequest => "invalid_request"@,
        ErrorCode::InvalidClient => "invalid_client"@,
        ErrorCode::InvalidGrant => "invalid_grant"@,
        ErrorCode::UnauthorizedClient => "unauthorized_client"@,
        ErrorCode::UnsupportedGrantType => "unsupported_grant_type"@,
        ErrorCode::InvalidScope => "invalid_scope"@,
    }
}

impl ErrorCode {
    /// Returns the wire name of this error code.
    pub fn as_error_str(&self) -> (r: &'static str)
        ensures
            r@ == error_code_text(*self),
    {
        match self {
            ErrorCode::InvalidRequest => "invalid_request",
            ErrorCode::InvalidClient => "invalid_client",
            ErrorCode::InvalidGrant => "invalid_grant",
            ErrorCode::UnauthorizedClient => "unauthorized_client",
            ErrorCode::UnsupportedGrantType => "unsupported_grant_type",
            ErrorCode::InvalidScope => "invalid_scope",
        }
    }
}

/// An error a server-side token handler can end in.
#[derive(Debug, Clone, Copy, PartialEq, Eq, Hash, Structural)]
pub enum OAuth2ServerError {
    /// The request is malformed.
    InvalidRequest,
    /// Client authentication failed.
    InvalidClient,
    /// The grant or refresh token is invalid, expired or revoked.
    InvalidGrant,
    /// The client may not use this grant type.
    UnauthorizedClient,
    /// The grant type is not supported by the server.
    UnsupportedGrantType,
    /// The requested scope is invalid, unknown or malformed.
    InvalidScope,
}

impl OAuth2ServerError {
    /// The error code this error is reported as, when one exists; an
    /// error without a code is reported as an internal server error.
    pub fn as_error_code(&self) -> (r: Option<ErrorCode>)
        ensures
            r == Some(
                match *self {
                    OAuth2ServerError::InvalidRequest => ErrorCode::InvalidRequest,
                    OAuth2ServerError::InvalidClient => ErrorCode::InvalidClient,
                    OAuth2ServerError::InvalidGrant => ErrorCode::InvalidGrant,
                    OAuth2ServerError::UnauthorizedClient => ErrorCode::UnauthorizedClient,
                    OAuth2ServerError::UnsupportedGrantType => ErrorCode::UnsupportedGrantType,
                    OAuth2ServerError::InvalidScope => ErrorCode::InvalidScope,
                },
            ),
    {
        match self {
            OAuth2ServerError::InvalidRequest => Some(ErrorCode::InvalidRequest),
            OAuth2ServerError::InvalidClient => Some(ErrorCode::InvalidClient),
            OAuth2ServerError::InvalidGrant => Some(ErrorCode::InvalidGrant),
            OAuth2ServerError::UnauthorizedClient => Some(ErrorCode::UnauthorizedClient),
            OAuth2ServerError::UnsupportedGrantType => Some(ErrorCode::UnsupportedGrantType),
            OAuth2ServerError::InvalidScope => Some(ErrorCode::InvalidScope),
        }
    }

    /// The HTTP status this error is reported with: 400 when it has an
    /// error code, 500 otherwise.
    pub fn status_code(&self) -> (r: u16)
        ensures
            r == 400,
    {
        match self.as_error_code() {
            Some(_) => 400,
            None => 500,
        }
    }
}

} // verus!
