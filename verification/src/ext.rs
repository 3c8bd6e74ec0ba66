//! Protocol extensions: PKCE (RFC 7636) and Rich Authorization Requests
//! (RFC 9396).

pub mod pkce;
pub mod rar;
