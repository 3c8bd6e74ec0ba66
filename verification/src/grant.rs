//! OAuth 2.0 grant type implementations.
//!
//! Each submodule implements a specific authorization grant type:
//!
//! - [`authorization_code`] — Authorization Code Grant (RFC 6749,
//!   section 4.1).
//! - [`pre_authorized_code`] — Pre-Authorized Code Grant (OpenID4VCI).
//! - [`refresh`] — Refresh Token Grant (RFC 6749, section 6).

pub mod authorization_code;
pub mod pre_authorized_code;
pub mod refresh;
