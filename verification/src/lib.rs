//! Building blocks for OAuth 2.0 clients and a thin server-side message
//! layer, with machine-checked contracts.
//!
//! The crate covers the message layer of the OAuth 2.0 Authorization
//! Framework (RFC 6749) together with its common extensions:
//!
//! - Proof Key for Code Exchange (PKCE, RFC 7636),
//! - Pushed Authorization Requests (PAR, RFC 9126),
//! - Rich Authorization Requests (RAR, RFC 9396),
//! - the pre-authorized code grant (OpenID4VCI).
//!
//! Requests are composed out of independent pieces: a base grant payload
//! plus zero or more extension wrappers (CSRF state, PKCE, authorization
//! details, bearer-token injection). Every wrapper carries a contract
//! saying exactly which parameters it contributes, so an extension can
//! never be silently dropped. Protocol string types (`AccessToken`,
//! `ClientId`, `Code`, `Scope`, `State`, the PKCE verifier and challenge)
//! are validated against their RFC grammars at construction, and the
//! validators are proved to decide exactly those grammars.
//!
//! HTTP itself is a collaborator: requests and responses are plain data
//! (method, URI, headers, status, bytes), and sending is delegated to an
//! implementation of an `HttpClient` trait.

pub mod client;
pub mod codec;
pub mod endpoints;
pub mod ext;
pub mod grant;
pub mod server;
pub mod transport;
mod types;
pub mod util;

pub use types::{AccessToken, AccessTokenBuf, AddAccessToken, AddState, ClientId, ClientIdBuf,
    Code, CodeBuf, GrammarError, IntoScope, Scope, ScopeBuf, ScopeToken, ScopeTokenBuf, State,
    StateBuf, Stateful, WithAccessToken, access_token_bytes_grammar, access_token_grammar,
    authorization_header_text, bytes_eq, client_id_grammar, code_bytes_grammar, code_grammar,
    insert_token_seq, insert_token_seqs, join_token_views, lemma_ascii_concat,
    lemma_ascii_text_bytes, lemma_sub_bytes, lemma_text_bytes_concat, lemma_text_bytes_injective,
    nqchar_bytes, scope_byte_ok, scope_bytes_grammar, scope_grammar, scope_token_bytes_grammar,
    scope_token_grammar, scope_token_seqs, spec_nqchar, spec_vschar, state_bytes_grammar,
    state_grammar, state_params, str_eq, text_bytes, token_bytes_seq, vschar_bytes};
