//! Proof Key for Code Exchange by OAuth public clients (RFC 7636).
//!
//! A PKCE code verifier is 32 to 96 random bytes, base64url-encoded
//! without padding, which yields 43 to 128 characters of the shared
//! verifier/challenge grammar. The challenge is derived from the
//! verifier by a pure transformation: the `plain` method keeps the
//! verifier's text, the `S256` method base64url-encodes the SHA-256
//! digest of the verifier's bytes. The derivation's contract pins the
//! challenge down exactly, so deriving twice from the same verifier
//! gives the same challenge, and every derived challenge satisfies the
//! challenge grammar by construction.

use vstd::prelude::*;
use vstd::seq_lib::lemma_multiset_commutative;
use vstd::string::StringExecFns;

use crate::client::OAuth2ClientError;
use crate::codec::{b64url_byte, b64url_encode, b64url_nopad_of, lemma_b64url_text_bytes,
    random_bytes, sha256_digest, sha256_of};
use crate::endpoints::{HttpRequest, RedirectRequest, RequestBuilder, byte_pairs_view};
use crate::transport::{BodyEncoding, Method, RequestParts, ResponseParts};
use crate::types::{GrammarError, Stateful, state_params, text_bytes};

verus! {

/// An unreserved byte (RFC 3986): a letter, a digit, `-`, `.`, `_` or
/// `~`.
pub open spec fn unreserved_byte(c: u8) -> bool {
    (0x41 <= c <= 0x5a) || (0x61 <= c <= 0x7a) || (0x30 <= c <= 0x39) || c == 0x2d || c == 0x2e
        || c == 0x5f || c == 0x7e
}

/// The shared grammar of PKCE code verifiers and challenges over bytes:
/// 43 to 128 unreserved bytes.
pub open spec fn pkce_bytes_grammar(b: Seq<u8>) -> bool {
    43 <= b.len() <= 128 && forall|i: int| 0 <= i < b.len() ==> unreserved_byte(#[trigger] b[i])
}

/// The shared grammar of PKCE code verifiers and challenges: ASCII text
/// of 43 to 128 unreserved characters.
pub open spec fn pkce_grammar(s: Seq<char>) -> bool {
    vstd::utf8::is_ascii_chars(s) && pkce_bytes_grammar(text_bytes(s))
}

/// Validates the shared verifier/challenge grammar on bytes.
pub fn validate_verifier_or_challenge(bytes: &[u8]) -> (r: bool)
    ensures
        r == pkce_bytes_grammar(bytes@),
{
    if bytes.len() < 43 || bytes.len() > 128 {
        return false;
    }
    let mut i: usize = 0;
    while i < bytes.len()
        invariant
            i <= bytes@.len(),
            forall|j: int| 0 <= j < i ==> unreserved_byte(#[trigger] bytes@[j]),
        decreases bytes@.len() - i,
    {
        let c = bytes[i];
        let ok = (c >= 0x41 && c <= 0x5a) || (c >= 0x61 && c <= 0x7a) || (c >= 0x30 && c <= 0x39)
            || c == 0x2d || c == 0x2e || c == 0x5f || c == 0x7e;
        if !ok {
            return false;
        }
        i += 1;
    }
    true
}

/// A PKCE code verifier (RFC 7636, section 4.1).
///
/// Every value of this type satisfies [`pkce_grammar`].
#[derive(Debug, PartialEq, Eq, Hash)]
pub struct PkceCodeVerifier {
    text: String,
}

/// Owned PKCE code verifier; the same type under the name used for owned
/// values.
pub type PkceCodeVerifierBuf = PkceCodeVerifier;

impl Clone for PkceCodeVerifier {
    fn clone(&self) -> (r: Self)
        ensures
            r@ == self@,
    {
        proof {
            use_type_invariant(self);
        }
        PkceCodeVerifier { text: self.text.clone() }
    }
}

impl View for PkceCodeVerifier {
    type V = Seq<char>;

    closed spec fn view(&self) -> Seq<char> {
        self.text@
    }
}

impl PkceCodeVerifier {
    #[verifier::type_invariant]
    spec fn inv(self) -> bool {
        pkce_grammar(self@)
    }

    /// Validates that the given string is a well-formed PKCE code
    /// verifier.
    pub fn validate_str(s: &str) -> (r: bool)
        ensures
            r == pkce_grammar(s@),
    {
        validate_verifier_or_challenge(s.as_bytes()) && s.is_ascii()
    }

    /// Validates that the given byte slice is a well-formed PKCE code
    /// verifier.
    pub fn validate_bytes(bytes: &[u8]) -> (r: bool)
        ensures
            r == pkce_bytes_grammar(bytes@),
    {
        validate_verifier_or_challenge(bytes)
    }

    /// Builds a PKCE code verifier, checking the grammar.
    pub fn new(s: String) -> (r: Result<Self, GrammarError>)
        ensures
            r is Ok <==> pkce_grammar(s@),
            r matches Ok(t) ==> t@ == s@,
    {
        if Self::validate_str(s.as_str()) {
            Ok(PkceCodeVerifier { text: s })
        } else {
            Err(GrammarError)
        }
    }

    /// Generate a new random, base64url-encoded PKCE code verifier from
    /// `len` random bytes.
    ///
    /// The number of random bytes must lie between 32 and 96 inclusive,
    /// so that the encoded verifier has between 43 and 128 characters as
    /// RFC 7636 demands.
    pub fn new_random_len(len: u32) -> (r: PkceCodeVerifier)
        requires
            32 <= len <= 96,
        ensures
            r@.len() == (4 * len + 2) / 3,
            forall|i: int| 0 <= i < r@.len() ==> crate::codec::b64url_char(#[trigger] r@[i]),
    {
        let raw = random_bytes(len as usize);
        let encoded = b64url_encode(raw.as_slice());
        proof {
            lemma_b64url_unreserved(encoded@);
        }
        PkceCodeVerifier { text: encoded }
    }

    /// Returns the verifier text.
    pub fn as_str(&self) -> (r: &str)
        ensures
            r@ == self@,
            pkce_grammar(self@),
    {
        proof {
            use_type_invariant(self);
        }
        self.text.as_str()
    }
}

/// A PKCE code challenge (RFC 7636, section 4.2).
///
/// Every value of this type satisfies [`pkce_grammar`], the grammar it
/// shares with [`PkceCodeVerifier`].
#[derive(Debug, PartialEq, Eq, Hash)]
pub struct PkceCodeChallenge {
    text: String,
}

/// Owned PKCE code challenge; the same type under the name used for
/// owned values.
pub type PkceCodeChallengeBuf = PkceCodeChallenge;

impl Clone for PkceCodeChallenge {
    fn clone(&self) -> (r: Self)
        ensures
            r@ == self@,
    {
        proof {
            use_type_invariant(self);
        }
        PkceCodeChallenge { text: self.text.clone() }
    }
}

impl View for PkceCodeChallenge {
    type V = Seq<char>;

    closed spec fn view(&self) -> Seq<char> {
        self.text@
    }
}

impl PkceCodeChallenge {
    #[verifier::type_invariant]
    spec fn inv(self) -> bool {
        pkce_grammar(self@)
    }

    /// Validates that the given string is a well-formed PKCE code
    /// challenge.
    pub fn validate_str(s: &str) -> (r: bool)
        ensures
            r == pkce_grammar(s@),
    {
        validate_verifier_or_challenge(s.as_bytes()) && s.is_ascii()
    }

    /// Validates that the given byte slice is a well-formed PKCE code
    /// challenge.
    pub fn validate_bytes(bytes: &[u8]) -> (r: bool)
        ensures
            r == pkce_bytes_grammar(bytes@),
    {
        validate_verifier_or_challenge(bytes)
    }

    /// Builds a PKCE code challenge, checking the grammar.
    pub fn new(s: String) -> (r: Result<Self, GrammarError>)
        ensures
            r is Ok <==> pkce_grammar(s@),
            r matches Ok(t) ==> t@ == s@,
    {
        if Self::validate_str(s.as_str()) {
            Ok(PkceCodeChallenge { text: s })
        } else {
            Err(GrammarError)
        }
    }

    /// Reinterprets a code verifier as a code challenge, without
    /// re-validating: the two types share one grammar.
    pub fn from_verifier(value: &PkceCodeVerifier) -> (r: PkceCodeChallenge)
        ensures
            r@ == value@,
    {
        proof {
            use_type_invariant(value);
        }
        PkceCodeChallenge { text: value.as_str().to_owned() }
    }

    /// Returns the challenge text.
    pub fn as_str(&self) -> (r: &str)
        ensures
            r@ == self@,
            pkce_grammar(self@),
    {
        proof {
            use_type_invariant(self);
        }
        self.text.as_str()
    }
}

/// ASCII text over the URL-safe base64 alphabet has unreserved bytes,
/// one per character.
proof fn lemma_b64url_unreserved(s: Seq<char>)
    requires
        vstd::utf8::is_ascii_chars(s),
        forall|i: int| 0 <= i < s.len() ==> crate::codec::b64url_char(#[trigger] s[i]),
    ensures
        text_bytes(s).len() == s.len(),
        forall|i: int| 0 <= i < text_bytes(s).len() ==> unreserved_byte(
            #[trigger] text_bytes(s)[i],
        ),
{
    lemma_b64url_text_bytes(s);
    assert forall|i: int| 0 <= i < text_bytes(s).len() implies unreserved_byte(
        #[trigger] text_bytes(s)[i],
    ) by {
        assert(b64url_byte(text_bytes(s)[i]));
    }
}

/// Error returned when parsing an invalid PKCE code challenge method
/// string.
#[derive(Debug, Clone, Copy, PartialEq, Eq, Structural)]
pub struct InvalidPkceCodeChallengeMethod;

/// String representation of the `plain` code challenge method.
pub const PKCE_CODE_CHALLENGE_METHOD_PLAIN: &'static str = "plain";

/// String representation of the `S256` code challenge method.
pub const PKCE_CODE_CHALLENGE_METHOD_S256: &'static str = "S256";

/// PKCE code challenge method (RFC 7636, section 4.2).
#[derive(Debug, Clone, Copy, PartialEq, Eq, Hash, Structural)]
pub enum PkceCodeChallengeMethod {
    /// The code challenge is the plain code verifier (not recommended).
    Plain,
    /// The code challenge is the base64url-encoded SHA-256 hash of the
    /// code verifier.
    S256,
}

/// The wire name of a challenge method.
pub open spec fn method_text(m: PkceCodeChallengeMethod) -> Seq<char> {
    match m {
        PkceCodeChallengeMethod::Plain => "plain"@,
        PkceCodeChallengeMethod::S256 => "S256"@,
    }
}

impl PkceCodeChallengeMethod {
    /// Transforms a code verifier into a code challenge using this
    /// method.
    ///
    /// The result is a pure function of the verifier and the method:
    /// `Plain` keeps the verifier's text, `S256` base64url-encodes the
    /// SHA-256 digest of the verifier's bytes. Either way the result
    /// satisfies the challenge grammar, being a value of
    /// [`PkceCodeChallenge`].
    pub fn transform(&self, code_verifier: &PkceCodeVerifier) -> (r: PkceCodeChallengeBuf)
        ensures
            *self is Plain ==> r@ == code_verifier@,
            *self is S256 ==> r@ == b64url_nopad_of(sha256_of(text_bytes(code_verifier@)))
                && (forall|i: int|
                0 <= i < r@.len() ==> crate::codec::b64url_char(#[trigger] r@[i])),
    {
        match self {
            PkceCodeChallengeMethod::Plain => PkceCodeChallenge::from_verifier(code_verifier),
            PkceCodeChallengeMethod::S256 => {
                let digest = sha256_digest(code_verifier.as_str().as_bytes());
                let encoded = b64url_encode(digest.as_slice());
                proof {
                    lemma_b64url_unreserved(encoded@);
                }
                PkceCodeChallenge { text: encoded }
            },
        }
    }

    /// Returns the string representation of this method.
    pub fn as_str(&self) -> (r: &'static str)
        ensures
            r@ == method_text(*self),
    {
        match self {
            PkceCodeChallengeMethod::Plain => PKCE_CODE_CHALLENGE_METHOD_PLAIN,
            PkceCodeChallengeMethod::S256 => PKCE_CODE_CHALLENGE_METHOD_S256,
        }
    }
}

impl PkceCodeChallengeMethod {
    /// Parses a challenge method from its wire name: exactly `plain` and
    /// `S256` are accepted, and parsing inverts [`Self::as_str`].
    pub fn parse_method(s: &str) -> (r: Result<Self, InvalidPkceCodeChallengeMethod>)
        ensures
            r == (if s@ == method_text(PkceCodeChallengeMethod::Plain) {
                Ok::<Self, InvalidPkceCodeChallengeMethod>(PkceCodeChallengeMethod::Plain)
            } else if s@ == method_text(PkceCodeChallengeMethod::S256) {
                Ok::<Self, InvalidPkceCodeChallengeMethod>(PkceCodeChallengeMethod::S256)
            } else {
                Err::<Self, InvalidPkceCodeChallengeMethod>(InvalidPkceCodeChallengeMethod)
            }),
    {
        if crate::types::str_eq(s, PKCE_CODE_CHALLENGE_METHOD_PLAIN) {
            Ok(PkceCodeChallengeMethod::Plain)
        } else if crate::types::str_eq(s, PKCE_CODE_CHALLENGE_METHOD_S256) {
            Ok(PkceCodeChallengeMethod::S256)
        } else {
            Err(InvalidPkceCodeChallengeMethod)
        }
    }
}

/// Parsing a method's own wire name gives the method back:
/// `parse_method` inverts `as_str`. Stated over the texts, as
/// `parse_method`'s contract decides on them: a method's text equals
/// `plain`'s exactly for `Plain`, and `S256`'s exactly for `S256`.
pub proof fn lemma_method_parse_round_trip(m: PkceCodeChallengeMethod)
    ensures
        method_text(m) == method_text(PkceCodeChallengeMethod::Plain) <==> m
            is Plain,
        method_text(m) == method_text(PkceCodeChallengeMethod::S256) <==> m is S256,
{
    reveal_strlit("plain");
    reveal_strlit("S256");
    assert(method_text(PkceCodeChallengeMethod::Plain).len() == 5);
    assert(method_text(PkceCodeChallengeMethod::S256).len() == 4);
}

impl core::str::FromStr for PkceCodeChallengeMethod {
    type Err = InvalidPkceCodeChallengeMethod;

    fn from_str(s: &str) -> Result<Self, Self::Err> {
        PkceCodeChallengeMethod::parse_method(s)
    }
}

/// A PKCE code challenge together with the method that produced it, as
/// sent in the `code_challenge` and `code_challenge_method` parameters.
#[derive(Debug, PartialEq, Eq, Hash)]
pub struct PkceCodeChallengeAndMethod {
    /// The code challenge.
    pub challenge: PkceCodeChallengeBuf,
    /// The challenge method.
    pub method: PkceCodeChallengeMethod,
}

impl Clone for PkceCodeChallengeAndMethod {
    fn clone(&self) -> (r: Self)
        ensures
            r.challenge@ == self.challenge@,
            r.method == self.method,
    {
        PkceCodeChallengeAndMethod { challenge: self.challenge.clone(), method: self.method }
    }
}

impl PkceCodeChallengeAndMethod {
    /// Creates a challenge from the given verifier and method.
    pub fn from_code_verifier(
        code_verifier: &PkceCodeVerifier,
        method: PkceCodeChallengeMethod,
    ) -> (r: Self)
        ensures
            r.method == method,
            method is Plain ==> r.challenge@ == code_verifier@,
            method is S256 ==> r.challenge@ == b64url_nopad_of(
                sha256_of(text_bytes(code_verifier@)),
            ),
    {
        PkceCodeChallengeAndMethod { challenge: method.transform(code_verifier), method }
    }

    /// Generates a random verifier of 32 bytes and its SHA-256
    /// challenge.
    pub fn new_random_sha256() -> (r: (Self, PkceCodeVerifierBuf))
        ensures
            r.0.method is S256,
            r.0.challenge@ == b64url_nopad_of(sha256_of(text_bytes(r.1@))),
            r.1@.len() == 43,
            forall|i: int| 0 <= i < r.1@.len() ==> crate::codec::b64url_char(#[trigger] r.1@[i]),
    {
        Self::new_random_sha256_len(32)
    }

    /// Generates a random verifier from `len` random bytes and its
    /// SHA-256 challenge.
    ///
    /// The number of random bytes must lie between 32 and 96 inclusive,
    /// so that the verifier has a length RFC 7636 allows.
    pub fn new_random_sha256_len(len: u32) -> (r: (Self, PkceCodeVerifierBuf))
        requires
            32 <= len <= 96,
        ensures
            r.0.method is S256,
            r.0.challenge@ == b64url_nopad_of(sha256_of(text_bytes(r.1@))),
            r.1@.len() == (4 * len + 2) / 3,
            forall|i: int| 0 <= i < r.1@.len() ==> crate::codec::b64url_char(#[trigger] r.1@[i]),
    {
        let code_verifier = PkceCodeVerifier::new_random_len(len);
        let challenge = Self::from_code_verifier_sha256(&code_verifier);
        (challenge, code_verifier)
    }

    /// Creates a SHA-256 challenge from the supplied code verifier.
    pub fn from_code_verifier_sha256(code_verifier: &PkceCodeVerifier) -> (r: Self)
        ensures
            r.method is S256,
            r.challenge@ == b64url_nopad_of(sha256_of(text_bytes(code_verifier@))),
    {
        Self::from_code_verifier(code_verifier, PkceCodeChallengeMethod::S256)
    }

    /// Returns the challenge text.
    pub fn as_str(&self) -> (r: &str)
        ensures
            r@ == self.challenge@,
            pkce_grammar(self.challenge@),
    {
        self.challenge.as_str()
    }

    /// Returns the challenge method.
    pub fn method(&self) -> (r: &PkceCodeChallengeMethod)
        ensures
            *r == self.method,
    {
        &self.method
    }
}

/// The `code_challenge` and `code_challenge_method` parameters a
/// challenge contributes.
pub open spec fn pkce_challenge_params(pkce: PkceCodeChallengeAndMethod) -> Seq<
    (Seq<u8>, Seq<u8>),
> {
    seq![
        (text_bytes("code_challenge"@), text_bytes(pkce.challenge@)),
        (text_bytes("code_challenge_method"@), text_bytes(method_text(pkce.method))),
    ]
}

/// The `code_verifier` parameter a verifier contributes.
pub open spec fn pkce_verifier_params(verifier: Seq<char>) -> Seq<(Seq<u8>, Seq<u8>)> {
    seq![(text_bytes("code_verifier"@), text_bytes(verifier))]
}

/// Extension wrapper that attaches a PKCE code challenge and method to a
/// request.
///
/// Used during the authorization phase to send the `code_challenge` and
/// `code_challenge_method` parameters.
pub struct WithPkceChallenge<T> {
    /// The PKCE code challenge and method.
    pub pkce: PkceCodeChallengeAndMethod,
    /// The inner request being extended.
    pub value: T,
}

impl<T> WithPkceChallenge<T> {
    /// Creates a new [`WithPkceChallenge`] wrapping the given request.
    pub fn new(value: T, pkce: PkceCodeChallengeAndMethod) -> (r: Self)
        ensures
            r == (WithPkceChallenge { pkce, value }),
    {
        WithPkceChallenge { pkce, value }
    }

    /// Builds this wrapper's own parameters.
    fn own_params(&self) -> (r: Vec<(String, String)>)
        ensures
            byte_pairs_view(r@) == pkce_challenge_params(self.pkce),
    {
        let mut params: Vec<(String, String)> = Vec::new();
        params.push((String::from_str("code_challenge"), self.pkce.challenge.as_str().to_owned()));
        params.push(
            (String::from_str("code_challenge_method"), self.pkce.method.as_str().to_owned()),
        );
        proof {
            assert(byte_pairs_view(params@) =~= pkce_challenge_params(self.pkce));
        }
        params
    }
}

impl<T> RedirectRequest for WithPkceChallenge<T> where T: RedirectRequest {
    open spec fn query_spec(&self) -> Seq<(Seq<u8>, Seq<u8>)> {
        pkce_challenge_params(self.pkce) + self.value.query_spec()
    }

    fn build_query(&self) -> (r: Vec<(String, String)>) {
        let mut params = self.own_params();
        let mut inner = self.value.build_query();
        let ghost own_view: Seq<(String, String)> = params@;
        let ghost inner_view: Seq<(String, String)> = inner@;
        params.append(&mut inner);
        proof {
            assert(byte_pairs_view(own_view + inner_view) =~= byte_pairs_view(own_view)
                + byte_pairs_view(inner_view));
        }
        params
    }
}

impl<E, T> HttpRequest<E> for WithPkceChallenge<T> where T: HttpRequest<E> {
    type Payload = T::Payload;

    type Response = T::Response;

    open spec fn req_ok(&self, endpoint: &E) -> bool {
        self.value.req_ok(endpoint)
    }

    open spec fn req_method(&self, endpoint: &E) -> Method {
        self.value.req_method(endpoint)
    }

    open spec fn req_uri_bytes(&self, endpoint: &E) -> Seq<u8> {
        self.value.req_uri_bytes(endpoint)
    }

    open spec fn req_content_type(&self, endpoint: &E) -> BodyEncoding {
        self.value.req_content_type(endpoint)
    }

    open spec fn req_params(&self, endpoint: &E) -> Seq<(Seq<u8>, Seq<u8>)> {
        pkce_challenge_params(self.pkce) + self.value.req_params(endpoint)
    }

    open spec fn req_headers(&self, endpoint: &E) -> Seq<(Seq<u8>, Seq<u8>)> {
        self.value.req_headers(endpoint)
    }

    open spec fn expected_status(&self, endpoint: &E) -> u16 {
        self.value.expected_status(endpoint)
    }

    open spec fn decode_ok(&self, endpoint: &E, response: &ResponseParts) -> bool {
        self.value.decode_ok(endpoint, response)
    }

    open spec fn decode_post(
        &self,
        endpoint: &E,
        response: &ResponseParts,
        payload: &T::Payload,
    ) -> bool {
        self.value.decode_post(endpoint, response, payload)
    }

    open spec fn process_spec(&self, endpoint: &E, payload: T::Payload) -> Result<
        T::Response,
        OAuth2ClientError,
    > {
        self.value.process_spec(endpoint, payload)
    }

    fn build_request(&self, endpoint: &E) -> (r: Result<RequestParts, OAuth2ClientError>) {
        let inner = match self.value.build_request(endpoint) {
            Ok(req) => req,
            Err(e) => {
                return Err(e);
            },
        };
        let mut params = self.own_params();
        let mut inner_params = inner.params;
        let ghost own_view: Seq<(String, String)> = params@;
        let ghost inner_view: Seq<(String, String)> = inner_params@;
        params.append(&mut inner_params);
        proof {
            assert(byte_pairs_view(own_view + inner_view) =~= byte_pairs_view(own_view)
                + byte_pairs_view(inner_view));
        }
        Ok(
            RequestParts {
                method: inner.method,
                uri: inner.uri,
                headers: inner.headers,
                content_type: inner.content_type,
                params,
            },
        )
    }

    fn decode_response(&self, endpoint: &E, response: &ResponseParts) -> (r: Result<
        T::Payload,
        OAuth2ClientError,
    >) {
        self.value.decode_response(endpoint, response)
    }

    fn process_response(&self, endpoint: &E, payload: T::Payload) -> (r: Result<
        T::Response,
        OAuth2ClientError,
    >) {
        self.value.process_response(endpoint, payload)
    }
}

/// Extension trait for attaching a PKCE code challenge to a
/// [`RequestBuilder`].
pub trait AddPkceChallenge: Sized {
    /// The resulting type after adding the PKCE challenge.
    type Output;

    /// What wrapping with a PKCE challenge yields.
    spec fn with_pkce_challenge_spec(self, pkce: PkceCodeChallengeAndMethod) -> Self::Output;

    /// Wraps the current request with PKCE challenge parameters.
    fn with_pkce_challenge(self, pkce: PkceCodeChallengeAndMethod) -> (r: Self::Output)
        ensures
            r == self.with_pkce_challenge_spec(pkce),
    ;
}

impl<E, T> AddPkceChallenge for RequestBuilder<E, T> {
    type Output = RequestBuilder<E, WithPkceChallenge<T>>;

    open spec fn with_pkce_challenge_spec(self, pkce: PkceCodeChallengeAndMethod) -> Self::Output {
        RequestBuilder {
            endpoint: self.endpoint,
            request: WithPkceChallenge { pkce, value: self.request },
        }
    }

    fn with_pkce_challenge(self, pkce: PkceCodeChallengeAndMethod) -> (r: Self::Output) {
        let ghost before = self;
        let f = |value: T| -> (w: WithPkceChallenge<T>)
            ensures
                w.pkce == pkce && w.value == value,
            {
                WithPkceChallenge::new(value, pkce)
            };
        let r = self.map(f);
        proof {
            assert(r == before.with_pkce_challenge_spec(pkce));
        }
        r
    }
}

/// Extension wrapper that attaches a PKCE code verifier to a token
/// request.
///
/// Used during the token exchange phase to send the `code_verifier`
/// parameter, proving possession of the original challenge.
pub struct WithPkceVerifier<'a, T> {
    /// The PKCE code verifier.
    pub code_verifier: &'a PkceCodeVerifier,
    /// The inner request being extended.
    pub value: T,
}

impl<'a, T> WithPkceVerifier<'a, T> {
    /// Creates a new [`WithPkceVerifier`] wrapping the given request.
    pub fn new(value: T, code_verifier: &'a PkceCodeVerifier) -> (r: Self)
        ensures
            r == (WithPkceVerifier { code_verifier, value }),
    {
        WithPkceVerifier { code_verifier, value }
    }

    /// Builds this wrapper's own parameters.
    fn own_params(&self) -> (r: Vec<(String, String)>)
        ensures
            byte_pairs_view(r@) == pkce_verifier_params(self.code_verifier@),
    {
        let mut params: Vec<(String, String)> = Vec::new();
        params.push((String::from_str("code_verifier"), self.code_verifier.as_str().to_owned()));
        proof {
            assert(byte_pairs_view(params@) =~= pkce_verifier_params(self.code_verifier@));
        }
        params
    }
}

impl<'a, T> RedirectRequest for WithPkceVerifier<'a, T> where T: RedirectRequest {
    open spec fn query_spec(&self) -> Seq<(Seq<u8>, Seq<u8>)> {
        pkce_verifier_params(self.code_verifier@) + self.value.query_spec()
    }

    fn build_query(&self) -> (r: Vec<(String, String)>) {
        let mut params = self.own_params();
        let mut inner = self.value.build_query();
        let ghost own_view: Seq<(String, String)> = params@;
        let ghost inner_view: Seq<(String, String)> = inner@;
        params.append(&mut inner);
        proof {
            assert(byte_pairs_view(own_view + inner_view) =~= byte_pairs_view(own_view)
                + byte_pairs_view(inner_view));
        }
        params
    }
}

impl<'a, T, E> HttpRequest<E> for WithPkceVerifier<'a, T> where T: HttpRequest<E> {
    type Payload = T::Payload;

    type Response = T::Response;

    open spec fn req_ok(&self, endpoint: &E) -> bool {
        self.value.req_ok(endpoint)
    }

    open spec fn req_method(&self, endpoint: &E) -> Method {
        self.value.req_method(endpoint)
    }

    open spec fn req_uri_bytes(&self, endpoint: &E) -> Seq<u8> {
        self.value.req_uri_bytes(endpoint)
    }

    open spec fn req_content_type(&self, endpoint: &E) -> BodyEncoding {
        self.value.req_content_type(endpoint)
    }

    open spec fn req_params(&self, endpoint: &E) -> Seq<(Seq<u8>, Seq<u8>)> {
        pkce_verifier_params(self.code_verifier@) + self.value.req_params(endpoint)
    }

    open spec fn req_headers(&self, endpoint: &E) -> Seq<(Seq<u8>, Seq<u8>)> {
        self.value.req_headers(endpoint)
    }

    open spec fn expected_status(&self, endpoint: &E) -> u16 {
        self.value.expected_status(endpoint)
    }

    open spec fn decode_ok(&self, endpoint: &E, response: &ResponseParts) -> bool {
        self.value.decode_ok(endpoint, response)
    }

    open spec fn decode_post(
        &self,
        endpoint: &E,
        response: &ResponseParts,
        payload: &T::Payload,
    ) -> bool {
        self.value.decode_post(endpoint, response, payload)
    }

    open spec fn process_spec(&self, endpoint: &E, payload: T::Payload) -> Result<
        T::Response,
        OAuth2ClientError,
    > {
        self.value.process_spec(endpoint, payload)
    }

    fn build_request(&self, endpoint: &E) -> (r: Result<RequestParts, OAuth2ClientError>) {
        let inner = match self.value.build_request(endpoint) {
            Ok(req) => req,
            Err(e) => {
                return Err(e);
            },
        };
        let mut params = self.own_params();
        let mut inner_params = inner.params;
        let ghost own_view: Seq<(String, String)> = params@;
        let ghost inner_view: Seq<(String, String)> = inner_params@;
        params.append(&mut inner_params);
        proof {
            assert(byte_pairs_view(own_view + inner_view) =~= byte_pairs_view(own_view)
                + byte_pairs_view(inner_view));
        }
        Ok(
            RequestParts {
                method: inner.method,
                uri: inner.uri,
                headers: inner.headers,
                content_type: inner.content_type,
                params,
            },
        )
    }

    fn decode_response(&self, endpoint: &E, response: &ResponseParts) -> (r: Result<
        T::Payload,
        OAuth2ClientError,
    >) {
        self.value.decode_response(endpoint, response)
    }

    fn process_response(&self, endpoint: &E, payload: T::Payload) -> (r: Result<
        T::Response,
        OAuth2ClientError,
    >) {
        self.value.process_response(endpoint, payload)
    }
}

/// Extension trait for attaching a PKCE code verifier to a
/// [`RequestBuilder`].
pub trait AddPkceVerifier<'a>: Sized {
    /// The resulting type after adding the PKCE verifier.
    type Output;

    /// What wrapping with a PKCE verifier yields.
    spec fn with_pkce_verifier_spec(self, pkce_verifier: &'a PkceCodeVerifier) -> Self::Output;

    /// Wraps the current request with the PKCE code verifier.
    fn with_pkce_verifier(self, pkce_verifier: &'a PkceCodeVerifier) -> (r: Self::Output)
        ensures
            r == self.with_pkce_verifier_spec(pkce_verifier),
    ;
}

impl<'a, E, T> AddPkceVerifier<'a> for RequestBuilder<E, T> {
    type Output = RequestBuilder<E, WithPkceVerifier<'a, T>>;

    open spec fn with_pkce_verifier_spec(self, pkce_verifier: &'a PkceCodeVerifier) -> Self::Output {
        RequestBuilder {
            endpoint: self.endpoint,
            request: WithPkceVerifier { code_verifier: pkce_verifier, value: self.request },
        }
    }

    fn with_pkce_verifier(self, pkce_verifier: &'a PkceCodeVerifier) -> (r: Self::Output) {
        let ghost before = self;
        let f = |value: T| -> (w: WithPkceVerifier<'a, T>)
            ensures
                w.code_verifier == pkce_verifier && w.value == value,
            {
                WithPkceVerifier::new(value, pkce_verifier)
            };
        let r = self.map(f);
        proof {
            assert(r == before.with_pkce_verifier_spec(pkce_verifier));
        }
        r
    }
}

/// Extension composition is order-insensitive: a base request wrapped
/// with a CSRF state and a PKCE challenge serializes to the same set of
/// query parameters whichever of the two is applied first. Only the
/// parameters' position differs, and position carries no meaning in this
/// protocol.
pub proof fn lemma_extension_order_irrelevant<T: RedirectRequest>(
    a: &WithPkceChallenge<Stateful<T>>,
    b: &Stateful<WithPkceChallenge<T>>,
)
    requires
        a.value.value == b.value.value,
        a.pkce == b.value.pkce,
        a.value.state == b.state,
    ensures
        a.query_spec().to_multiset() == b.query_spec().to_multiset(),
{
    let base = a.value.value.query_spec();
    let p = pkce_challenge_params(a.pkce);
    let s = state_params(a.value.state);
    assert(a.query_spec() =~= p + (s + base));
    assert(b.query_spec() =~= s + (p + base));
    lemma_multiset_commutative(p, s + base);
    lemma_multiset_commutative(s, base);
    lemma_multiset_commutative(s, p + base);
    lemma_multiset_commutative(p, base);
    assert(a.query_spec().to_multiset() =~= b.query_spec().to_multiset());
}

} // verus!
