//! OAuth 2.0 state parameters (CSRF tokens).

use vstd::prelude::*;
use vstd::string::StringExecFns;

use crate::client::OAuth2ClientError;
use crate::codec::{b64url_byte, b64url_encode, lemma_b64url_text_bytes, random_bytes};
use crate::endpoints::{HttpRequest, RedirectRequest, RequestBuilder, byte_pairs_view};
use crate::transport::{BodyEncoding, Method, RequestParts, ResponseParts};
use super::{GrammarError, is_vschar, spec_vschar, text_bytes, vschar_bytes};

verus! {

/// The grammar of a state value over bytes: one or more VSCHARs.
pub open spec fn state_bytes_grammar(b: Seq<u8>) -> bool {
    b.len() >= 1 && vschar_bytes(b)
}

/// The grammar of a state value: one or more VSCHARs.
pub open spec fn state_grammar(s: Seq<char>) -> bool {
    state_bytes_grammar(text_bytes(s))
}

/// An OAuth 2.0 state parameter.
///
/// The state parameter is an opaque value used to maintain state between
/// an authorization request and callback, primarily for CSRF protection
/// (RFC 6749, section 10.12). Every value of this type satisfies
/// [`state_grammar`].
#[derive(Debug, PartialEq, Eq, Hash)]
pub struct State {
    text: String,
}

/// Owned state value; the same type under the name used for owned values.
pub type StateBuf = State;

impl Clone for State {
    fn clone(&self) -> (r: Self)
        ensures
            r@ == self@,
    {
        proof {
            use_type_invariant(self);
        }
        State { text: self.text.clone() }
    }
}

impl View for State {
    type V = Seq<char>;

    closed spec fn view(&self) -> Seq<char> {
        self.text@
    }
}

impl State {
    #[verifier::type_invariant]
    spec fn inv(self) -> bool {
        state_grammar(self@)
    }

    /// Validates that the given string is a well-formed state value.
    pub fn validate_str(s: &str) -> (r: bool)
        ensures
            r == state_grammar(s@),
    {
        Self::validate_bytes(s.as_bytes())
    }

    /// Validates that the given byte slice is a well-formed state value.
    pub fn validate_bytes(bytes: &[u8]) -> (r: bool)
        ensures
            r == state_bytes_grammar(bytes@),
    {
        let mut i: usize = 0;
        while i < bytes.len()
            invariant
                i <= bytes@.len(),
                forall|j: int| 0 <= j < i ==> spec_vschar(#[trigger] bytes@[j]),
            decreases bytes@.len() - i,
        {
            if !is_vschar(bytes[i]) {
                return false;
            }
            i += 1;
        }
        i > 0
    }

    /// Builds a state value, checking the grammar.
    pub fn new(s: String) -> (r: Result<Self, GrammarError>)
        ensures
            r is Ok <==> state_grammar(s@),
            r matches Ok(t) ==> t@ == s@,
    {
        if Self::validate_str(s.as_str()) {
            Ok(State { text: s })
        } else {
            Err(GrammarError)
        }
    }

    /// Generates a new random, base64url-encoded 128-bit CSRF token.
    pub fn new_random() -> (r: State)
        ensures
            r@.len() == 22,
            forall|i: int| 0 <= i < r@.len() ==> crate::codec::b64url_char(#[trigger] r@[i]),
    {
        Self::new_random_len(16)
    }

    /// Generates a new random, base64url-encoded CSRF token from `len`
    /// random bytes.
    pub fn new_random_len(len: u32) -> (r: State)
        requires
            len >= 1,
        ensures
            r@.len() == (4 * len + 2) / 3,
            forall|i: int| 0 <= i < r@.len() ==> crate::codec::b64url_char(#[trigger] r@[i]),
    {
        let raw = random_bytes(len as usize);
        let encoded = b64url_encode(raw.as_slice());
        proof {
            lemma_b64url_text_bytes(encoded@);
            assert forall|i: int| 0 <= i < text_bytes(encoded@).len() implies spec_vschar(
                #[trigger] text_bytes(encoded@)[i],
            ) by {
                assert(b64url_byte(text_bytes(encoded@)[i]));
            }
        }
        State { text: encoded }
    }

    /// Returns the state text.
    pub fn as_str(&self) -> (r: &str)
        ensures
            r@ == self@,
            state_grammar(self@),
    {
        proof {
            use_type_invariant(self);
        }
        self.text.as_str()
    }
}

/// The `state` parameter an optional state value contributes.
pub open spec fn state_params(state: Option<StateBuf>) -> Seq<(Seq<u8>, Seq<u8>)> {
    match state {
        Some(s) => seq![(text_bytes("state"@), text_bytes(s@))],
        None => Seq::<(Seq<u8>, Seq<u8>)>::empty(),
    }
}

/// Wrapper that attaches an optional [`State`] (CSRF token) to a
/// request.
///
/// This is used during the authorization flow to bind the request to the
/// callback, preventing cross-site request forgery attacks: the
/// authorization server includes the value when redirecting the
/// user-agent back to the client (RFC 6749, section 10.12).
pub struct Stateful<T> {
    /// Opaque value used by the client to maintain state between the
    /// request and callback.
    pub state: Option<StateBuf>,
    /// The inner request being extended.
    pub value: T,
}

impl<T> Stateful<T> {
    /// Creates a new [`Stateful`] wrapping the given value with an
    /// optional state token.
    pub fn new(value: T, state: Option<StateBuf>) -> (r: Self)
        ensures
            r == (Stateful { state, value }),
    {
        Stateful { state, value }
    }

    /// Builds this wrapper's own parameters: the `state` parameter when
    /// a state is held.
    fn own_params(&self) -> (r: Vec<(String, String)>)
        ensures
            byte_pairs_view(r@) == state_params(self.state),
    {
        let mut params: Vec<(String, String)> = Vec::new();
        match &self.state {
            Some(s) => {
                params.push((String::from_str("state"), s.as_str().to_owned()));
            },
            None => {
            },
        }
        proof {
            assert(byte_pairs_view(params@) =~= state_params(self.state));
        }
        params
    }
}

impl<T> RedirectRequest for Stateful<T> where T: RedirectRequest {
    open spec fn query_spec(&self) -> Seq<(Seq<u8>, Seq<u8>)> {
        state_params(self.state) + self.value.query_spec()
    }

    fn build_query(&self) -> (r: Vec<(String, String)>) {
        let mut params = self.own_params();
        let mut inner = self.value.build_query();
        let ghost own_view: Seq<(String, String)> = params@;
        let ghost inner_view: Seq<(String, String)> = inner@;
        params.append(&mut inner);
        proof {
            assert(byte_pairs_view(own_view + inner_view) =~= byte_pairs_view(own_view)
                + byte_pairs_view(inner_view));
        }
        params
    }
}

impl<E, T> HttpRequest<E> for Stateful<T> where T: HttpRequest<E> {
    type Payload = T::Payload;

    type Response = T::Response;

    open spec fn req_ok(&self, endpoint: &E) -> bool {
        self.value.req_ok(endpoint)
    }

    open spec fn req_method(&self, endpoint: &E) -> Method {
        self.value.req_method(endpoint)
    }

    open spec fn req_uri_bytes(&self, endpoint: &E) -> Seq<u8> {
        self.value.req_uri_bytes(endpoint)
    }

    open spec fn req_content_type(&self, endpoint: &E) -> BodyEncoding {
        self.value.req_content_type(endpoint)
    }

    open spec fn req_params(&self, endpoint: &E) -> Seq<(Seq<u8>, Seq<u8>)> {
        state_params(self.state) + self.value.req_params(endpoint)
    }

    open spec fn req_headers(&self, endpoint: &E) -> Seq<(Seq<u8>, Seq<u8>)> {
        self.value.req_headers(endpoint)
    }

    open spec fn expected_status(&self, endpoint: &E) -> u16 {
        self.value.expected_status(endpoint)
    }

    open spec fn decode_ok(&self, endpoint: &E, response: &ResponseParts) -> bool {
        self.value.decode_ok(endpoint, response)
    }

    open spec fn decode_post(
        &self,
        endpoint: &E,
        response: &ResponseParts,
        payload: &T::Payload,
    ) -> bool {
        self.value.decode_post(endpoint, response, payload)
    }

    open spec fn process_spec(&self, endpoint: &E, payload: T::Payload) -> Result<
        T::Response,
        OAuth2ClientError,
    > {
        self.value.process_spec(endpoint, payload)
    }

    fn build_request(&self, endpoint: &E) -> (r: Result<RequestParts, OAuth2ClientError>) {
        let inner = match self.value.build_request(endpoint) {
            Ok(req) => req,
            Err(e) => {
                return Err(e);
            },
        };
        let mut params = self.own_params();
        let mut inner_params = inner.params;
        let ghost own_view: Seq<(String, String)> = params@;
        let ghost inner_view: Seq<(String, String)> = inner_params@;
        params.append(&mut inner_params);
        proof {
            assert(byte_pairs_view(own_view + inner_view) =~= byte_pairs_view(own_view)
                + byte_pairs_view(inner_view));
        }
        Ok(
            RequestParts {
                method: inner.method,
                uri: inner.uri,
                headers: inner.headers,
                content_type: inner.content_type,
                params,
            },
        )
    }

    fn decode_response(&self, endpoint: &E, response: &ResponseParts) -> (r: Result<
        T::Payload,
        OAuth2ClientError,
    >) {
        self.value.decode_response(endpoint, response)
    }

    fn process_response(&self, endpoint: &E, payload: T::Payload) -> (r: Result<
        T::Response,
        OAuth2ClientError,
    >) {
        self.value.process_response(endpoint, payload)
    }
}

/// Extension trait for attaching an optional state parameter to a
/// [`RequestBuilder`].
pub trait AddState: Sized {
    /// The resulting type after adding the state.
    type Output;

    /// What wrapping with a state yields.
    spec fn with_state_spec(self, state: Option<StateBuf>) -> Self::Output;

    /// Wraps the current request in a [`Stateful`] with the given state
    /// token.
    fn with_state(self, state: Option<StateBuf>) -> (r: Self::Output)
        ensures
            r == self.with_state_spec(state),
    ;
}

impl<E, T> AddState for RequestBuilder<E, T> {
    type Output = RequestBuilder<E, Stateful<T>>;

    open spec fn with_state_spec(self, state: Option<StateBuf>) -> Self::Output {
        RequestBuilder { endpoint: self.endpoint, request: Stateful { state, value: self.request } }
    }

    fn with_state(self, state: Option<StateBuf>) -> (r: Self::Output) {
        let ghost before = self;
        let f = |value: T| -> (w: Stateful<T>)
            ensures
                w.state == state && w.value == value,
            {
                Stateful::new(value, state)
            };
        let r = self.map(f);
        proof {
            assert(r == before.with_state_spec(state));
        }
        r
    }
}

} // verus!
