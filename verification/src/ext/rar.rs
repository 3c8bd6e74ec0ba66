//! Rich Authorization Requests (RFC 9396).
//!
//! Authorization detail objects are caller-defined JSON values. When a
//! request carries them, they are serialized as one JSON array in the
//! `authorization_details` parameter, alongside the inner request's
//! fields; an empty collection contributes no parameter at all.

use vstd::prelude::*;
use vstd::string::StringExecFns;

use crate::client::OAuth2ClientError;
use crate::endpoints::{HttpRequest, RedirectRequest, RequestBuilder, byte_pairs_view};
use crate::transport::{BodyEncoding, Method, RequestParts, ResponseParts};
use crate::types::text_bytes;

verus! {

/// Authorization detail object.
///
/// Implementors must be able to write themselves out as JSON, and name
/// the authorization detail type they stand for.
pub trait AuthorizationDetailsObject {
    /// The object's JSON text.
    spec fn json_spec(&self) -> Seq<char>;

    /// Writes the object out as JSON.
    fn to_json(&self) -> (r: String)
        ensures
            r@ == self.json_spec(),
    ;

    /// Identifier of the authorization detail type.
    fn detail_type(&self) -> &str;
}

/// The JSON texts of a list of authorization detail objects, joined by
/// commas.
pub open spec fn join_json<D: AuthorizationDetailsObject>(objs: Seq<D>) -> Seq<char>
    decreases objs.len(),
{
    if objs.len() == 0 {
        Seq::<char>::empty()
    } else if objs.len() == 1 {
        objs[0].json_spec()
    } else {
        join_json(objs.drop_last()) + seq![','] + objs.last().json_spec()
    }
}

/// The JSON array holding the given authorization detail objects.
pub open spec fn json_array_text<D: AuthorizationDetailsObject>(objs: Seq<D>) -> Seq<char> {
    seq!['['] + join_json(objs) + seq![']']
}

/// An authorization detail held as its JSON text, for callers that
/// serialize their detail objects elsewhere.
#[derive(Debug, PartialEq, Eq)]
pub struct RawAuthorizationDetail {
    /// The identifier of the authorization detail type.
    pub kind_name: String,
    /// The detail object's JSON text.
    pub json: String,
}

impl Clone for RawAuthorizationDetail {
    fn clone(&self) -> (r: Self)
        ensures
            r.kind_name@ == self.kind_name@,
            r.json@ == self.json@,
    {
        RawAuthorizationDetail { kind_name: self.kind_name.clone(), json: self.json.clone() }
    }
}

impl AuthorizationDetailsObject for RawAuthorizationDetail {
    open spec fn json_spec(&self) -> Seq<char> {
        self.json@
    }

    fn to_json(&self) -> (r: String) {
        self.json.clone()
    }

    fn detail_type(&self) -> &str {
        self.kind_name.as_str()
    }
}

/// Collection of authorization detail objects.
///
/// When serialized as part of a form-encoded request, the objects are
/// first serialized as a JSON array string in the
/// `authorization_details` field.
pub struct AuthorizationDetails<D> {
    /// The authorization detail objects.
    pub objects: Vec<D>,
}

impl<D: AuthorizationDetailsObject> AuthorizationDetails<D> {
    /// Builds a collection from a list of objects.
    pub fn from_objects(objects: Vec<D>) -> (r: Self)
        ensures
            r == (AuthorizationDetails { objects }),
    {
        AuthorizationDetails { objects }
    }

    /// Writes the collection out as one JSON array.
    pub fn to_json_array(&self) -> (r: String)
        ensures
            r@ == json_array_text(self.objects@),
    {
        proof {
            reveal_strlit("[");
            reveal_strlit("]");
            reveal_strlit(",");
            assert("["@ =~= seq!['[']);
            assert("]"@ =~= seq![']']);
            assert(","@ =~= seq![',']);
        }
        let mut out = String::from_str("[");
        let mut i: usize = 0;
        while i < self.objects.len()
            invariant
                i <= self.objects@.len(),
                "["@ == seq!['['],
                ","@ == seq![','],
                out@ == seq!['['] + join_json(self.objects@.take(i as int)),
            decreases self.objects@.len() - i,
        {
            if i > 0 {
                out.append(",");
            }
            let json = self.objects[i].to_json();
            out.append(json.as_str());
            proof {
                assert(self.objects@.take(i + 1).drop_last() =~= self.objects@.take(i as int));
                assert(self.objects@.take(i + 1).last() == self.objects@[i as int]);
                if i == 0 {
                    assert(self.objects@.take(1) =~= seq![self.objects@[0]]);
                    assert(join_json(self.objects@.take(1)) == self.objects@[0].json_spec());
                    assert(out@ =~= seq!['['] + join_json(self.objects@.take(1)));
                } else {
                    assert(out@ =~= seq!['['] + join_json(self.objects@.take(i + 1)));
                }
            }
            i += 1;
        }
        proof {
            assert(self.objects@.take(self.objects@.len() as int) =~= self.objects@);
        }
        out.append("]");
        proof {
            assert(out@ =~= json_array_text(self.objects@));
        }
        out
    }
}

/// The `authorization_details` parameter a collection contributes: one
/// JSON array, or nothing when the collection is empty.
pub open spec fn authorization_details_params<D: AuthorizationDetailsObject>(objs: Seq<D>) -> Seq<
    (Seq<u8>, Seq<u8>),
> {
    if objs.len() == 0 {
        Seq::<(Seq<u8>, Seq<u8>)>::empty()
    } else {
        seq![(text_bytes("authorization_details"@), text_bytes(json_array_text(objs)))]
    }
}

/// Extension wrapper that attaches authorization details to a request.
///
/// The authorization details are serialized alongside the inner
/// request's fields.
pub struct WithAuthorizationDetails<'a, D, T> {
    /// The authorization detail objects to include.
    pub authorization_details: &'a AuthorizationDetails<D>,
    /// The inner request being extended.
    pub value: T,
}

impl<'a, D: AuthorizationDetailsObject, T> WithAuthorizationDetails<'a, D, T> {
    /// Creates a new [`WithAuthorizationDetails`] wrapping the given
    /// request.
    pub fn new(value: T, authorization_details: &'a AuthorizationDetails<D>) -> (r: Self)
        ensures
            r == (WithAuthorizationDetails { authorization_details, value }),
    {
        WithAuthorizationDetails { authorization_details, value }
    }

    /// Builds this wrapper's own parameters.
    fn own_params(&self) -> (r: Vec<(String, String)>)
        ensures
            byte_pairs_view(r@) == authorization_details_params(
                self.authorization_details.objects@,
            ),
    {
        let mut params: Vec<(String, String)> = Vec::new();
        if self.authorization_details.objects.len() > 0 {
            let json = self.authorization_details.to_json_array();
            params.push((String::from_str("authorization_details"), json));
        }
        proof {
            assert(byte_pairs_view(params@) =~= authorization_details_params(
                self.authorization_details.objects@,
            ));
        }
        params
    }
}

impl<'a, D: AuthorizationDetailsObject, T> RedirectRequest for WithAuthorizationDetails<
    'a,
    D,
    T,
> where T: RedirectRequest {
    open spec fn query_spec(&self) -> Seq<(Seq<u8>, Seq<u8>)> {
        authorization_details_params(self.authorization_details.objects@)
            + self.value.query_spec()
    }

    fn build_query(&self) -> (r: Vec<(String, String)>) {
        let mut params = self.own_params();
        let mut inner = self.value.build_query();
        let ghost own_view: Seq<(String, String)> = params@;
        let ghost inner_view: Seq<(String, String)> = inner@;
        params.append(&mut inner);
        proof {
            assert(byte_pairs_view(own_view + inner_view) =~= byte_pairs_view(own_view)
                + byte_pairs_view(inner_view));
        }
        params
    }
}

impl<'a, D: AuthorizationDetailsObject, T, E> HttpRequest<E> for WithAuthorizationDetails<
    'a,
    D,
    T,
> where T: HttpRequest<E> {
    type Payload = T::Payload;

    type Response = T::Response;

    open spec fn req_ok(&self, endpoint: &E) -> bool {
        self.value.req_ok(endpoint)
    }

    open spec fn req_method(&self, endpoint: &E) -> Method {
        self.value.req_method(endpoint)
    }

    open spec fn req_uri_bytes(&self, endpoint: &E) -> Seq<u8> {
        self.value.req_uri_bytes(endpoint)
    }

    open spec fn req_content_type(&self, endpoint: &E) -> BodyEncoding {
        self.value.req_content_type(endpoint)
    }

    open spec fn req_params(&self, endpoint: &E) -> Seq<(Seq<u8>, Seq<u8>)> {
        authorization_details_params(self.authorization_details.objects@) + self.value.req_params(
            endpoint,
        )
    }

    open spec fn req_headers(&self, endpoint: &E) -> Seq<(Seq<u8>, Seq<u8>)> {
        self.value.req_headers(endpoint)
    }

    open spec fn expected_status(&self, endpoint: &E) -> u16 {
        self.value.expected_status(endpoint)
    }

    open spec fn decode_ok(&self, endpoint: &E, response: &ResponseParts) -> bool {
        self.value.decode_ok(endpoint, response)
    }

    open spec fn decode_post(
        &self,
        endpoint: &E,
        response: &ResponseParts,
        payload: &T::Payload,
    ) -> bool {
        self.value.decode_post(endpoint, response, payload)
    }

    open spec fn process_spec(&self, endpoint: &E, payload: T::Payload) -> Result<
        T::Response,
        OAuth2ClientError,
    > {
        self.value.process_spec(endpoint, payload)
    }

    fn build_request(&self, endpoint: &E) -> (r: Result<RequestParts, OAuth2ClientError>) {
        let inner = match self.value.build_request(endpoint) {
            Ok(req) => req,
            Err(e) => {
                return Err(e);
            },
        };
        let mut params = self.own_params();
        let mut inner_params = inner.params;
        let ghost own_view: Seq<(String, String)> = params@;
        let ghost inner_view: Seq<(String, String)> = inner_params@;
        params.append(&mut inner_params);
        proof {
            assert(byte_pairs_view(own_view + inner_view) =~= byte_pairs_view(own_view)
                + byte_pairs_view(inner_view));
        }
        Ok(
            RequestParts {
                method: inner.method,
                uri: inner.uri,
                headers: inner.headers,
                content_type: inner.content_type,
                params,
            },
        )
    }

    fn decode_response(&self, endpoint: &E, response: &ResponseParts) -> (r: Result<
        T::Payload,
        OAuth2ClientError,
    >) {
        self.value.decode_response(endpoint, response)
    }

    fn process_response(&self, endpoint: &E, payload: T::Payload) -> (r: Result<
        T::Response,
        OAuth2ClientError,
    >) {
        self.value.process_response(endpoint, payload)
    }
}

/// Extension trait for attaching authorization details to a
/// [`RequestBuilder`].
pub trait AddAuthorizationDetails<'a, D>: Sized {
    /// The resulting type after adding authorization details.
    type Output;

    /// What wrapping with authorization details yields.
    spec fn with_authorization_details_spec(
        self,
        authorization_details: &'a AuthorizationDetails<D>,
    ) -> Self::Output;

    /// Wraps the current request with the given authorization details.
    fn with_authorization_details(
        self,
        authorization_details: &'a AuthorizationDetails<D>,
    ) -> (r: Self::Output)
        ensures
            r == self.with_authorization_details_spec(authorization_details),
    ;
}

impl<'a, D: AuthorizationDetailsObject, E, T> AddAuthorizationDetails<'a, D> for RequestBuilder<
    E,
    T,
> where D: 'a {
    type Output = RequestBuilder<E, WithAuthorizationDetails<'a, D, T>>;

    open spec fn with_authorization_details_spec(
        self,
        authorization_details: &'a AuthorizationDetails<D>,
    ) -> Self::Output {
        RequestBuilder {
            endpoint: self.endpoint,
            request: WithAuthorizationDetails { authorization_details, value: self.request },
        }
    }

    fn with_authorization_details(
        self,
        authorization_details: &'a AuthorizationDetails<D>,
    ) -> (r: Self::Output) {
        let ghost before = self;
        let f = |value: T| -> (w: WithAuthorizationDetails<'a, D, T>)
            ensures
                w.authorization_details == authorization_details && w.value == value,
            {
                WithAuthorizationDetails::new(value, authorization_details)
            };
        let r = self.map(f);
        proof {
            assert(r == before.with_authorization_details_spec(authorization_details));
        }
        r
    }
}

} // verus!
