//! Well-known URI discovery (RFC 8414).

use vstd::prelude::*;
use vstd::string::{StrSliceExecFns, StringExecFns};

use crate::client::OAuth2ClientError;
use crate::transport::{APPLICATION_JSON, HttpClient, Method, RawRequest, ResponseParts,
    content_type_matches, expect_content_type};
use crate::types::{lemma_ascii_concat, lemma_ascii_text_bytes, lemma_text_bytes_concat,
    text_bytes};
use crate::GrammarError;
use super::uri::{UriBuf, UriPartsView, uri_byte};

verus! {

/// A byte that may appear in a URI path: a URI byte other than `?` and
/// `#`.
pub open spec fn wk_path_byte(c: u8) -> bool {
    uri_byte(c) && c != 0x3f && c != 0x23
}

/// The well-known suffix, with a leading slash added when it has none.
pub open spec fn wk_normalized(suffix: Seq<u8>) -> Seq<u8> {
    if suffix.len() > 0 && suffix[0] == 0x2f {
        suffix
    } else {
        seq![0x2fu8] + suffix
    }
}

/// Builds the well-known discovery URI for a base URL: the base URL's
/// scheme, authority, query and fragment are preserved, and the path is
/// the well-known suffix's segments followed by the base URL's own path
/// segments.
///
/// Fails exactly when the suffix holds a byte that may not stand in a
/// path.
pub fn well_known_uri(base_url: &UriBuf, well_known: &str) -> (r: Result<UriBuf, GrammarError>)
    ensures
        r is Ok <==> vstd::utf8::is_ascii_chars(well_known@) && (forall|i: int|
            0 <= i < text_bytes(well_known@).len() ==> wk_path_byte(
                #[trigger] text_bytes(well_known@)[i],
            )) && (base_url.parts().authority is Some || !({
            let p = wk_normalized(text_bytes(well_known@)) + base_url.parts().path;
            p.len() >= 2 && p[1] == 0x2f
        })),
        r matches Ok(u) ==> u.parts() == (UriPartsView {
            path: wk_normalized(text_bytes(well_known@)) + base_url.parts().path,
            ..base_url.parts()
        }),
{
    if !well_known.is_ascii() {
        return Err(GrammarError);
    }
    proof {
        lemma_ascii_text_bytes(well_known@);
    }
    let sb = well_known.as_bytes();
    proof {
        assert(sb@ =~= text_bytes(well_known@));
    }
    let mut i: usize = 0;
    while i < sb.len()
        invariant
            i <= sb@.len(),
            sb@ == text_bytes(well_known@),
            forall|j: int| 0 <= j < i ==> wk_path_byte(#[trigger] sb@[j]),
        decreases sb@.len() - i,
    {
        let c = sb[i];
        if !(c >= 0x21 && c <= 0x7e && c != 0x3f && c != 0x23) {
            proof {
                assert(!wk_path_byte(text_bytes(well_known@)[i as int]));
            }
            return Err(GrammarError);
        }
        i += 1;
    }
    let mut path = String::new();
    proof {
        reveal_strlit("/");
        assert("/"@ =~= seq!['/']);
        assert(vstd::utf8::is_ascii_chars(seq!['/']));
        lemma_ascii_text_bytes(seq!['/']);
        assert(text_bytes(seq!['/']) =~= seq![0x2fu8]);
    }
    let needs_slash = sb.len() == 0 || sb[0] != 0x2f;
    if needs_slash {
        proof {
            lemma_ascii_concat(Seq::<char>::empty(), seq!['/']);
            lemma_text_bytes_concat(Seq::<char>::empty(), seq!['/']);
        }
        path.append("/");
    }
    let ghost prefix_view: Seq<char> = path@;
    proof {
        if needs_slash {
            assert(path@ =~= seq!['/']);
            assert(text_bytes(path@) =~= seq![0x2fu8]);
        } else {
            assert(path@ =~= Seq::<char>::empty());
            assert(text_bytes(path@) =~= Seq::<u8>::empty());
        }
        lemma_ascii_concat(prefix_view, well_known@);
        lemma_text_bytes_concat(prefix_view, well_known@);
    }
    path.append(well_known);
    let ghost mid_view: Seq<char> = path@;
    let base_path = base_url.path_str();
    proof {
        lemma_ascii_concat(mid_view, base_path@);
        lemma_text_bytes_concat(mid_view, base_path@);
        assert(text_bytes(mid_view) =~= wk_normalized(text_bytes(well_known@)));
    }
    path.append(base_path);
    let ghost full: Seq<u8> = text_bytes(path@);
    proof {
        assert(full =~= wk_normalized(text_bytes(well_known@)) + base_url.parts().path);
        assert forall|i: int| 0 <= i < full.len() implies uri_byte(#[trigger] full[i]) && full[i]
            != 0x3f && full[i] != 0x23 by {
            let wn = wk_normalized(text_bytes(well_known@));
            if i < wn.len() {
                assert(full[i] == wn[i]);
                if text_bytes(well_known@).len() > 0 && text_bytes(well_known@)[0] == 0x2f {
                    assert(wn[i] == text_bytes(well_known@)[i]);
                } else {
                    if i == 0 {
                        assert(wn[0] == 0x2f);
                    } else {
                        assert(wn[i] == text_bytes(well_known@)[i - 1]);
                    }
                }
            } else {
                assert(full[i] == base_url.parts().path[i - wn.len()]);
            }
        }
        assert(full.len() >= 1);
        assert(full[0] == 0x2f);
    }
    if base_url.authority_str().is_none() {
        proof {
            lemma_ascii_text_bytes(path@);
        }
        if path.as_str().unicode_len() >= 2 {
            let second = path.as_str().get_ascii(1);
            proof {
                assert(full[1] == path@[1] as u8);
            }
            if second == 0x2f {
                return Err(GrammarError);
            }
        }
        proof {
            assert(full.len() == path@.len());
            assert(!(full.len() >= 2 && full[1] == 0x2f));
        }
    }
    Ok(UriBuf::with_path_of(base_url, path))
}

/// A document that can be fetched from a well-known URI derived from a
/// server's base URL, and validated against that base URL.
pub trait Discoverable: Sized {
    /// Whether this document is valid for the given base URL.
    spec fn validate_spec(&self, base_url: &UriBuf) -> bool;

    /// Whether a response body decodes as this document.
    spec fn decode_ok_spec(body: Seq<u8>) -> bool;

    /// What a decoded document holds, in terms of the body it was
    /// decoded from.
    spec fn decode_post_spec(body: Seq<u8>, m: &Self) -> bool;

    /// The well-known path suffix the document is served under.
    fn well_known_suffix() -> &'static str;

    /// Decodes the document from a JSON response body.
    fn decode(body: &[u8]) -> (r: Result<Self, OAuth2ClientError>)
        ensures
            r is Ok <==> Self::decode_ok_spec(body@),
            r matches Ok(m) ==> Self::decode_post_spec(body@, &m),
            r matches Err(e) ==> e is Response,
    ;

    /// Validates the document against the base URL it was fetched from.
    fn validate(&self, base_url: &UriBuf) -> (r: Result<(), OAuth2ClientError>)
        ensures
            r is Ok <==> self.validate_spec(base_url),
    ;
}

/// Builds the GET request fetching a discovery document.
pub fn discovery_request(discovery_url: &UriBuf) -> (r: RawRequest)
    ensures
        r.method == Method::Get,
        text_bytes(r.uri@) == discovery_url.bytes_view(),
        r.body@.len() == 0,
{
    let mut headers: Vec<(String, String)> = Vec::new();
    headers.push((String::from_str("accept"), String::from_str(APPLICATION_JSON)));
    RawRequest { method: Method::Get, uri: discovery_url.to_text(), headers, body: Vec::new() }
}

/// Decodes a discovery response: HTTP 200, `application/json`, the
/// document itself, validated against the base URL.
///
/// A status other than 200 is a server error carrying that status, and
/// is never a decode attempt. Decoding succeeds exactly when the status,
/// the content type and the body are right and the decoded document
/// validates against the base URL; the result holds exactly the body's
/// fields.
pub fn discovery_response<T: Discoverable>(base_url: &UriBuf, response: &ResponseParts) -> (r:
    Result<T, OAuth2ClientError>)
    ensures
        response.status != 200 ==> r == Err::<T, _>(OAuth2ClientError::ServerError(
            response.status,
        )),
        r matches Ok(m) ==> response.status == 200 && content_type_matches(
            response.headers@,
            APPLICATION_JSON@,
        ) && T::decode_ok_spec(response.body@) && T::decode_post_spec(response.body@, &m)
            && m.validate_spec(base_url),
        response.status == 200 && !(content_type_matches(response.headers@, APPLICATION_JSON@)
            && T::decode_ok_spec(response.body@)) ==> (r matches Err(e) && e is Response),
{
    if response.status != 200 {
        return Err(OAuth2ClientError::server(response.status));
    }
    match expect_content_type(&response.headers, APPLICATION_JSON) {
        Ok(_) => {
        },
        Err(e) => {
            return Err(e);
        },
    }
    let metadata = match T::decode(response.body.as_slice()) {
        Ok(m) => m,
        Err(e) => {
            return Err(e);
        },
    };
    match metadata.validate(base_url) {
        Ok(_) => Ok(metadata),
        Err(e) => Err(e),
    }
}

/// Fetches and validates a discovery document for a base URL: builds the
/// well-known URI, GETs it over the given transport, and decodes and
/// validates the response.
///
/// Whatever the transport answered, a document is only returned after it
/// was decoded from some response body and validated against the base
/// URL.
pub fn discover<T: Discoverable>(http_client: &impl HttpClient, base_url: &UriBuf) -> (r: Result<
    T,
    OAuth2ClientError,
>)
    ensures
        r matches Ok(m) ==> m.validate_spec(base_url) && exists|body: Seq<u8>|
            #[trigger] T::decode_ok_spec(body) && T::decode_post_spec(body, &m),
{
    let discovery_url = match well_known_uri(base_url, T::well_known_suffix()) {
        Ok(u) => u,
        Err(_) => {
            return Err(OAuth2ClientError::request(String::from_str("malformed well-known path")));
        },
    };
    let request = discovery_request(&discovery_url);
    let response = match http_client.send(request) {
        Ok(resp) => resp,
        Err(e) => {
            return Err(e);
        },
    };
    let r = discovery_response::<T>(base_url, &response);
    proof {
        if r is Ok {
            let m = r->Ok_0;
            assert(T::decode_ok_spec(response.body@) && T::decode_post_spec(response.body@, &m));
        }
    }
    r
}

} // verus!
