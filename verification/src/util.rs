//! URI query string utilities.

use vstd::prelude::*;
use vstd::string::StringExecFns;

use crate::codec::{form_encode_params, form_encoded_char, form_encoded_of, param_keys,
    param_values};
use crate::types::{lemma_ascii_concat, lemma_ascii_text_bytes, lemma_text_bytes_concat,
    text_bytes};

mod discoverable;
mod uri;

pub use discoverable::{Discoverable, discover, discovery_request, discovery_response,
    well_known_uri, wk_normalized, wk_path_byte};
pub use uri::{UriBuf, UriPartsView, alpha_byte, scheme_byte, spec_parse_uri, uri_byte,
    uri_parts_bytes, uri_parts_wf};

verus! {

/// Placeholder type for structs that carry no extension fields.
#[derive(Debug, Clone, Copy, PartialEq, Eq, Structural)]
pub struct NoExtension {}

/// Two query strings joined with `&`; if either is empty, the other
/// alone.
pub open spec fn spec_concat_query(q: Seq<char>, o: Seq<char>) -> Seq<char> {
    if q.len() == 0 || o.len() == 0 {
        q + o
    } else {
        q + seq!['&'] + o
    }
}

/// Two query byte strings joined with `&`; if either is empty, the
/// other alone.
pub open spec fn spec_concat_query_bytes(q: Seq<u8>, o: Seq<u8>) -> Seq<u8> {
    if q.len() == 0 || o.len() == 0 {
        q + o
    } else {
        q + seq![0x26u8] + o
    }
}

/// Concatenates two query strings with `&` as separator.
///
/// If either query is empty, the other is returned as-is without a
/// separator.
pub fn concat_query(query: String, other: &str) -> (r: String)
    ensures
        r@ == spec_concat_query(query@, other@),
{
    let ghost q0: Seq<char> = query@;
    let mut q = query;
    if !q.as_str().is_empty() && !other.is_empty() {
        proof {
            reveal_strlit("&");
            assert("&"@ =~= seq!['&']);
        }
        q.append("&");
    }
    q.append(other);
    proof {
        assert(q@ =~= spec_concat_query(q0, other@));
    }
    q
}

/// Serializes the parameters as form-urlencoded data and concatenates
/// the result with the existing query string.
pub fn serialize_concat_query(query: String, params: &Vec<(String, String)>) -> (r: String)
    ensures
        r@ == spec_concat_query(
            query@,
            form_encoded_of(param_keys(params@), param_values(params@)),
        ),
{
    let encoded = form_encode_params(params);
    concat_query(query, encoded.as_str())
}

/// The form-urlencoded characters, and `&`, are legal query bytes.
pub(crate) proof fn lemma_query_safe(s: Seq<char>)
    requires
        vstd::utf8::is_ascii_chars(s),
        forall|i: int|
            0 <= i < s.len() ==> form_encoded_char(#[trigger] s[i]) || s[i] == '&',
    ensures
        text_bytes(s).len() == s.len(),
        forall|i: int|
            0 <= i < text_bytes(s).len() ==> uri_byte(#[trigger] text_bytes(s)[i]) && text_bytes(
                s,
            )[i] != 0x23,
{
    lemma_ascii_text_bytes(s);
    assert forall|i: int| 0 <= i < text_bytes(s).len() implies uri_byte(#[trigger] text_bytes(s)[i])
        && text_bytes(s)[i] != 0x23 by {
        assert(form_encoded_char(s[i]) || s[i] == '&');
        assert(text_bytes(s)[i] == s[i] as u8);
    }
}

/// Extends the query parameters of a URI by serializing `params` as
/// `application/x-www-form-urlencoded` and appending the result.
///
/// Existing query parameters on the URI are preserved. When nothing
/// would be written — no parameters and no existing query text — the URI
/// is left untouched rather than given an empty query.
pub fn extend_uri_query(uri: &mut UriBuf, params: &Vec<(String, String)>)
    ensures
        final(uri).parts() == (UriPartsView {
            query: {
                let combined = spec_concat_query_bytes(
                    match old(uri).parts().query {
                        Some(q) => q,
                        None => Seq::<u8>::empty(),
                    },
                    text_bytes(form_encoded_of(param_keys(params@), param_values(params@))),
                );
                if combined.len() == 0 {
                    old(uri).parts().query
                } else {
                    Some(combined)
                }
            },
            ..old(uri).parts()
        }),
        params@.len() > 0 ==> text_bytes(
            form_encoded_of(param_keys(params@), param_values(params@)),
        ).len() > 0,
{
    let existing: String = match uri.query_str() {
        Some(q) => q.to_owned(),
        None => String::new(),
    };
    let ghost existing_view: Seq<char> = existing@;
    let ghost qb: Seq<u8> = text_bytes(existing_view);
    proof {
        assert(qb == match old(uri).parts().query {
            Some(q) => q,
            None => Seq::<u8>::empty(),
        }) by {
            if old(uri).parts().query is None {
                assert(existing_view =~= Seq::<char>::empty());
                assert(qb =~= Seq::<u8>::empty());
            }
        }
    }
    let encoded = form_encode_params(params);
    let joined = concat_query(existing, encoded.as_str());
    let ghost jb: Seq<u8> = spec_concat_query_bytes(qb, text_bytes(encoded@));
    proof {
        assert(vstd::utf8::is_ascii_chars(seq!['&']));
        lemma_ascii_concat(existing_view, seq!['&']);
        lemma_ascii_concat(existing_view + seq!['&'], encoded@);
        lemma_ascii_concat(existing_view, encoded@);
        assert(vstd::utf8::is_ascii_chars(joined@));
        lemma_text_bytes_concat(existing_view, seq!['&']);
        lemma_text_bytes_concat(existing_view + seq!['&'], encoded@);
        lemma_text_bytes_concat(existing_view, encoded@);
        lemma_ascii_text_bytes(seq!['&']);
        assert(text_bytes(seq!['&']) =~= seq![0x26u8]);
        assert(text_bytes(joined@) =~= jb);
        lemma_query_safe(encoded@);
        assert forall|i: int| 0 <= i < jb.len() implies uri_byte(#[trigger] jb[i]) && jb[i]
            != 0x23 by {
            if qb.len() == 0 || text_bytes(encoded@).len() == 0 {
                assert(jb =~= qb + text_bytes(encoded@));
                if i < qb.len() {
                    assert(jb[i] == qb[i]);
                } else {
                    assert(jb[i] == text_bytes(encoded@)[i - qb.len()]);
                }
            } else {
                if i < qb.len() {
                    assert(jb[i] == qb[i]);
                } else if i == qb.len() {
                    assert(jb[i] == 0x26);
                } else {
                    assert(jb[i] == text_bytes(encoded@)[i - qb.len() - 1]);
                }
            }
        }
    }
    proof {
        lemma_ascii_text_bytes(joined@);
        lemma_ascii_text_bytes(encoded@);
        assert(text_bytes(joined@).len() == joined@.len());
        assert(text_bytes(encoded@).len() == encoded@.len());
    }
    if joined.as_str().is_empty() {
        proof {
            assert(jb.len() == 0);
            assert(final(uri).parts() == (UriPartsView {
                query: old(uri).parts().query,
                ..old(uri).parts()
            }));
        }
        return ;
    }
    let updated = uri.replace_query(joined);
    *uri = updated;
}

} // verus!
