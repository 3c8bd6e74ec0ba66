//! Boundaries to the outside codec, crypto and randomness crates.
//!
//! Everything the library takes on trust about an outside crate lives
//! here or in a wrapper beside its single caller: the base64 and SHA-256
//! functions used by PKCE and state generation, the form-urlencoded
//! serializer used for request bodies and queries, the JSON parser used
//! for response bodies, and the random byte source.

use sha2::Digest;
use vstd::prelude::*;

verus! {

/// A character of the URL-safe base64 alphabet: `A-Z`, `a-z`, `0-9`,
/// `-` and `_`.
pub open spec fn b64url_char(c: char) -> bool {
    ('A' <= c <= 'Z') || ('a' <= c <= 'z') || ('0' <= c <= '9') || c == '-' || c == '_'
}

/// The base64url encoding (URL-safe alphabet, no padding) of a byte
/// sequence.
pub uninterp spec fn b64url_nopad_of(b: Seq<u8>) -> Seq<char>;

/// Relies on base64's `URL_SAFE_NO_PAD` engine: the encoding is a
/// function of the input bytes alone; it is ASCII over the URL-safe
/// alphabet (`A-Z a-z 0-9 - _`, RFC 4648 section 5), and without padding
/// the encoding of `n` bytes has exactly `ceil(4n/3)` characters.
#[verifier::external_body]
pub(crate) fn b64url_encode(bytes: &[u8]) -> (r: String)
    ensures
        r@ == b64url_nopad_of(bytes@),
        vstd::utf8::is_ascii_chars(r@),
        r@.len() == (4 * bytes@.len() + 2) / 3,
        forall|i: int| 0 <= i < r@.len() ==> b64url_char(#[trigger] r@[i]),
{
    base64::Engine::encode(&base64::prelude::BASE64_URL_SAFE_NO_PAD, bytes)
}

/// A byte of the URL-safe base64 alphabet.
pub open spec fn b64url_byte(c: u8) -> bool {
    (0x41 <= c <= 0x5a) || (0x61 <= c <= 0x7a) || (0x30 <= c <= 0x39) || c == 0x2d || c == 0x5f
}

/// The bytes of ASCII text over the URL-safe base64 alphabet are the
/// alphabet's bytes, one per character.
pub proof fn lemma_b64url_text_bytes(s: Seq<char>)
    requires
        vstd::utf8::is_ascii_chars(s),
        forall|i: int| 0 <= i < s.len() ==> b64url_char(#[trigger] s[i]),
    ensures
        crate::types::text_bytes(s).len() == s.len(),
        forall|i: int| 0 <= i < s.len() ==> b64url_byte(#[trigger] crate::types::text_bytes(s)[i]),
{
    crate::types::lemma_ascii_text_bytes(s);
    assert forall|i: int| 0 <= i < s.len() implies b64url_byte(
        #[trigger] crate::types::text_bytes(s)[i],
    ) by {
        let c = s[i];
        assert(b64url_char(c));
        assert('\0' <= c <= '\u{7f}');
        assert(crate::types::text_bytes(s)[i] == c as u8);
    }
}

/// The SHA-256 digest of a byte sequence.
pub uninterp spec fn sha256_of(b: Seq<u8>) -> Seq<u8>;

/// Relies on sha2's `Sha256`: the digest is a function of the input
/// alone, 32 bytes long.
#[verifier::external_body]
pub(crate) fn sha256_digest(bytes: &[u8]) -> (r: Vec<u8>)
    ensures
        r@ == sha256_of(bytes@),
        r@.len() == 32,
{
    sha2::Sha256::digest(bytes).to_vec()
}

/// Relies on rand's process-wide generator for one random byte. Nothing
/// is promised of the value.
#[verifier::external_body]
pub(crate) fn random_u8() -> u8 {
    rand::random::<u8>()
}

/// Returns `len` bytes from the process-wide random generator.
pub fn random_bytes(len: usize) -> (r: Vec<u8>)
    ensures
        r@.len() == len,
{
    let mut out: Vec<u8> = Vec::new();
    let mut i: usize = 0;
    while i < len
        invariant
            out@.len() == i,
            i <= len,
        decreases len - i,
    {
        out.push(random_u8());
        i += 1;
    }
    out
}

/// The keys of a parameter list, as bytes.
pub open spec fn param_keys(params: Seq<(String, String)>) -> Seq<Seq<u8>> {
    params.map_values(|p: (String, String)| crate::types::text_bytes(p.0@))
}

/// The values of a parameter list, as bytes.
pub open spec fn param_values(params: Seq<(String, String)>) -> Seq<Seq<u8>> {
    params.map_values(|p: (String, String)| crate::types::text_bytes(p.1@))
}

/// A character that can appear in a form-urlencoded serialization:
/// the bytes form_urlencoded leaves unchanged (`A-Z a-z 0-9 * - . _`),
/// `+` standing for a space, `%` of the escapes and their hex digits,
/// and the `&` and `=` separators.
pub open spec fn form_encoded_char(c: char) -> bool {
    ('A' <= c <= 'Z') || ('a' <= c <= 'z') || ('0' <= c <= '9') || c == '*' || c == '-' || c == '.'
        || c == '_' || c == '+' || c == '%' || c == '&' || c == '='
}

/// The `application/x-www-form-urlencoded` serialization of a parameter
/// list, given as the list of key byte strings and the list of value
/// byte strings.
pub uninterp spec fn form_encoded_of(keys: Seq<Seq<u8>>, values: Seq<Seq<u8>>) -> Seq<char>;

/// Relies on serde_html_form's serializer, built on form_urlencoded: a
/// list of string pairs serializes as `k=v` entries joined by `&`, keys
/// and values percent-encoded (unchanged bytes `A-Z a-z 0-9 * - . _`,
/// space as `+`, the rest as `%XX`); the output is a function of the
/// pairs alone, is ASCII, and is empty exactly for an empty list.
/// Serializing string pairs cannot fail.
#[verifier::external_body]
pub(crate) fn form_encode_params(params: &Vec<(String, String)>) -> (r: String)
    ensures
        r@ == form_encoded_of(param_keys(params@), param_values(params@)),
        vstd::utf8::is_ascii_chars(r@),
        forall|i: int| 0 <= i < r@.len() ==> form_encoded_char(#[trigger] r@[i]),
        (r@.len() == 0) == (params@.len() == 0),
{
    serde_html_form::to_string(params).unwrap()
}

/// Whether a byte sequence is a well-formed JSON document.
pub uninterp spec fn json_ok_of(body: Seq<u8>) -> bool;

/// The string field under a key of the JSON object the bytes hold, or
/// `None` when the document is no object, has no such field, or the
/// field is no string.
pub uninterp spec fn json_str_field_of(body: Seq<u8>, key: Seq<char>) -> Option<Seq<char>>;

/// The nonnegative integer field under a key of the JSON object the
/// bytes hold, or `None` when absent or not such a number.
pub uninterp spec fn json_u64_field_of(body: Seq<u8>, key: Seq<char>) -> Option<u64>;

/// Whether the JSON object the bytes hold has a field under the key.
pub uninterp spec fn json_has_field_of(body: Seq<u8>, key: Seq<char>) -> bool;

/// The string-array field under a key of the JSON object the bytes
/// hold, or `None` when absent, no array, or holding a value that is no
/// string.
pub uninterp spec fn json_str_list_field_of(body: Seq<u8>, key: Seq<char>) -> Option<
    Seq<Seq<char>>,
>;

/// Relies on serde_json's `from_slice` for `Value`: whether the bytes
/// parse as JSON is a function of the bytes alone. Parse failures,
/// including the recursion limit, come back as `Err`, never a panic.
#[verifier::external_body]
pub(crate) fn json_ok(body: &[u8]) -> (r: bool)
    ensures
        r == json_ok_of(body@),
{
    serde_json::from_slice::<serde_json::Value>(body).is_ok()
}

/// Relies on serde_json's `from_slice` for `Value` and `Value::get` and
/// `Value::as_str`: the string field under the key, a function of the
/// bytes and the key alone.
#[verifier::external_body]
pub(crate) fn json_str_field(body: &[u8], key: &str) -> (r: Option<String>)
    ensures
        match r {
            Some(s) => json_str_field_of(body@, key@) == Some(s@),
            None => json_str_field_of(body@, key@) is None,
        },
{
    let v: serde_json::Value = serde_json::from_slice(body).ok()?;
    Some(v.get(key)?.as_str()?.to_owned())
}

/// Relies on serde_json's `from_slice` for `Value` and `Value::get` and
/// `Value::as_u64`: the nonnegative integer field under the key, a
/// function of the bytes and the key alone.
#[verifier::external_body]
pub(crate) fn json_u64_field(body: &[u8], key: &str) -> (r: Option<u64>)
    ensures
        r == json_u64_field_of(body@, key@),
{
    let v: serde_json::Value = serde_json::from_slice(body).ok()?;
    v.get(key)?.as_u64()
}

/// Relies on serde_json's `from_slice` for `Value` and `Value::get`:
/// whether the object has a field under the key, a function of the bytes
/// and the key alone.
#[verifier::external_body]
pub(crate) fn json_has_field(body: &[u8], key: &str) -> (r: bool)
    ensures
        r == json_has_field_of(body@, key@),
{
    match serde_json::from_slice::<serde_json::Value>(body) {
        Ok(v) => v.get(key).is_some(),
        Err(_) => false,
    }
}

/// Relies on serde_json's `from_slice` for `Value`, `Value::get`,
/// `Value::as_array` and `Value::as_str`: the string-array field under
/// the key, a function of the bytes and the key alone.
#[verifier::external_body]
pub(crate) fn json_str_list_field(body: &[u8], key: &str) -> (r: Option<Vec<String>>)
    ensures
        match r {
            Some(l) => json_str_list_field_of(body@, key@) == Some(
                Seq::new(l@.len(), |i: int| l@[i]@),
            ),
            None => json_str_list_field_of(body@, key@) is None,
        },
{
    let v: serde_json::Value = serde_json::from_slice(body).ok()?;
    let arr = v.get(key)?.as_array()?;
    let mut out: Vec<String> = Vec::new();
    for item in arr {
        out.push(item.as_str()?.to_owned());
    }
    Some(out)
}

} // verus!
