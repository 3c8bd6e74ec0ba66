//! Core OAuth 2.0 string types.
//!
//! This module defines the fundamental string types used throughout the
//! OAuth 2.0 protocol, each validated against the grammar specified in
//! RFC 6749. A value of one of these types can only exist if its text
//! satisfies the type's grammar; the validators are proved to decide
//! exactly those grammars, both on byte slices and on strings.
//!
//! All grammars are byte grammars, as in the RFC: a string satisfies a
//! grammar when its UTF-8 encoding does. Since every grammar only accepts
//! ASCII bytes, accepted strings are always ASCII.

use vstd::prelude::*;
use vstd::string::StringSliceAdditionalSpecFns;

mod access_token;
mod client_id;
mod code;
mod scope;
mod state;

pub use access_token::{AccessToken, AccessTokenBuf, AddAccessToken, WithAccessToken,
    access_token_bytes_grammar, access_token_grammar, authorization_header_text};
pub use client_id::{ClientId, ClientIdBuf, client_id_grammar};
pub use code::{Code, CodeBuf, code_bytes_grammar, code_grammar};
pub use scope::{IntoScope, Scope, ScopeBuf, ScopeToken, ScopeTokenBuf, insert_token_seq,
    insert_token_seqs, join_token_views, scope_byte_ok, scope_bytes_grammar, scope_grammar,
    scope_token_bytes_grammar, scope_token_grammar, scope_token_seqs, token_bytes_seq};
pub use state::{AddState, State, StateBuf, Stateful, state_bytes_grammar, state_grammar,
    state_params};

verus! {

/// Error returned when a protocol string type is constructed from text
/// that does not satisfy the type's grammar.
#[derive(Debug, Clone, Copy, PartialEq, Eq, Structural)]
pub struct GrammarError;

/// The UTF-8 encoding of a character sequence: the bytes a `str` holding
/// these characters would consist of.
pub open spec fn text_bytes(s: Seq<char>) -> Seq<u8> {
    vstd::utf8::encode_utf8(s)
}

/// A byte is a VSCHAR: a visible ASCII character or the space,
/// i.e. in the range `0x20..=0x7E`.
pub open spec fn spec_vschar(c: u8) -> bool {
    0x20 <= c <= 0x7e
}

/// A byte is an NQCHAR: a visible ASCII character other than `"`,
/// `\` and the space.
pub open spec fn spec_nqchar(c: u8) -> bool {
    c == 0x21 || (0x23 <= c <= 0x5b) || (0x5d <= c <= 0x7e)
}

/// Every byte of the sequence is a VSCHAR.
pub open spec fn vschar_bytes(s: Seq<u8>) -> bool {
    forall|i: int| 0 <= i < s.len() ==> spec_vschar(#[trigger] s[i])
}

/// Every byte of the sequence is an NQCHAR.
pub open spec fn nqchar_bytes(s: Seq<u8>) -> bool {
    forall|i: int| 0 <= i < s.len() ==> spec_nqchar(#[trigger] s[i])
}

/// Returns `true` if the byte is a VSCHAR (visible ASCII character plus
/// space), i.e. in the range `0x20..=0x7E`.
pub(crate) fn is_vschar(c: u8) -> (r: bool)
    ensures
        r == spec_vschar(c),
{
    c >= 0x20 && c <= 0x7e
}

/// Returns `true` if the byte is a NQCHAR.
pub(crate) fn is_nqchar(c: u8) -> (r: bool)
    ensures
        r == spec_nqchar(c),
{
    c == 0x21 || (c >= 0x23 && c <= 0x5b) || (c >= 0x5d && c <= 0x7e)
}

/// UTF-8 encoding distributes over concatenation.
pub proof fn lemma_text_bytes_concat(a: Seq<char>, b: Seq<char>)
    ensures
        text_bytes(a + b) == text_bytes(a) + text_bytes(b),
    decreases a.len(),
{
    if a.len() == 0 {
        assert(a + b =~= b);
        assert(text_bytes(a) =~= Seq::<u8>::empty());
        assert(text_bytes(a) + text_bytes(b) =~= text_bytes(b));
    } else {
        lemma_text_bytes_concat(a.drop_first(), b);
        assert((a + b).drop_first() =~= a.drop_first() + b);
        assert((a + b)[0] == a[0]);
        assert(text_bytes(a + b) =~= vstd::utf8::encode_scalar((a + b)[0] as u32) + text_bytes(
            (a + b).drop_first(),
        ));
        assert(text_bytes(a + b) =~= (vstd::utf8::encode_scalar(a[0] as u32) + text_bytes(
            a.drop_first(),
        )) + text_bytes(b));
        assert(text_bytes(a) =~= vstd::utf8::encode_scalar(a[0] as u32) + text_bytes(
            a.drop_first(),
        ));
        assert(text_bytes(a + b) =~= text_bytes(a) + text_bytes(b));
    }
}

/// The UTF-8 encoding of ASCII text is its character values, byte for
/// byte.
pub proof fn lemma_ascii_text_bytes(s: Seq<char>)
    requires
        vstd::utf8::is_ascii_chars(s),
    ensures
        text_bytes(s) =~= Seq::new(s.len(), |i: int| s[i] as u8),
{
    vstd::utf8::is_ascii_chars_encode_utf8(s);
}

/// ASCII text stays ASCII under concatenation.
pub proof fn lemma_ascii_concat(a: Seq<char>, b: Seq<char>)
    requires
        vstd::utf8::is_ascii_chars(a),
        vstd::utf8::is_ascii_chars(b),
    ensures
        vstd::utf8::is_ascii_chars(a + b),
{
    assert forall|i: int| 0 <= i < (a + b).len() implies '\0' <= #[trigger] (a + b)[i] <= '\u{7f}' by {
        if i < a.len() {
            assert((a + b)[i] == a[i]);
        } else {
            assert((a + b)[i] == b[i - a.len()]);
        }
    }
}

/// A subrange of ASCII text is ASCII, and its bytes are the matching
/// subrange of the text's bytes.
pub proof fn lemma_sub_bytes(s: Seq<char>, from: int, to: int)
    requires
        vstd::utf8::is_ascii_chars(s),
        0 <= from <= to <= s.len(),
    ensures
        vstd::utf8::is_ascii_chars(s.subrange(from, to)),
        text_bytes(s).len() == s.len(),
        text_bytes(s.subrange(from, to)) =~= text_bytes(s).subrange(from, to),
{
    lemma_ascii_text_bytes(s);
    let sub = s.subrange(from, to);
    assert forall|i: int| 0 <= i < sub.len() implies '\0' <= #[trigger] sub[i] <= '\u{7f}' by {
        assert(sub[i] == s[from + i]);
    }
    lemma_ascii_text_bytes(sub);
    assert forall|i: int| 0 <= i < sub.len() implies text_bytes(sub)[i] == text_bytes(s).subrange(
        from,
        to,
    )[i] by {
        assert(sub[i] == s[from + i]);
        assert(text_bytes(sub)[i] == sub[i] as u8);
        assert(text_bytes(s)[from + i] == s[from + i] as u8);
    }
}

/// Two texts with the same UTF-8 encoding are the same text.
pub proof fn lemma_text_bytes_injective(a: Seq<char>, b: Seq<char>)
    requires
        text_bytes(a) == text_bytes(b),
    ensures
        a == b,
{
    vstd::utf8::encode_utf8_decode_utf8(a);
    vstd::utf8::encode_utf8_decode_utf8(b);
    assert(a =~= b);
}

/// Compares two byte slices for equality.
pub fn bytes_eq(a: &[u8], b: &[u8]) -> (r: bool)
    ensures
        r == (a@ == b@),
{
    if a.len() != b.len() {
        return false;
    }
    let mut i: usize = 0;
    while i < a.len()
        invariant
            a@.len() == b@.len(),
            i <= a@.len(),
            forall|j: int| 0 <= j < i ==> a@[j] == b@[j],
        decreases a@.len() - i,
    {
        if a[i] != b[i] {
            return false;
        }
        i += 1;
    }
    proof {
        assert(a@ =~= b@);
    }
    true
}

/// Compares two strings for equality.
pub fn str_eq(a: &str, b: &str) -> (r: bool)
    ensures
        r == (a@ == b@),
{
    let r = bytes_eq(a.as_bytes(), b.as_bytes());
    proof {
        if a.spec_bytes() == b.spec_bytes() {
            lemma_text_bytes_injective(a@, b@);
        }
    }
    r
}

} // verus!
