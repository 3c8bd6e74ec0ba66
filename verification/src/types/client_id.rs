//! OAuth 2.0 client identifiers.

use vstd::prelude::*;

use super::{GrammarError, is_vschar, spec_vschar, text_bytes, vschar_bytes};

verus! {

/// The grammar of a client identifier: any number of VSCHARs.
///
/// Note that unlike most other OAuth 2.0 string types, a client
/// identifier may be empty (`*VSCHAR` rather than `1*VSCHAR`).
pub open spec fn client_id_grammar(s: Seq<char>) -> bool {
    vschar_bytes(text_bytes(s))
}

/// An OAuth 2.0 client identifier.
///
/// Client identifiers are unique strings issued to registered clients by
/// the authorization server (RFC 6749, section 2.2). Every value of this
/// type satisfies [`client_id_grammar`].
#[derive(Debug, PartialEq, Eq, Hash)]
pub struct ClientId {
    text: String,
}

/// Owned client identifier; the same type under the name used for owned
/// values.
pub type ClientIdBuf = ClientId;

impl Clone for ClientId {
    fn clone(&self) -> (r: Self)
        ensures
            r@ == self@,
    {
        proof {
            use_type_invariant(self);
        }
        ClientId { text: self.text.clone() }
    }
}

impl View for ClientId {
    type V = Seq<char>;

    closed spec fn view(&self) -> Seq<char> {
        self.text@
    }
}

impl ClientId {
    #[verifier::type_invariant]
    spec fn inv(self) -> bool {
        client_id_grammar(self@)
    }

    /// Validates that the given string is a well-formed client identifier.
    pub fn validate_str(s: &str) -> (r: bool)
        ensures
            r == client_id_grammar(s@),
    {
        Self::validate_bytes(s.as_bytes())
    }

    /// Validates that the given byte slice is a well-formed client
    /// identifier.
    pub fn validate_bytes(bytes: &[u8]) -> (r: bool)
        ensures
            r == vschar_bytes(bytes@),
    {
        let mut i: usize = 0;
        while i < bytes.len()
            invariant
                i <= bytes@.len(),
                forall|j: int| 0 <= j < i ==> spec_vschar(#[trigger] bytes@[j]),
            decreases bytes@.len() - i,
        {
            if !is_vschar(bytes[i]) {
                return false;
            }
            i += 1;
        }
        true
    }

    /// Builds a client identifier, checking the grammar.
    pub fn new(s: String) -> (r: Result<Self, GrammarError>)
        ensures
            r is Ok <==> client_id_grammar(s@),
            r matches Ok(t) ==> t@ == s@,
    {
        if Self::validate_str(s.as_str()) {
            Ok(ClientId { text: s })
        } else {
            Err(GrammarError)
        }
    }

    /// Returns the identifier text.
    pub fn as_str(&self) -> (r: &str)
        ensures
            r@ == self@,
            client_id_grammar(self@),
    {
        proof {
            use_type_invariant(self);
        }
        self.text.as_str()
    }
}

} // verus!
