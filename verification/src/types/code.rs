//! OAuth 2.0 authorization codes.

use vstd::prelude::*;

use super::{GrammarError, is_vschar, spec_vschar, text_bytes, vschar_bytes};

verus! {

/// The grammar of an authorization code over bytes: one or more VSCHARs.
pub open spec fn code_bytes_grammar(b: Seq<u8>) -> bool {
    b.len() >= 1 && vschar_bytes(b)
}

/// The grammar of an authorization code: one or more VSCHARs.
pub open spec fn code_grammar(s: Seq<char>) -> bool {
    code_bytes_grammar(text_bytes(s))
}

/// An OAuth 2.0 authorization code.
///
/// Authorization codes are short-lived credentials returned by the
/// authorization endpoint and exchanged at the token endpoint, as defined
/// in RFC 6749, section 4.1.2. Every value of this type satisfies
/// [`code_grammar`].
#[derive(Debug, PartialEq, Eq, Hash)]
pub struct Code {
    text: String,
}

/// Owned authorization code; the same type under the name used for owned
/// values.
pub type CodeBuf = Code;

impl Clone for Code {
    fn clone(&self) -> (r: Self)
        ensures
            r@ == self@,
    {
        proof {
            use_type_invariant(self);
        }
        Code { text: self.text.clone() }
    }
}

impl View for Code {
    type V = Seq<char>;

    closed spec fn view(&self) -> Seq<char> {
        self.text@
    }
}

impl Code {
    #[verifier::type_invariant]
    spec fn inv(self) -> bool {
        code_grammar(self@)
    }

    /// Validates that the given string is a well-formed authorization
    /// code.
    pub fn validate_str(s: &str) -> (r: bool)
        ensures
            r == code_grammar(s@),
    {
        Self::validate_bytes(s.as_bytes())
    }

    /// Validates that the given byte slice is a well-formed authorization
    /// code.
    pub fn validate_bytes(bytes: &[u8]) -> (r: bool)
        ensures
            r == code_bytes_grammar(bytes@),
    {
        let mut i: usize = 0;
        while i < bytes.len()
            invariant
                i <= bytes@.len(),
                forall|j: int| 0 <= j < i ==> spec_vschar(#[trigger] bytes@[j]),
            decreases bytes@.len() - i,
        {
            if !is_vschar(bytes[i]) {
                return false;
            }
            i += 1;
        }
        i > 0
    }

    /// Builds an authorization code, checking the grammar.
    pub fn new(s: String) -> (r: Result<Self, GrammarError>)
        ensures
            r is Ok <==> code_grammar(s@),
            r matches Ok(t) ==> t@ == s@,
    {
        if Self::validate_str(s.as_str()) {
            Ok(Code { text: s })
        } else {
            Err(GrammarError)
        }
    }

    /// Returns the code text.
    pub fn as_str(&self) -> (r: &str)
        ensures
            r@ == self@,
            code_grammar(self@),
    {
        proof {
            use_type_invariant(self);
        }
        self.text.as_str()
    }
}

} // verus!
