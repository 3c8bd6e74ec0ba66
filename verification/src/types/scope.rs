//! OAuth 2.0 scopes and scope tokens.
//!
//! A scope is an ordered, space-separated sequence of scope tokens
//! (RFC 6749, section 3.3). The grammar forbids empty tokens, so a scope
//! has no leading, trailing or doubled spaces. `Scope::insert` and
//! `Scope::contains` treat the scope as a duplicate-free set with
//! insertion order preserved; their contracts are stated over
//! [`scope_token_seqs`], the sequence of the scope's tokens.

use vstd::prelude::*;
use vstd::string::StrSliceExecFns;

use super::{GrammarError, is_nqchar, lemma_ascii_text_bytes, lemma_text_bytes_concat,
    lemma_text_bytes_injective, nqchar_bytes, spec_nqchar, str_eq, text_bytes};

verus! {

/// The grammar of a scope token over bytes: one or more NQCHARs.
pub open spec fn scope_token_bytes_grammar(b: Seq<u8>) -> bool {
    b.len() >= 1 && nqchar_bytes(b)
}

/// The grammar of a scope token: ASCII text of one or more NQCHARs.
pub open spec fn scope_token_grammar(s: Seq<char>) -> bool {
    vstd::utf8::is_ascii_chars(s) && scope_token_bytes_grammar(text_bytes(s))
}

/// A byte that may appear in a scope: an NQCHAR or the space separator.
pub open spec fn scope_byte_ok(c: u8) -> bool {
    spec_nqchar(c) || c == 0x20
}

/// The grammar of a scope over bytes: one or more scope tokens separated
/// by single spaces. Equivalently: nonempty, every byte an NQCHAR or a
/// space, no leading, trailing or doubled space.
pub open spec fn scope_bytes_grammar(b: Seq<u8>) -> bool {
    &&& b.len() >= 1
    &&& forall|i: int| 0 <= i < b.len() ==> scope_byte_ok(#[trigger] b[i])
    &&& b[0] != 0x20
    &&& b[b.len() - 1] != 0x20
    &&& forall|i: int| #![trigger b[i + 1]] 0 <= i < b.len() - 1 ==> !(b[i] == 0x20 && b[i + 1]
        == 0x20)
}

/// The grammar of a scope: ASCII text satisfying [`scope_bytes_grammar`].
pub open spec fn scope_grammar(s: Seq<char>) -> bool {
    vstd::utf8::is_ascii_chars(s) && scope_bytes_grammar(text_bytes(s))
}

/// The tokens of a byte sequence: the segments between its spaces, in
/// order. An empty sequence has one empty token, like `str::split`.
pub open spec fn scope_token_seqs(b: Seq<u8>) -> Seq<Seq<u8>>
    decreases b.len(),
{
    if b.len() == 0 {
        seq![Seq::<u8>::empty()]
    } else if b[0] == 0x20 {
        seq![Seq::<u8>::empty()] + scope_token_seqs(b.drop_first())
    } else {
        let rest = scope_token_seqs(b.drop_first());
        seq![seq![b[0]] + rest[0]] + rest.drop_first()
    }
}

/// A byte sequence always has at least one token.
pub proof fn lemma_token_seqs_len(b: Seq<u8>)
    ensures
        scope_token_seqs(b).len() >= 1,
    decreases b.len(),
{
    if b.len() == 0 {
    } else {
        lemma_token_seqs_len(b.drop_first());
    }
}

/// Peeling the first token: if the first `k` bytes are not spaces, they
/// are a prefix of the first token; if byte `k` is a space, the first
/// token is exactly the first `k` bytes.
pub proof fn lemma_token_seqs_peel(b: Seq<u8>, k: int)
    requires
        0 <= k <= b.len(),
        forall|i: int| 0 <= i < k ==> #[trigger] b[i] != 0x20,
    ensures
        k == b.len() ==> scope_token_seqs(b) == seq![b],
        k < b.len() && b[k] == 0x20 ==> scope_token_seqs(b) == seq![b.take(k)]
            + scope_token_seqs(b.skip(k + 1)),
    decreases k,
{
    lemma_token_seqs_len(b);
    if k == 0 {
        if b.len() == 0 {
            assert(b =~= Seq::<u8>::empty());
            assert(scope_token_seqs(b) == seq![Seq::<u8>::empty()]);
            assert(scope_token_seqs(b) =~= seq![b]);
        } else if b[0] == 0x20 {
            assert(b.take(0) =~= Seq::<u8>::empty());
            assert(b.skip(1) =~= b.drop_first());
            assert(scope_token_seqs(b) =~= seq![b.take(0)] + scope_token_seqs(b.skip(1)));
        }
    } else {
        let bd = b.drop_first();
        lemma_token_seqs_peel(bd, k - 1);
        lemma_token_seqs_len(bd);
        let rest = scope_token_seqs(bd);
        if k == b.len() {
            assert(rest == seq![bd]);
            assert(seq![b[0]] + rest[0] =~= b);
            assert(rest.drop_first() =~= Seq::<Seq<u8>>::empty());
            assert(scope_token_seqs(b) =~= seq![b]);
        } else if b[k] == 0x20 {
            assert(bd[k - 1] == 0x20);
            assert(rest == seq![bd.take(k - 1)] + scope_token_seqs(bd.skip(k)));
            assert(rest[0] == bd.take(k - 1));
            assert(seq![b[0]] + rest[0] =~= b.take(k));
            assert(rest.drop_first() =~= scope_token_seqs(bd.skip(k)));
            assert(bd.skip(k) =~= b.skip(k + 1));
            assert(scope_token_seqs(b) =~= seq![b.take(k)] + scope_token_seqs(b.skip(k + 1)));
        }
    }
}

/// A space-free byte sequence is its own single token.
pub proof fn lemma_token_seqs_single(t: Seq<u8>)
    requires
        forall|i: int| 0 <= i < t.len() ==> #[trigger] t[i] != 0x20,
    ensures
        scope_token_seqs(t) == seq![t],
{
    lemma_token_seqs_peel(t, t.len() as int);
}

/// Appending a space and a space-free token appends that token to the
/// token sequence.
pub proof fn lemma_token_seqs_append(s: Seq<u8>, t: Seq<u8>)
    requires
        forall|i: int| 0 <= i < t.len() ==> #[trigger] t[i] != 0x20,
    ensures
        scope_token_seqs(s + seq![0x20u8] + t) == scope_token_seqs(s).push(t),
    decreases s.len(),
{
    let w = s + seq![0x20u8] + t;
    lemma_token_seqs_len(s);
    if s.len() == 0 {
        assert(w[0] == 0x20);
        assert(w.drop_first() =~= t);
        lemma_token_seqs_single(t);
        assert(scope_token_seqs(w) =~= seq![Seq::<u8>::empty()] + seq![t]);
        assert(scope_token_seqs(s) == seq![Seq::<u8>::empty()]);
        assert(scope_token_seqs(w) =~= scope_token_seqs(s).push(t));
    } else {
        let sd = s.drop_first();
        lemma_token_seqs_append(sd, t);
        lemma_token_seqs_len(sd);
        let wd = w.drop_first();
        assert(wd =~= sd + seq![0x20u8] + t);
        let rest = scope_token_seqs(wd);
        assert(rest == scope_token_seqs(sd).push(t));
        if s[0] == 0x20 {
            assert(w[0] == 0x20);
            assert(scope_token_seqs(w) =~= seq![Seq::<u8>::empty()] + rest);
            assert(scope_token_seqs(s) =~= seq![Seq::<u8>::empty()] + scope_token_seqs(sd));
            assert(scope_token_seqs(w) =~= scope_token_seqs(s).push(t));
        } else {
            assert(w[0] == s[0]);
            assert(w[0] != 0x20);
            assert(rest[0] == scope_token_seqs(sd)[0]);
            assert(rest.drop_first() =~= scope_token_seqs(sd).drop_first().push(t));
            assert(scope_token_seqs(w) =~= seq![seq![w[0]] + rest[0]] + rest.drop_first());
            assert(scope_token_seqs(s) =~= seq![seq![s[0]] + scope_token_seqs(sd)[0]]
                + scope_token_seqs(sd).drop_first());
            assert(scope_token_seqs(w) =~= scope_token_seqs(s).push(t));
        }
    }
}

/// Appending a space and a token to a well-formed scope keeps the scope
/// grammar.
pub proof fn lemma_scope_append_grammar(s: Seq<u8>, t: Seq<u8>)
    requires
        scope_bytes_grammar(s),
        scope_token_bytes_grammar(t),
    ensures
        scope_bytes_grammar(s + seq![0x20u8] + t),
{
    let w = s + seq![0x20u8] + t;
    assert(w[0] == s[0]);
    assert(w[w.len() - 1] == t[t.len() - 1]);
    assert(!spec_nqchar(0x20));
    assert forall|i: int| 0 <= i < w.len() implies scope_byte_ok(#[trigger] w[i]) by {
        if i < s.len() {
            assert(w[i] == s[i]);
        } else if i == s.len() {
            assert(w[i] == 0x20);
        } else {
            assert(w[i] == t[i - s.len() - 1]);
        }
    }
    assert forall|i: int| #![trigger w[i + 1]] 0 <= i < w.len() - 1 implies !(w[i] == 0x20 && w[i
        + 1] == 0x20) by {
        if i + 1 < s.len() {
            assert(w[i] == s[i] && w[i + 1] == s[i + 1]);
        } else if i + 1 == s.len() {
            assert(w[i] == s[i]);
            assert(s[s.len() - 1] != 0x20);
        } else if i == s.len() {
            assert(w[i + 1] == t[0]);
            assert(spec_nqchar(t[0]));
            assert(w[i + 1] != 0x20);
        } else {
            assert(w[i] == t[i - s.len() - 1]);
            assert(spec_nqchar(t[i - s.len() - 1]));
            assert(w[i] != 0x20);
        }
    }
}

/// A single OAuth 2.0 scope token.
///
/// Scope tokens are the individual components of a [`Scope`] value,
/// separated by spaces. Every value of this type satisfies
/// [`scope_token_grammar`].
#[derive(Debug, PartialEq, Eq, Hash)]
pub struct ScopeToken {
    text: String,
}

/// Owned scope token; the same type under the name used for owned values.
pub type ScopeTokenBuf = ScopeToken;

impl Clone for ScopeToken {
    fn clone(&self) -> (r: Self)
        ensures
            r@ == self@,
    {
        proof {
            use_type_invariant(self);
        }
        ScopeToken { text: self.text.clone() }
    }
}

impl View for ScopeToken {
    type V = Seq<char>;

    closed spec fn view(&self) -> Seq<char> {
        self.text@
    }
}

impl ScopeToken {
    #[verifier::type_invariant]
    spec fn inv(self) -> bool {
        scope_token_grammar(self@)
    }

    /// Validates that the given string is a well-formed scope token.
    pub fn validate_str(s: &str) -> (r: bool)
        ensures
            r == scope_token_grammar(s@),
    {
        Self::validate_bytes(s.as_bytes()) && s.is_ascii()
    }

    /// Validates that the given byte slice is a well-formed scope token.
    pub fn validate_bytes(bytes: &[u8]) -> (r: bool)
        ensures
            r == scope_token_bytes_grammar(bytes@),
    {
        let mut i: usize = 0;
        while i < bytes.len()
            invariant
                i <= bytes@.len(),
                forall|j: int| 0 <= j < i ==> spec_nqchar(#[trigger] bytes@[j]),
            decreases bytes@.len() - i,
        {
            if !is_nqchar(bytes[i]) {
                return false;
            }
            i += 1;
        }
        i > 0
    }

    /// Builds a scope token, checking the grammar.
    pub fn new(s: String) -> (r: Result<Self, GrammarError>)
        ensures
            r is Ok <==> scope_token_grammar(s@),
            r matches Ok(t) ==> t@ == s@,
    {
        if Self::validate_str(s.as_str()) {
            Ok(ScopeToken { text: s })
        } else {
            Err(GrammarError)
        }
    }

    /// Returns the token text.
    pub fn as_str(&self) -> (r: &str)
        ensures
            r@ == self@,
            scope_token_grammar(self@),
    {
        proof {
            use_type_invariant(self);
        }
        self.text.as_str()
    }
}

/// An OAuth 2.0 scope value.
///
/// A scope is a space-separated list of [`ScopeToken`]s representing the
/// permissions requested or granted for an access token. Every value of
/// this type satisfies [`scope_grammar`].
#[derive(Debug, PartialEq, Eq, Hash)]
pub struct Scope {
    text: String,
}

/// Owned scope; the same type under the name used for owned values.
pub type ScopeBuf = Scope;

impl Clone for Scope {
    fn clone(&self) -> (r: Self)
        ensures
            r@ == self@,
    {
        proof {
            use_type_invariant(self);
        }
        Scope { text: self.text.clone() }
    }
}

impl View for Scope {
    type V = Seq<char>;

    closed spec fn view(&self) -> Seq<char> {
        self.text@
    }
}

impl Scope {
    #[verifier::type_invariant]
    spec fn inv(self) -> bool {
        scope_grammar(self@)
    }

    /// The tokens of this scope, as byte sequences.
    pub open spec fn tokens(self) -> Seq<Seq<u8>> {
        scope_token_seqs(text_bytes(self@))
    }

    /// Validates that the given string is a well-formed scope.
    pub fn validate_str(s: &str) -> (r: bool)
        ensures
            r == scope_grammar(s@),
    {
        Self::validate_bytes(s.as_bytes()) && s.is_ascii()
    }

    /// Validates that the given byte slice is a well-formed scope.
    pub fn validate_bytes(bytes: &[u8]) -> (r: bool)
        ensures
            r == scope_bytes_grammar(bytes@),
    {
        if bytes.len() == 0 {
            return false;
        }
        if bytes[0] == 0x20 || bytes[bytes.len() - 1] == 0x20 {
            return false;
        }
        let mut i: usize = 0;
        while i < bytes.len()
            invariant
                i <= bytes@.len(),
                forall|j: int| 0 <= j < i ==> scope_byte_ok(#[trigger] bytes@[j]),
                forall|j: int| #![trigger bytes@[j + 1]] 0 <= j < i && j + 1 < bytes@.len() ==> !(
                bytes@[j] == 0x20 && bytes@[j + 1] == 0x20),
            decreases bytes@.len() - i,
        {
            if !is_nqchar(bytes[i]) && bytes[i] != 0x20 {
                return false;
            }
            if bytes[i] == 0x20 && i + 1 < bytes.len() && bytes[i + 1] == 0x20 {
                return false;
            }
            i += 1;
        }
        true
    }

    /// Builds a scope, checking the grammar.
    pub fn new(s: String) -> (r: Result<Self, GrammarError>)
        ensures
            r is Ok <==> scope_grammar(s@),
            r matches Ok(t) ==> t@ == s@,
    {
        if Self::validate_str(s.as_str()) {
            Ok(Scope { text: s })
        } else {
            Err(GrammarError)
        }
    }

    /// Returns the scope text.
    pub fn as_str(&self) -> (r: &str)
        ensures
            r@ == self@,
            scope_grammar(self@),
    {
        proof {
            use_type_invariant(self);
        }
        self.text.as_str()
    }

    /// Returns the scope's tokens, in order.
    pub fn iter(&self) -> (r: Vec<ScopeToken>)
        ensures
            r@.len() == self.tokens().len(),
            forall|i: int| 0 <= i < r@.len() ==> text_bytes(#[trigger] r@[i]@) == self.tokens()[i],
    {
        proof {
            use_type_invariant(self);
            lemma_ascii_text_bytes(self@);
        }
        let s = self.text.as_str();
        let bytes = s.as_bytes();
        let ghost tb: Seq<u8> = text_bytes(self@);
        proof {
            assert(bytes@ =~= tb);
            lemma_token_seqs_len(tb);
        }
        let n = bytes.len();
        let mut result: Vec<ScopeToken> = Vec::new();
        proof {
            assert(tb.skip(0) =~= tb);
            assert(token_bytes_seq(result@) =~= Seq::<Seq<u8>>::empty());
            assert(token_bytes_seq(result@) + scope_token_seqs(tb) =~= scope_token_seqs(tb));
        }
        let mut start: usize = 0;
        let mut i: usize = 0;
        while i < n
            invariant
                s@ == self@,
                bytes@ == tb,
                tb == text_bytes(self@),
                n == tb.len(),
                n == self@.len(),
                vstd::utf8::is_ascii_chars(self@),
                scope_bytes_grammar(tb),
                start <= i <= n,
                start == 0 || tb[start - 1] == 0x20,
                forall|j: int| start <= j < i ==> #[trigger] tb[j] != 0x20,
                scope_token_seqs(tb) == token_bytes_seq(result@) + scope_token_seqs(
                    tb.skip(start as int),
                ),
            decreases n - i,
        {
            if bytes[i] == 0x20 {
                proof {
                    if start == i {
                        if start == 0 {
                            assert(tb[0] == 0x20);
                            assert(false);
                        } else {
                            let j = start - 1;
                            assert(tb[j] == 0x20);
                            assert(tb[j + 1] == 0x20);
                            assert(false);
                        }
                    }
                }
                let tok_str = s.substring_ascii(start, i);
                let tok_text = tok_str.to_owned();
                proof {
                    lemma_segment_token(self@, tb, start as int, i as int, tok_text@);
                }
                let tok = ScopeToken { text: tok_text };
                proof {
                    lemma_token_seqs_peel(tb.skip(start as int), i - start);
                    assert(tb.skip(start as int).take(i - start) =~= tb.subrange(
                        start as int,
                        i as int,
                    ));
                    assert(tb.skip(start as int).skip(i - start + 1) =~= tb.skip(i + 1));
                    assert(token_bytes_seq(result@.push(tok)) =~= token_bytes_seq(result@).push(
                        text_bytes(tok@),
                    ));
                    assert(token_bytes_seq(result@).push(tb.subrange(start as int, i as int))
                        + scope_token_seqs(tb.skip(i + 1)) =~= token_bytes_seq(result@) + (seq![
                        tb.subrange(start as int, i as int)] + scope_token_seqs(tb.skip(i + 1))));
                }
                result.push(tok);
                start = i + 1;
            }
            i += 1;
        }
        proof {
            if start == n {
                if start == 0 {
                    assert(tb.len() >= 1);
                    assert(false);
                } else {
                    assert(tb[n - 1] == 0x20);
                    assert(false);
                }
            }
        }
        let tok_str = s.substring_ascii(start, n);
        let tok_text = tok_str.to_owned();
        proof {
            lemma_segment_token(self@, tb, start as int, n as int, tok_text@);
        }
        let tok = ScopeToken { text: tok_text };
        proof {
            lemma_token_seqs_peel(tb.skip(start as int), n - start);
            assert(tb.skip(start as int) =~= tb.subrange(start as int, n as int));
            assert(token_bytes_seq(result@.push(tok)) =~= token_bytes_seq(result@).push(
                text_bytes(tok@),
            ));
            assert(token_bytes_seq(result@) + seq![tb.subrange(start as int, n as int)]
                =~= token_bytes_seq(result@).push(tb.subrange(start as int, n as int)));
        }
        result.push(tok);
        proof {
            assert(scope_token_seqs(tb) =~= token_bytes_seq(result@));
        }
        result
    }

    /// Returns `true` if this scope contains the given token.
    pub fn contains(&self, token: &ScopeToken) -> (r: bool)
        ensures
            r == self.tokens().contains(text_bytes(token@)),
    {
        let toks = self.iter();
        let mut i: usize = 0;
        while i < toks.len()
            invariant
                toks@.len() == self.tokens().len(),
                forall|j: int| 0 <= j < toks@.len() ==> text_bytes(#[trigger] toks@[j]@)
                    == self.tokens()[j],
                i <= toks@.len(),
                forall|j: int| 0 <= j < i ==> self.tokens()[j] != text_bytes(token@),
            decreases toks@.len() - i,
        {
            if str_eq(toks[i].as_str(), token.as_str()) {
                proof {
                    assert(self.tokens()[i as int] == text_bytes(token@));
                }
                return true;
            }
            proof {
                if self.tokens()[i as int] == text_bytes(token@) {
                    lemma_text_bytes_injective(toks@[i as int]@, token@);
                }
            }
            i += 1;
        }
        proof {
            assert(forall|j: int|
                0 <= j < self.tokens().len() ==> self.tokens()[j] != text_bytes(token@));
        }
        false
    }

    /// Inserts a scope token if it is not already present.
    ///
    /// Returns `true` if the token was inserted, `false` if it was already
    /// contained. Insertion appends the token; the tokens already present
    /// are kept, in order.
    pub fn insert(&mut self, token: &ScopeToken) -> (r: bool)
        ensures
            r == !scope_token_seqs(text_bytes(old(self)@)).contains(text_bytes(token@)),
            !r ==> final(self)@ == old(self)@,
            r ==> final(self)@ == old(self)@ + seq![' '] + token@,
            scope_token_seqs(text_bytes(final(self)@)) == insert_token_seq(
                scope_token_seqs(text_bytes(old(self)@)),
                text_bytes(token@),
            ),
    {
        proof {
            use_type_invariant(&*self);
            use_type_invariant(token);
        }
        if self.contains(token) {
            false
        } else {
            let mut text = self.text.clone();
            text.append(" ");
            text.append(token.as_str());
            proof {
                lemma_scope_push_token(old(self)@, token@, text@);
            }
            *self = Scope { text };
            true
        }
    }

    /// Builds a scope from a list of scope tokens, joined by spaces, in
    /// order and without removing duplicates.
    ///
    /// Returns `None` if the list is empty.
    pub fn from_tokens(tokens: &Vec<ScopeTokenBuf>) -> (r: Option<Scope>)
        ensures
            r is None <==> tokens@.len() == 0,
            r matches Some(sc) ==> sc@ == join_token_views(
                Seq::new(tokens@.len(), |i: int| tokens@[i]@),
            ),
            r matches Some(sc) ==> scope_token_seqs(text_bytes(sc@)) == Seq::new(
                tokens@.len(),
                |i: int| text_bytes(tokens@[i]@),
            ),
    {
        let ghost views: Seq<Seq<char>> = Seq::new(tokens@.len(), |i: int| tokens@[i]@);
        let ghost byte_views: Seq<Seq<u8>> = Seq::new(
            tokens@.len(),
            |i: int| text_bytes(tokens@[i]@),
        );
        if tokens.len() == 0 {
            return None;
        }
        let first = &tokens[0];
        proof {
            use_type_invariant(first);
        }
        let mut text: String = first.as_str().to_owned();
        proof {
            lemma_token_seqs_single(text_bytes(text@));
            assert(views.take(1) =~= seq![tokens@[0]@]);
            assert(join_token_views(views.take(1)) == views[0]);
            assert(byte_views.take(1) =~= seq![text_bytes(tokens@[0]@)]);
        }
        let mut i: usize = 1;
        while i < tokens.len()
            invariant
                1 <= i <= tokens@.len(),
                views == Seq::new(tokens@.len(), |j: int| tokens@[j]@),
                byte_views == Seq::new(tokens@.len(), |j: int| text_bytes(tokens@[j]@)),
                vstd::utf8::is_ascii_chars(text@),
                scope_bytes_grammar(text_bytes(text@)),
                text@ == join_token_views(views.take(i as int)),
                scope_token_seqs(text_bytes(text@)) == byte_views.take(i as int),
            decreases tokens@.len() - i,
        {
            let tok = &tokens[i];
            proof {
                use_type_invariant(tok);
            }
            let ghost prev: Seq<char> = text@;
            text.append(" ");
            text.append(tok.as_str());
            proof {
                lemma_scope_push_token(prev, tok@, text@);
                assert(views.take(i + 1).drop_last() =~= views.take(i as int));
                assert(views.take(i + 1).last() == views[i as int]);
                assert(byte_views.take(i + 1) =~= byte_views.take(i as int).push(
                    text_bytes(tokens@[i as int]@),
                ));
            }
            i += 1;
        }
        proof {
            assert(views.take(tokens@.len() as int) =~= views);
            assert(byte_views.take(tokens@.len() as int) =~= byte_views);
        }
        Some(Scope { text })
    }

    /// Inserts every token of the list, skipping those already present.
    pub fn extend(&mut self, tokens: &Vec<ScopeTokenBuf>)
        ensures
            scope_token_seqs(text_bytes(final(self)@)) == insert_token_seqs(
                scope_token_seqs(text_bytes(old(self)@)),
                Seq::new(tokens@.len(), |i: int| text_bytes(tokens@[i]@)),
            ),
    {
        let ghost byte_views: Seq<Seq<u8>> = Seq::new(
            tokens@.len(),
            |i: int| text_bytes(tokens@[i]@),
        );
        let mut i: usize = 0;
        while i < tokens.len()
            invariant
                i <= tokens@.len(),
                byte_views == Seq::new(tokens@.len(), |j: int| text_bytes(tokens@[j]@)),
                scope_token_seqs(text_bytes(self@)) == insert_token_seqs(
                    scope_token_seqs(text_bytes(old(self)@)),
                    byte_views.take(i as int),
                ),
            decreases tokens@.len() - i,
        {
            self.insert(&tokens[i]);
            proof {
                lemma_insert_token_seqs_push(
                    scope_token_seqs(text_bytes(old(self)@)),
                    byte_views.take(i as int),
                    byte_views[i as int],
                );
                assert(byte_views.take(i + 1) =~= byte_views.take(i as int).push(
                    byte_views[i as int],
                ));
            }
            i += 1;
        }
        proof {
            assert(byte_views.take(tokens@.len() as int) =~= byte_views);
        }
    }
}

/// The byte sequences of a list of scope tokens.
pub open spec fn token_bytes_seq(ts: Seq<ScopeToken>) -> Seq<Seq<u8>> {
    ts.map_values(|t: ScopeToken| text_bytes(t@))
}

/// Inserting one token into a token sequence, set-wise: already present
/// tokens are kept, a new one is appended.
pub open spec fn insert_token_seq(ts: Seq<Seq<u8>>, t: Seq<u8>) -> Seq<Seq<u8>> {
    if ts.contains(t) {
        ts
    } else {
        ts.push(t)
    }
}

/// Inserting a list of tokens into a token sequence, set-wise, in order.
pub open spec fn insert_token_seqs(ts: Seq<Seq<u8>>, new: Seq<Seq<u8>>) -> Seq<Seq<u8>>
    decreases new.len(),
{
    if new.len() == 0 {
        ts
    } else {
        insert_token_seqs(insert_token_seq(ts, new[0]), new.drop_first())
    }
}

/// Unrolling [`insert_token_seqs`] from the back.
pub proof fn lemma_insert_token_seqs_push(ts: Seq<Seq<u8>>, new: Seq<Seq<u8>>, t: Seq<u8>)
    ensures
        insert_token_seqs(ts, new.push(t)) == insert_token_seq(insert_token_seqs(ts, new), t),
    decreases new.len(),
{
    if new.len() == 0 {
        assert(new.push(t)[0] == t);
        assert(new.push(t).drop_first() =~= Seq::<Seq<u8>>::empty());
        assert(insert_token_seqs(ts, new.push(t)) == insert_token_seqs(
            insert_token_seq(ts, t),
            new.push(t).drop_first(),
        ));
        assert(insert_token_seqs(insert_token_seq(ts, t), Seq::<Seq<u8>>::empty())
            == insert_token_seq(ts, t));
        assert(insert_token_seqs(ts, new) == ts);
    } else {
        lemma_insert_token_seqs_push(insert_token_seq(ts, new[0]), new.drop_first(), t);
        assert(new.push(t)[0] == new[0]);
        assert(new.push(t).drop_first() =~= new.drop_first().push(t));
        assert(insert_token_seqs(ts, new.push(t)) == insert_token_seqs(
            insert_token_seq(ts, new[0]),
            new.drop_first().push(t),
        ));
        assert(insert_token_seqs(ts, new) == insert_token_seqs(
            insert_token_seq(ts, new[0]),
            new.drop_first(),
        ));
    }
}

/// The text of the scope tokens in a list, joined by single spaces.
pub open spec fn join_token_views(ts: Seq<Seq<char>>) -> Seq<char>
    decreases ts.len(),
{
    if ts.len() == 0 {
        Seq::<char>::empty()
    } else if ts.len() == 1 {
        ts[0]
    } else {
        join_token_views(ts.drop_last()) + seq![' '] + ts.last()
    }
}

/// A space-free ASCII segment of a well-formed scope is a well-formed
/// scope token whose bytes are the corresponding segment of the scope's
/// bytes.
proof fn lemma_segment_token(s: Seq<char>, tb: Seq<u8>, start: int, end: int, tok: Seq<char>)
    requires
        vstd::utf8::is_ascii_chars(s),
        tb == text_bytes(s),
        tb.len() == s.len(),
        scope_bytes_grammar(tb),
        0 <= start < end <= s.len(),
        forall|j: int| start <= j < end ==> #[trigger] tb[j] != 0x20,
        tok == s.subrange(start, end),
    ensures
        vstd::utf8::is_ascii_chars(tok),
        text_bytes(tok) =~= tb.subrange(start, end),
        scope_token_grammar(tok),
{
    lemma_ascii_text_bytes(s);
    assert forall|j: int| 0 <= j < tok.len() implies '\0' <= #[trigger] tok[j] <= '\u{7f}' by {
        assert(tok[j] == s[start + j]);
    }
    lemma_ascii_text_bytes(tok);
    assert forall|j: int| 0 <= j < tok.len() implies text_bytes(tok)[j] == tb.subrange(
        start,
        end,
    )[j] by {
        assert(tok[j] == s[start + j]);
        assert(text_bytes(tok)[j] == tok[j] as u8);
        assert(tb[start + j] == s[start + j] as u8);
    }
    assert forall|j: int| 0 <= j < text_bytes(tok).len() implies spec_nqchar(
        #[trigger] text_bytes(tok)[j],
    ) by {
        assert(text_bytes(tok)[j] == tb[start + j]);
        assert(scope_byte_ok(tb[start + j]));
        assert(tb[start + j] != 0x20);
    }
}

/// Appending a space and a token to a well-formed scope: text, grammar
/// and token sequence of the result.
proof fn lemma_scope_push_token(s: Seq<char>, tok: Seq<char>, w: Seq<char>)
    requires
        vstd::utf8::is_ascii_chars(s),
        scope_bytes_grammar(text_bytes(s)),
        scope_token_grammar(tok),
        w == s + " "@ + tok,
    ensures
        vstd::utf8::is_ascii_chars(w),
        scope_bytes_grammar(text_bytes(w)),
        w == s + seq![' '] + tok,
        scope_token_seqs(text_bytes(w)) == scope_token_seqs(text_bytes(s)).push(text_bytes(tok)),
    decreases 0int,
{
    reveal_strlit(" ");
    assert(" "@ =~= seq![' ']);
    lemma_text_bytes_concat(s + " "@, tok);
    lemma_text_bytes_concat(s, " "@);
    assert(vstd::utf8::is_ascii_chars(seq![' ']));
    lemma_ascii_text_bytes(seq![' ']);
    assert(text_bytes(seq![' ']) =~= seq![0x20u8]);
    assert(text_bytes(w) =~= text_bytes(s) + seq![0x20u8] + text_bytes(tok));
    assert forall|j: int| 0 <= j < w.len() implies '\0' <= #[trigger] w[j] <= '\u{7f}' by {
        if j < s.len() {
            assert(w[j] == s[j]);
        } else if j == s.len() {
            assert(w[j] == ' ');
        } else {
            assert(w[j] == tok[j - s.len() - 1]);
        }
    }
    assert forall|j: int| 0 <= j < text_bytes(tok).len() implies #[trigger] text_bytes(tok)[j]
        != 0x20 by {
        assert(spec_nqchar(text_bytes(tok)[j]));
    }
    lemma_scope_append_grammar(text_bytes(s), text_bytes(tok));
    lemma_token_seqs_append(text_bytes(s), text_bytes(tok));
}

/// Conversion trait for types that can be turned into an optional
/// [`ScopeBuf`].
pub trait IntoScope: Sized {
    /// The text of the scope this value stands for, or `None` for the
    /// empty scope.
    spec fn into_scope_view(self) -> Option<Seq<char>>;

    /// Converts this value into an optional scope.
    ///
    /// Returns `None` if the resulting scope would be empty.
    fn into_scope(self) -> (r: Option<ScopeBuf>)
        ensures
            match r {
                Some(s) => self.into_scope_view() == Some(s@),
                None => self.into_scope_view() is None,
            },
    ;
}

impl IntoScope for Option<ScopeBuf> {
    open spec fn into_scope_view(self) -> Option<Seq<char>> {
        match self {
            Some(s) => Some(s@),
            None => None,
        }
    }

    fn into_scope(self) -> (r: Option<ScopeBuf>) {
        self
    }
}

impl IntoScope for Vec<ScopeTokenBuf> {
    open spec fn into_scope_view(self) -> Option<Seq<char>> {
        if self@.len() == 0 {
            None
        } else {
            Some(join_token_views(Seq::new(self@.len(), |i: int| self@[i]@)))
        }
    }

    fn into_scope(self) -> (r: Option<ScopeBuf>) {
        Scope::from_tokens(&self)
    }
}

} // verus!
