//! A URI model: scheme, authority, path, query and fragment as plain
//! strings.
//!
//! The library manipulates URIs structurally — it appends query
//! parameters and merges well-known path segments — so it keeps a URI as
//! its five components, with a well-formedness invariant, rather than as
//! an opaque value. Parsing is specified by [`spec_parse_uri`], a
//! functional description of the split; `UriBuf::new` is proved to
//! return exactly what it returns, and parsed components reassemble to
//! the input text.

use vstd::prelude::*;
use vstd::string::{StrSliceExecFns, StringExecFns};

use crate::types::{GrammarError, lemma_ascii_text_bytes, lemma_sub_bytes, lemma_text_bytes_concat,
    text_bytes};

verus! {

/// A byte that may appear in a URI: visible ASCII.
pub open spec fn uri_byte(c: u8) -> bool {
    0x21 <= c <= 0x7e
}

/// An ASCII letter.
pub open spec fn alpha_byte(c: u8) -> bool {
    (0x41 <= c <= 0x5a) || (0x61 <= c <= 0x7a)
}

/// A byte of a URI scheme: a letter, a digit, `+`, `-` or `.`.
pub open spec fn scheme_byte(c: u8) -> bool {
    alpha_byte(c) || (0x30 <= c <= 0x39) || c == 0x2b || c == 0x2d || c == 0x2e
}

/// Every byte in the range `[from, to)` is a URI byte.
pub open spec fn uri_bytes_in(b: Seq<u8>, from: int, to: int) -> bool {
    forall|i: int| from <= i < to ==> uri_byte(#[trigger] b[i])
}

/// The components of a URI, as byte sequences.
pub struct UriPartsView {
    /// Scheme, without the `:`.
    pub scheme: Seq<u8>,
    /// Authority, without the `//`, if present.
    pub authority: Option<Seq<u8>>,
    /// Path, possibly empty.
    pub path: Seq<u8>,
    /// Query, without the `?`, if present.
    pub query: Option<Seq<u8>>,
    /// Fragment, without the `#`, if present.
    pub fragment: Option<Seq<u8>>,
}

/// The text of a URI with the given components.
pub open spec fn uri_parts_bytes(p: UriPartsView) -> Seq<u8> {
    p.scheme + seq![0x3au8] + (match p.authority {
        Some(a) => seq![0x2fu8, 0x2fu8] + a,
        None => Seq::<u8>::empty(),
    }) + p.path + (match p.query {
        Some(q) => seq![0x3fu8] + q,
        None => Seq::<u8>::empty(),
    }) + (match p.fragment {
        Some(f) => seq![0x23u8] + f,
        None => Seq::<u8>::empty(),
    })
}

/// Well-formed URI components.
pub open spec fn uri_parts_wf(p: UriPartsView) -> bool {
    &&& p.scheme.len() >= 1
    &&& alpha_byte(p.scheme[0])
    &&& forall|i: int| 0 <= i < p.scheme.len() ==> scheme_byte(#[trigger] p.scheme[i])
    &&& match p.authority {
        Some(a) => forall|i: int|
            0 <= i < a.len() ==> uri_byte(#[trigger] a[i]) && a[i] != 0x2f && a[i] != 0x3f && a[i]
                != 0x23,
        None => true,
    }
    &&& forall|i: int|
        0 <= i < p.path.len() ==> uri_byte(#[trigger] p.path[i]) && p.path[i] != 0x3f && p.path[i]
            != 0x23
    &&& (p.authority is Some ==> p.path.len() == 0 || p.path[0] == 0x2f)
    &&& (p.authority is None ==> !(p.path.len() >= 2 && p.path[0] == 0x2f && p.path[1] == 0x2f))
    &&& match p.query {
        Some(q) => forall|i: int| 0 <= i < q.len() ==> uri_byte(#[trigger] q[i]) && q[i] != 0x23,
        None => true,
    }
    &&& match p.fragment {
        Some(f) => forall|i: int| 0 <= i < f.len() ==> uri_byte(#[trigger] f[i]),
        None => true,
    }
}

/// The first position at or after `from` holding one of three stop
/// bytes, or the end of the sequence.
pub open spec fn seek(b: Seq<u8>, from: int, s1: u8, s2: u8, s3: u8) -> int
    decreases b.len() - from,
{
    if from < 0 || from >= b.len() {
        b.len() as int
    } else if b[from] == s1 || b[from] == s2 || b[from] == s3 {
        from
    } else {
        seek(b, from + 1, s1, s2, s3)
    }
}

/// The first position at or after `from` holding a byte that is not a
/// scheme byte, or the end of the sequence.
pub open spec fn seek_non_scheme(b: Seq<u8>, from: int) -> int
    decreases b.len() - from,
{
    if from < 0 || from >= b.len() {
        b.len() as int
    } else if !scheme_byte(b[from]) {
        from
    } else {
        seek_non_scheme(b, from + 1)
    }
}

/// Splits a byte sequence into URI components: scheme up to the first
/// `:`, then `//` and the authority up to the first `/`, `?` or `#`,
/// then the path up to the first `?` or `#`, then the query up to the
/// first `#`, then the fragment. `None` when the scheme is missing or a
/// byte is not allowed where it stands.
pub open spec fn spec_parse_uri(b: Seq<u8>) -> Option<UriPartsView> {
    let ci = seek_non_scheme(b, 0);
    if ci < 1 || ci >= b.len() || b[ci] != 0x3a || !alpha_byte(b[0]) {
        None
    } else {
        let rs = ci + 1;
        let has_auth = rs + 1 < b.len() && b[rs] == 0x2f && b[rs + 1] == 0x2f;
        let astart = if has_auth {
            rs + 2
        } else {
            rs
        };
        let aend = if has_auth {
            seek(b, astart, 0x2f, 0x3f, 0x23)
        } else {
            astart
        };
        let pend = seek(b, aend, 0x3f, 0x23, 0x23);
        let qend = if pend < b.len() && b[pend] == 0x3f {
            seek(b, pend + 1, 0x23, 0x23, 0x23)
        } else {
            pend
        };
        if !uri_bytes_in(b, astart, b.len() as int) {
            None
        } else {
            Some(
                UriPartsView {
                    scheme: b.take(ci),
                    authority: if has_auth {
                        Some(b.subrange(astart, aend))
                    } else {
                        None
                    },
                    path: b.subrange(aend, pend),
                    query: if pend < b.len() && b[pend] == 0x3f {
                        Some(b.subrange(pend + 1, qend))
                    } else {
                        None
                    },
                    fragment: if qend < b.len() {
                        Some(b.subrange(qend + 1, b.len() as int))
                    } else {
                        None
                    },
                },
            )
        }
    }
}

/// Bounds and stop properties of [`seek`].
pub proof fn lemma_seek(b: Seq<u8>, from: int, s1: u8, s2: u8, s3: u8)
    requires
        0 <= from <= b.len(),
    ensures
        from <= seek(b, from, s1, s2, s3) <= b.len(),
        seek(b, from, s1, s2, s3) < b.len() ==> (b[seek(b, from, s1, s2, s3)] == s1 || b[seek(
            b,
            from,
            s1,
            s2,
            s3,
        )] == s2 || b[seek(b, from, s1, s2, s3)] == s3),
        forall|i: int|
            from <= i < seek(b, from, s1, s2, s3) ==> #[trigger] b[i] != s1 && b[i] != s2 && b[i]
                != s3,
    decreases b.len() - from,
{
    if from < b.len() && !(b[from] == s1 || b[from] == s2 || b[from] == s3) {
        lemma_seek(b, from + 1, s1, s2, s3);
    }
}

/// Bounds and stop properties of [`seek_non_scheme`].
pub proof fn lemma_seek_non_scheme(b: Seq<u8>, from: int)
    requires
        0 <= from <= b.len(),
    ensures
        from <= seek_non_scheme(b, from) <= b.len(),
        seek_non_scheme(b, from) < b.len() ==> !scheme_byte(b[seek_non_scheme(b, from)]),
        forall|i: int| from <= i < seek_non_scheme(b, from) ==> scheme_byte(#[trigger] b[i]),
    decreases b.len() - from,
{
    if from < b.len() && scheme_byte(b[from]) {
        lemma_seek_non_scheme(b, from + 1);
    }
}

/// Returns `true` if the byte is an ASCII letter.
fn is_alpha_byte(c: u8) -> (r: bool)
    ensures
        r == alpha_byte(c),
{
    (c >= 0x41 && c <= 0x5a) || (c >= 0x61 && c <= 0x7a)
}

/// Returns `true` if the byte may appear in a URI scheme.
fn is_scheme_byte(c: u8) -> (r: bool)
    ensures
        r == scheme_byte(c),
{
    is_alpha_byte(c) || (c >= 0x30 && c <= 0x39) || c == 0x2b || c == 0x2d || c == 0x2e
}

/// Finds the first position at or after `from` holding one of three stop
/// bytes.
fn seek_fwd(bytes: &[u8], from: usize, s1: u8, s2: u8, s3: u8) -> (r: usize)
    requires
        from <= bytes@.len(),
    ensures
        r == seek(bytes@, from as int, s1, s2, s3),
{
    let mut i = from;
    while i < bytes.len()
        invariant
            from <= i <= bytes@.len(),
            seek(bytes@, from as int, s1, s2, s3) == seek(bytes@, i as int, s1, s2, s3),
        decreases bytes@.len() - i,
    {
        if bytes[i] == s1 || bytes[i] == s2 || bytes[i] == s3 {
            return i;
        }
        proof {
            assert(seek(bytes@, i as int, s1, s2, s3) == seek(bytes@, i + 1, s1, s2, s3));
        }
        i += 1;
    }
    i
}

/// Finds the first position at or after `from` holding a byte that is
/// not a scheme byte.
fn seek_fwd_non_scheme(bytes: &[u8], from: usize) -> (r: usize)
    requires
        from <= bytes@.len(),
    ensures
        r == seek_non_scheme(bytes@, from as int),
{
    let mut i = from;
    while i < bytes.len()
        invariant
            from <= i <= bytes@.len(),
            seek_non_scheme(bytes@, from as int) == seek_non_scheme(bytes@, i as int),
        decreases bytes@.len() - i,
    {
        if !is_scheme_byte(bytes[i]) {
            return i;
        }
        proof {
            assert(seek_non_scheme(bytes@, i as int) == seek_non_scheme(bytes@, i + 1));
        }
        i += 1;
    }
    i
}

/// Checks that every byte from `from` on is a URI byte.
fn check_uri_bytes(bytes: &[u8], from: usize) -> (r: bool)
    requires
        from <= bytes@.len(),
    ensures
        r == uri_bytes_in(bytes@, from as int, bytes@.len() as int),
{
    let mut i = from;
    while i < bytes.len()
        invariant
            from <= i <= bytes@.len(),
            forall|j: int| from <= j < i ==> uri_byte(#[trigger] bytes@[j]),
        decreases bytes@.len() - i,
    {
        if !(bytes[i] >= 0x21 && bytes[i] <= 0x7e) {
            return false;
        }
        i += 1;
    }
    true
}

/// An owned URI, kept as its components.
///
/// Every value satisfies [`uri_parts_wf`]; `new` parses text into
/// components as [`spec_parse_uri`] describes, and `to_text` writes the
/// components back out.
#[derive(Debug, PartialEq, Eq, Hash)]
pub struct UriBuf {
    scheme: String,
    authority: Option<String>,
    path: String,
    query: Option<String>,
    fragment: Option<String>,
}

impl Clone for UriBuf {
    fn clone(&self) -> (r: Self)
        ensures
            r.parts() == self.parts(),
    {
        proof {
            use_type_invariant(self);
        }
        UriBuf {
            scheme: self.scheme.clone(),
            authority: clone_opt_string(&self.authority),
            path: self.path.clone(),
            query: clone_opt_string(&self.query),
            fragment: clone_opt_string(&self.fragment),
        }
    }
}

/// Clones an optional string.
fn clone_opt_string(s: &Option<String>) -> (r: Option<String>)
    ensures
        match r {
            Some(x) => opt_string_view(s) == Some(x@),
            None => opt_string_view(s) is None,
        },
{
    match s {
        Some(x) => Some(x.clone()),
        None => None,
    }
}

/// The text of an optional string.
pub open spec fn opt_string_view(s: &Option<String>) -> Option<Seq<char>> {
    match *s {
        Some(ref x) => Some(x@),
        None => None,
    }
}

/// The bytes of an optional string.
pub open spec fn opt_text_bytes(s: Option<Seq<char>>) -> Option<Seq<u8>> {
    match s {
        Some(x) => Some(text_bytes(x)),
        None => None,
    }
}

/// ASCII-ness of an optional text.
pub open spec fn opt_ascii(s: Option<Seq<char>>) -> bool {
    match s {
        Some(x) => vstd::utf8::is_ascii_chars(x),
        None => true,
    }
}

impl UriBuf {
    /// The URI's components, as bytes.
    pub closed spec fn parts(self) -> UriPartsView {
        UriPartsView {
            scheme: text_bytes(self.scheme@),
            authority: opt_text_bytes(opt_string_view(&self.authority)),
            path: text_bytes(self.path@),
            query: opt_text_bytes(opt_string_view(&self.query)),
            fragment: opt_text_bytes(opt_string_view(&self.fragment)),
        }
    }

    /// The URI's full text, as bytes.
    pub open spec fn bytes_view(self) -> Seq<u8> {
        uri_parts_bytes(self.parts())
    }

    closed spec fn all_ascii(self) -> bool {
        &&& vstd::utf8::is_ascii_chars(self.scheme@)
        &&& opt_ascii(opt_string_view(&self.authority))
        &&& vstd::utf8::is_ascii_chars(self.path@)
        &&& opt_ascii(opt_string_view(&self.query))
        &&& opt_ascii(opt_string_view(&self.fragment))
    }

    #[verifier::type_invariant]
    spec fn inv(self) -> bool {
        self.all_ascii() && uri_parts_wf(self.parts())
    }

    /// Parses a URI from text.
    pub fn new(s: &str) -> (r: Result<UriBuf, GrammarError>)
        ensures
            r is Ok <==> vstd::utf8::is_ascii_chars(s@) && spec_parse_uri(text_bytes(s@)) is Some,
            r matches Ok(u) ==> Some(u.parts()) == spec_parse_uri(text_bytes(s@)),
            r matches Ok(u) ==> u.bytes_view() == text_bytes(s@),
    {
        if !s.is_ascii() {
            return Err(GrammarError);
        }
        proof {
            lemma_ascii_text_bytes(s@);
        }
        let bytes = s.as_bytes();
        let ghost b: Seq<u8> = text_bytes(s@);
        let n = bytes.len();
        let ci = seek_fwd_non_scheme(bytes, 0);
        proof {
            lemma_seek_non_scheme(b, 0);
        }
        if ci < 1 || ci >= n || bytes[ci] != 0x3a || !is_alpha_byte(bytes[0]) {
            return Err(GrammarError);
        }
        let rs = ci + 1;
        let has_auth = rs < n && rs + 1 < n && bytes[rs] == 0x2f && bytes[rs + 1] == 0x2f;
        let astart = if has_auth {
            rs + 2
        } else {
            rs
        };
        proof {
            assert(astart <= n);
        }
        let aend = if has_auth {
            seek_fwd(bytes, astart, 0x2f, 0x3f, 0x23)
        } else {
            astart
        };
        proof {
            lemma_seek(b, astart as int, 0x2f, 0x3f, 0x23);
        }
        let pend = seek_fwd(bytes, aend, 0x3f, 0x23, 0x23);
        proof {
            lemma_seek(b, aend as int, 0x3f, 0x23, 0x23);
        }
        let qend = if pend < n && bytes[pend] == 0x3f {
            seek_fwd(bytes, pend + 1, 0x23, 0x23, 0x23)
        } else {
            pend
        };
        proof {
            if pend < n && b[pend as int] == 0x3f {
                lemma_seek(b, pend + 1, 0x23, 0x23, 0x23);
            }
        }
        if !check_uri_bytes(bytes, astart) {
            return Err(GrammarError);
        }
        let scheme = s.substring_ascii(0, ci).to_owned();
        let authority = if has_auth {
            Some(s.substring_ascii(astart, aend).to_owned())
        } else {
            None
        };
        let path = s.substring_ascii(aend, pend).to_owned();
        let query = if pend < n && bytes[pend] == 0x3f {
            Some(s.substring_ascii(pend + 1, qend).to_owned())
        } else {
            None
        };
        let fragment = if qend < n {
            Some(s.substring_ascii(qend + 1, n).to_owned())
        } else {
            None
        };
        proof {
            let sp = spec_parse_uri(b).unwrap();
            lemma_parse_uri_sound(b);
            lemma_sub_bytes(s@, 0, ci as int);
            assert(text_bytes(scheme@) =~= b.take(ci as int));
            if has_auth {
                lemma_sub_bytes(s@, astart as int, aend as int);
                assert(text_bytes(authority.unwrap()@) =~= b.subrange(astart as int, aend as int));
            }
            lemma_sub_bytes(s@, aend as int, pend as int);
            assert(text_bytes(path@) =~= b.subrange(aend as int, pend as int));
            if pend < n && b[pend as int] == 0x3f {
                lemma_sub_bytes(s@, pend + 1, qend as int);
                assert(text_bytes(query.unwrap()@) =~= b.subrange(pend + 1, qend as int));
            }
            if qend < n {
                lemma_sub_bytes(s@, qend + 1, n as int);
                assert(text_bytes(fragment.unwrap()@) =~= b.subrange(qend + 1, n as int));
            }
            assert(opt_text_bytes(opt_string_view(&authority)) == sp.authority);
            assert(opt_text_bytes(opt_string_view(&query)) == sp.query);
            assert(opt_text_bytes(opt_string_view(&fragment)) == sp.fragment);
        }
        let u = UriBuf { scheme, authority, path, query, fragment };
        proof {
            assert(u.parts() == spec_parse_uri(b).unwrap());
        }
        Ok(u)
    }

    /// Writes the URI's components back out as text.
    #[verifier::rlimit(50)]
    pub fn to_text(&self) -> (r: String)
        ensures
            text_bytes(r@) == self.bytes_view(),
            vstd::utf8::is_ascii_chars(r@),
    {
        proof {
            use_type_invariant(self);
            reveal_strlit(":");
            reveal_strlit("//");
            reveal_strlit("?");
            reveal_strlit("#");
            assert(":"@ =~= seq![':']);
            assert("//"@ =~= seq!['/', '/']);
            assert("?"@ =~= seq!['?']);
            assert("#"@ =~= seq!['#']);
            lemma_lit_bytes();
        }
        let mut out = self.scheme.clone();
        append_ascii(&mut out, ":");
        if let Some(a) = &self.authority {
            append_ascii(&mut out, "//");
            append_ascii(&mut out, a.as_str());
        }
        append_ascii(&mut out, self.path.as_str());
        if let Some(q) = &self.query {
            append_ascii(&mut out, "?");
            append_ascii(&mut out, q.as_str());
        }
        if let Some(f) = &self.fragment {
            append_ascii(&mut out, "#");
            append_ascii(&mut out, f.as_str());
        }
        proof {
            assert(text_bytes(out@) =~= self.bytes_view());
        }
        out
    }

    /// Returns the scheme text, without the `:`.
    pub fn scheme_str(&self) -> (r: &str)
        ensures
            text_bytes(r@) == self.parts().scheme,
            vstd::utf8::is_ascii_chars(r@),
    {
        proof {
            use_type_invariant(self);
        }
        self.scheme.as_str()
    }

    /// Returns the authority text, without the `//`, if present.
    pub fn authority_str(&self) -> (r: Option<&str>)
        ensures
            match r {
                Some(a) => self.parts().authority == Some(text_bytes(a@)) && vstd::utf8::is_ascii_chars(a@),
                None => self.parts().authority is None,
            },
    {
        proof {
            use_type_invariant(self);
        }
        match &self.authority {
            Some(a) => Some(a.as_str()),
            None => None,
        }
    }

    /// Returns the path text.
    pub fn path_str(&self) -> (r: &str)
        ensures
            text_bytes(r@) == self.parts().path,
            vstd::utf8::is_ascii_chars(r@),
            forall|i: int|
                0 <= i < text_bytes(r@).len() ==> uri_byte(#[trigger] text_bytes(r@)[i])
                    && text_bytes(r@)[i] != 0x3f && text_bytes(r@)[i] != 0x23,
    {
        proof {
            use_type_invariant(self);
        }
        self.path.as_str()
    }

    /// Returns the query text, without the `?`, if present.
    pub fn query_str(&self) -> (r: Option<&str>)
        ensures
            match r {
                Some(q) => self.parts().query == Some(text_bytes(q@))
                    && vstd::utf8::is_ascii_chars(q@) && forall|i: int|
                    0 <= i < text_bytes(q@).len() ==> uri_byte(#[trigger] text_bytes(q@)[i])
                        && text_bytes(q@)[i] != 0x23,
                None => self.parts().query is None,
            },
    {
        proof {
            use_type_invariant(self);
        }
        match &self.query {
            Some(q) => {
                proof {
                    assert(self.parts().query == Some(text_bytes(q@)));
                    assert(vstd::utf8::is_ascii_chars(q@));
                    assert(uri_parts_wf(self.parts()));
                    assert forall|i: int| 0 <= i < text_bytes(q@).len() implies uri_byte(
                        #[trigger] text_bytes(q@)[i],
                    ) && text_bytes(q@)[i] != 0x23 by {
                        let qq = self.parts().query.unwrap();
                        assert(qq == text_bytes(q@));
                        assert(uri_byte(qq[i]) && qq[i] != 0x23);
                    }
                }
                Some(q.as_str())
            },
            None => None,
        }
    }

    /// Returns the fragment text, without the `#`, if present.
    pub fn fragment_str(&self) -> (r: Option<&str>)
        ensures
            match r {
                Some(f) => self.parts().fragment == Some(text_bytes(f@)) && vstd::utf8::is_ascii_chars(f@),
                None => self.parts().fragment is None,
            },
    {
        proof {
            use_type_invariant(self);
        }
        match &self.fragment {
            Some(f) => Some(f.as_str()),
            None => None,
        }
    }

    /// Replaces the query with already-checked query text.
    pub(crate) fn replace_query(&self, q: String) -> (r: UriBuf)
        requires
            vstd::utf8::is_ascii_chars(q@),
            forall|i: int|
                0 <= i < text_bytes(q@).len() ==> uri_byte(#[trigger] text_bytes(q@)[i])
                    && text_bytes(q@)[i] != 0x23,
        ensures
            r.parts() == (UriPartsView { query: Some(text_bytes(q@)), ..self.parts() }),
    {
        proof {
            use_type_invariant(self);
        }
        UriBuf {
            scheme: self.scheme.clone(),
            authority: clone_opt_string(&self.authority),
            path: self.path.clone(),
            query: Some(q),
            fragment: clone_opt_string(&self.fragment),
        }
    }

    /// Builds a URI from already-checked components: the scheme,
    /// authority, query and fragment of `base`, with `path` as the path.
    pub(crate) fn with_path_of(base: &UriBuf, path: String) -> (r: UriBuf)
        requires
            vstd::utf8::is_ascii_chars(path@),
            forall|i: int|
                0 <= i < text_bytes(path@).len() ==> uri_byte(#[trigger] text_bytes(path@)[i])
                    && text_bytes(path@)[i] != 0x3f && text_bytes(path@)[i] != 0x23,
            base.parts().authority is Some ==> text_bytes(path@).len() == 0 || text_bytes(
                path@,
            )[0] == 0x2f,
            base.parts().authority is None ==> !(text_bytes(path@).len() >= 2 && text_bytes(
                path@,
            )[0] == 0x2f && text_bytes(path@)[1] == 0x2f),
        ensures
            r.parts() == (UriPartsView { path: text_bytes(path@), ..base.parts() }),
    {
        proof {
            use_type_invariant(base);
        }
        UriBuf {
            scheme: base.scheme.clone(),
            authority: clone_opt_string(&base.authority),
            path,
            query: clone_opt_string(&base.query),
            fragment: clone_opt_string(&base.fragment),
        }
    }
}

/// Appends ASCII text to ASCII text.
fn append_ascii(out: &mut String, s: &str)
    requires
        vstd::utf8::is_ascii_chars(old(out)@),
        vstd::utf8::is_ascii_chars(s@),
    ensures
        final(out)@ == old(out)@ + s@,
        vstd::utf8::is_ascii_chars(final(out)@),
        text_bytes(final(out)@) == text_bytes(old(out)@) + text_bytes(s@),
{
    proof {
        crate::types::lemma_ascii_concat(out@, s@);
        lemma_text_bytes_concat(out@, s@);
    }
    out.append(s);
}

/// The bytes of the URI separator literals.
proof fn lemma_lit_bytes()
    ensures
        text_bytes(seq![':']) =~= seq![0x3au8],
        text_bytes(seq!['/', '/']) =~= seq![0x2fu8, 0x2fu8],
        text_bytes(seq!['?']) =~= seq![0x3fu8],
        text_bytes(seq!['#']) =~= seq![0x23u8],
        vstd::utf8::is_ascii_chars(seq![':']),
        vstd::utf8::is_ascii_chars(seq!['/', '/']),
        vstd::utf8::is_ascii_chars(seq!['?']),
        vstd::utf8::is_ascii_chars(seq!['#']),
{
    lemma_ascii_text_bytes(seq![':']);
    lemma_ascii_text_bytes(seq!['/', '/']);
    lemma_ascii_text_bytes(seq!['?']);
    lemma_ascii_text_bytes(seq!['#']);
}

/// Parsed components are well-formed and reassemble to the input.
pub proof fn lemma_parse_uri_sound(b: Seq<u8>)
    requires
        spec_parse_uri(b) is Some,
    ensures
        uri_parts_wf(spec_parse_uri(b).unwrap()),
        uri_parts_bytes(spec_parse_uri(b).unwrap()) == b,
{
    let p = spec_parse_uri(b).unwrap();
    let ci = seek_non_scheme(b, 0);
    lemma_seek_non_scheme(b, 0);
    let rs = ci + 1;
    let has_auth = rs + 1 < b.len() && b[rs] == 0x2f && b[rs + 1] == 0x2f;
    let astart = if has_auth {
        rs + 2
    } else {
        rs
    };
    let aend = if has_auth {
        seek(b, astart, 0x2f, 0x3f, 0x23)
    } else {
        astart
    };
    lemma_seek(b, astart, 0x2f, 0x3f, 0x23);
    let pend = seek(b, aend, 0x3f, 0x23, 0x23);
    lemma_seek(b, aend, 0x3f, 0x23, 0x23);
    let qend = if pend < b.len() && b[pend] == 0x3f {
        seek(b, pend + 1, 0x23, 0x23, 0x23)
    } else {
        pend
    };
    if pend < b.len() && b[pend] == 0x3f {
        lemma_seek(b, pend + 1, 0x23, 0x23, 0x23);
    }
    assert(uri_parts_wf(p));
    assert(uri_parts_bytes(p) =~= b);
}

} // verus!
