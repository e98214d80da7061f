//! The authority of a URI (`host`, `host:port`, `user@host:port`), kept as the
//! key under which HTTP/1 connections are told apart.

use vstd::prelude::*;
use vstd::std_specs::cmp::PartialEqSpecImpl;

verus! {

/// Whether `text` is accepted as a URI authority by the `http` crate's parser
/// (`str::parse::<http::uri::Authority>`).
///
/// The grammar is the parser's own: it is given a name here and not restated.
pub uninterp spec fn authority_syntax(text: Seq<char>) -> bool;

/// The ASCII lower-case form of one character: `A`..`Z` become `a`..`z`,
/// every other character stays as it is.
pub open spec fn ascii_lower(c: char) -> char {
    if 'A' <= c && c <= 'Z' {
        ((c as u32) + 32) as char
    } else {
        c
    }
}

/// `text` with each character replaced by its ASCII lower-case form.
pub open spec fn ascii_lowercase(text: Seq<char>) -> Seq<char> {
    Seq::new(text.len(), |i: int| ascii_lower(text[i]))
}

/// Whether a byte of a header value is visible ASCII: a printable character,
/// a space or a tab.
pub open spec fn visible_ascii(b: u8) -> bool {
    (32 <= b && b < 127) || b == 9
}

/// The bytes of a header value read as characters, one character per byte.
pub open spec fn header_chars(value: Seq<u8>) -> Seq<char> {
    Seq::new(value.len(), |i: int| value[i] as char)
}

/// The text of a header value: its bytes as characters where every byte is
/// visible ASCII, nothing otherwise.
pub open spec fn header_text(value: Seq<u8>) -> Option<Seq<char>> {
    if forall|i: int| 0 <= i < value.len() ==> visible_ascii(#[trigger] value[i]) {
        Some(header_chars(value))
    } else {
        None
    }
}

/// The authority that a header value spells: the lower-case form of its text
/// where the value has a text and the text is an authority, nothing otherwise.
pub open spec fn header_authority(value: Seq<u8>) -> Option<Seq<char>> {
    match header_text(value) {
        Some(text) => if authority_syntax(text) {
            Some(ascii_lowercase(text))
        } else {
            None
        },
        None => None,
    }
}

/// A parsed URI authority.
///
/// Two authorities name the same destination when their texts agree up to the
/// case of ASCII letters. The value therefore keeps the lower-case form of the
/// text it was parsed from, so that equal authorities are equal texts and hash
/// alike.
#[derive(Debug, Eq, Hash)]
pub struct Authority {
    text: String,
}

impl View for Authority {
    type V = Seq<char>;

    /// The authority's text, in lower case.
    closed spec fn view(&self) -> Seq<char> {
        self.text@
    }
}

impl Authority {
    /// The text that is kept is its own lower-case form.
    #[verifier::type_invariant]
    spec fn in_lower_case(&self) -> bool {
        self.text@ == ascii_lowercase(self.text@)
    }
}

/// Putting a text in lower case twice is putting it in lower case once.
pub proof fn lemma_ascii_lowercase_twice(text: Seq<char>)
    ensures
        ascii_lowercase(ascii_lowercase(text)) == ascii_lowercase(text),
{
    assert forall|i: int| 0 <= i < text.len() implies ascii_lower(#[trigger] ascii_lower(text[i]))
        == ascii_lower(text[i]) by {
        let c = text[i];
        if 'A' <= c && c <= 'Z' {
            assert(((c as u32) + 32) as char as u32 == c as u32 + 32);
        }
    }
    assert(ascii_lowercase(ascii_lowercase(text)) =~= ascii_lowercase(text));
}

/// Trusted: calls `<http::uri::Authority as FromStr>::from_str` through
/// `str::parse` and reports whether it returned `Ok`. The claim is only that
/// the answer depends on the characters of `text` and on nothing else.
#[verifier::external_body]
fn parses_as_authority(text: &str) -> (ok: bool)
    ensures
        ok == authority_syntax(text@),
{
    text.parse::<http::uri::Authority>().is_ok()
}

/// Trusted: calls `str::to_ascii_lowercase`, which returns a copy of the
/// string with `A`..`Z` mapped to `a`..`z` and every other character unchanged.
#[verifier::external_body]
fn to_ascii_lowercase(text: &str) -> (lower: String)
    ensures
        lower@ == ascii_lowercase(text@),
{
    text.to_ascii_lowercase()
}

/// Trusted: builds an `http::header::HeaderValue` from the bytes with
/// `HeaderValue::from_bytes` and reads it back with `HeaderValue::to_str`.
/// The first refuses control bytes other than a tab, the second refuses
/// whatever is not visible ASCII; together they yield a string exactly when
/// every byte is visible ASCII, and the string then has one character per byte.
#[verifier::external_body]
fn header_value_text(value: &[u8]) -> (text: Option<String>)
    ensures
        text is Some <==> header_text(value@) is Some,
        text matches Some(t) ==> Some(t@) == header_text(value@),
{
    let header = http::header::HeaderValue::from_bytes(value).ok()?;
    let text = header.to_str().ok()?;
    Some(text.to_owned())
}

impl Authority {
    /// Parses `text` as an authority.
    ///
    /// Succeeds exactly on the texts that the `http` crate accepts as an
    /// authority. The value then stands for `text` in lower case.
    pub fn parse(text: &str) -> (parsed: Option<Authority>)
        ensures
            parsed is Some <==> authority_syntax(text@),
            parsed matches Some(authority) ==> authority@ == ascii_lowercase(text@),
    {
        if parses_as_authority(text) {
            proof {
                lemma_ascii_lowercase_twice(text@);
            }
            Some(Authority { text: to_ascii_lowercase(text) })
        } else {
            None
        }
    }

    /// Reads the value of a header, such as `Host`, as an authority.
    ///
    /// Succeeds exactly when every byte of the value is visible ASCII and the
    /// text they spell is an authority.
    pub fn from_header_value(value: &[u8]) -> (parsed: Option<Authority>)
        ensures
            parsed is Some <==> header_authority(value@) is Some,
            parsed matches Some(authority) ==> Some(authority@) == header_authority(value@),
    {
        match header_value_text(value) {
            Some(text) => Authority::parse(text.as_str()),
            None => None,
        }
    }

    /// The authority's text, in lower case.
    pub fn as_str(&self) -> (text: &str)
        ensures
            text@ == self@,
            text@ == ascii_lowercase(text@),
    {
        proof {
            use_type_invariant(self);
        }
        self.text.as_str()
    }
}

impl Clone for Authority {
    fn clone(&self) -> (copy: Self)
        ensures
            copy@ == self@,
    {
        proof {
            use_type_invariant(self);
        }
        Authority { text: self.text.clone() }
    }
}

impl PartialEq for Authority {
    fn eq(&self, other: &Self) -> (equal: bool) {
        self.text == other.text
    }
}

impl PartialEqSpecImpl for Authority {
    open spec fn obeys_eq_spec() -> bool {
        true
    }

    open spec fn eq_spec(&self, other: &Self) -> bool {
        self@ == other@
    }
}

} // verus!
