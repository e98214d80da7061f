//! The protocol part of the key under which a request's connection is found:
//! HTTP/2, or HTTP/1 together with the host the request is for.

use vstd::prelude::*;
use vstd::std_specs::cmp::PartialEqSpecImpl;

use crate::authority::{header_authority, Authority};

verus! {

/// The wire version of a request.
#[derive(Clone, Copy, Debug, PartialEq, Eq, Hash, Structural)]
pub enum Version {
    Http09,
    Http10,
    Http11,
    Http2,
}

/// What classification reads of a request: its version, the authority of its
/// URI if the URI has one, and the value of its first `Host` header if it has
/// such a header. Method, path, other headers and body play no part.
#[derive(Debug)]
pub struct RequestHead {
    pub version: Version,
    pub authority: Option<Authority>,
    pub host: Option<Vec<u8>>,
}

/// The host of an HTTP/1 request, where one could be derived.
///
/// `NoAuthority` is equal to nothing, not even to itself: a request whose
/// host is unknown must never be served by a connection that was opened for
/// another request.
#[derive(Debug, Eq, Hash)]
pub enum Host {
    Authority(Authority),
    NoAuthority,
}

/// Whether to use HTTP/2 or HTTP/1.x for a request. HTTP/2 multiplexes every
/// host over one connection; HTTP/1.x needs a connection per host, so the
/// host is part of the key.
#[derive(Debug, Eq, Hash)]
pub enum Protocol {
    Http1(Host),
    Http2,
}

/// The mathematical value of a [`Host`].
pub enum HostKey {
    Authority(Seq<char>),
    NoAuthority,
}

/// The mathematical value of a [`Protocol`].
pub enum ProtocolKey {
    Http1(HostKey),
    Http2,
}

impl HostKey {
    /// The equality of hosts: two known authorities with the same text.
    pub open spec fn key_eq(self, other: HostKey) -> bool {
        match (self, other) {
            (HostKey::Authority(a), HostKey::Authority(b)) => a == b,
            _ => false,
        }
    }
}

impl ProtocolKey {
    /// The equality of protocols: both HTTP/2, or both HTTP/1 with equal hosts.
    pub open spec fn key_eq(self, other: ProtocolKey) -> bool {
        match (self, other) {
            (ProtocolKey::Http2, ProtocolKey::Http2) => true,
            (ProtocolKey::Http1(a), ProtocolKey::Http1(b)) => a.key_eq(b),
            _ => false,
        }
    }
}

impl View for Host {
    type V = HostKey;

    open spec fn view(&self) -> HostKey {
        match *self {
            Host::Authority(authority) => HostKey::Authority(authority@),
            Host::NoAuthority => HostKey::NoAuthority,
        }
    }
}

impl View for Protocol {
    type V = ProtocolKey;

    open spec fn view(&self) -> ProtocolKey {
        match *self {
            Protocol::Http1(host) => ProtocolKey::Http1(host@),
            Protocol::Http2 => ProtocolKey::Http2,
        }
    }
}

/// The text of an authority that may be absent.
pub open spec fn authority_text(authority: Option<Authority>) -> Option<Seq<char>> {
    match authority {
        Some(a) => Some(a@),
        None => None,
    }
}

/// The host of an HTTP/1 request: the authority of its URI where there is one,
/// else the authority that its `Host` header spells, else unknown.
pub open spec fn derived_host(uri: Option<Seq<char>>, header: Option<Seq<char>>) -> HostKey {
    match uri {
        Some(text) => HostKey::Authority(text),
        None => match header {
            Some(text) => HostKey::Authority(text),
            None => HostKey::NoAuthority,
        },
    }
}

/// The key of a request with the given version, URI authority and `Host`
/// header authority.
pub open spec fn key_for(
    version: Version,
    uri: Option<Seq<char>>,
    header: Option<Seq<char>>,
) -> ProtocolKey {
    if version == Version::Http2 {
        ProtocolKey::Http2
    } else {
        ProtocolKey::Http1(derived_host(uri, header))
    }
}

/// The authority spelled by the `Host` header of a request, if it has one.
pub open spec fn host_header_authority(host: Option<Vec<u8>>) -> Option<Seq<char>> {
    match host {
        Some(value) => header_authority(value@),
        None => None,
    }
}

/// The key of a request.
pub open spec fn classified(head: &RequestHead) -> ProtocolKey {
    key_for(head.version, authority_text(head.authority), host_header_authority(head.host))
}

impl Clone for Host {
    fn clone(&self) -> (copy: Self)
        ensures
            copy@ == self@,
    {
        match self {
            Host::Authority(authority) => Host::Authority(authority.clone()),
            Host::NoAuthority => Host::NoAuthority,
        }
    }
}

impl Clone for Protocol {
    fn clone(&self) -> (copy: Self)
        ensures
            copy@ == self@,
    {
        match self {
            Protocol::Http1(host) => Protocol::Http1(host.clone()),
            Protocol::Http2 => Protocol::Http2,
        }
    }
}

impl PartialEq for Host {
    fn eq(&self, other: &Self) -> (equal: bool) {
        match (self, other) {
            (Host::Authority(a), Host::Authority(b)) => a == b,
            _ => false,
        }
    }
}

impl PartialEqSpecImpl for Host {
    open spec fn obeys_eq_spec() -> bool {
        true
    }

    open spec fn eq_spec(&self, other: &Self) -> bool {
        self@.key_eq(other@)
    }
}

impl PartialEq for Protocol {
    fn eq(&self, other: &Self) -> (equal: bool) {
        match (self, other) {
            (Protocol::Http2, Protocol::Http2) => true,
            (Protocol::Http1(a), Protocol::Http1(b)) => a == b,
            _ => false,
        }
    }
}

impl PartialEqSpecImpl for Protocol {
    open spec fn obeys_eq_spec() -> bool {
        true
    }

    open spec fn eq_spec(&self, other: &Self) -> bool {
        self@.key_eq(other@)
    }
}

impl Protocol {
    /// The key of a request whose version, URI authority and `Host` header
    /// authority are given.
    pub fn from_parts(
        version: Version,
        uri: Option<Authority>,
        header: Option<Authority>,
    ) -> (protocol: Protocol)
        ensures
            protocol@ == key_for(version, authority_text(uri), authority_text(header)),
    {
        if version == Version::Http2 {
            return Protocol::Http2;
        }
        let host = match uri {
            Some(authority) => Host::Authority(authority),
            None => match header {
                Some(authority) => Host::Authority(authority),
                None => Host::NoAuthority,
            },
        };
        Protocol::Http1(host)
    }

    /// Classifies a request. Never fails: a request whose host cannot be
    /// told gets the key `Http1(NoAuthority)`.
    ///
    /// The `Host` header is looked at only for an HTTP/1 request without a
    /// URI authority.
    pub fn classify(head: &RequestHead) -> (protocol: Protocol)
        ensures
            protocol@ == classified(head),
    {
        let uri = match &head.authority {
            Some(authority) => Some(authority.clone()),
            None => None,
        };
        let header = if head.version == Version::Http2 || uri.is_some() {
            None
        } else {
            match &head.host {
                Some(value) => Authority::from_header_value(value.as_slice()),
                None => None,
            }
        };
        Protocol::from_parts(head.version, uri, header)
    }
}

/// Whether no host can be derived for an HTTP/1 request: its URI has no
/// authority, and it has no `Host` header that spells one.
pub open spec fn host_unknown(head: &RequestHead) -> bool {
    &&& head.version != Version::Http2
    &&& head.authority is None
    &&& host_header_authority(head.host) is None
}

/// Every HTTP/2 request has the key `Http2`, whatever its URI and headers
/// are; so any two HTTP/2 requests have equal keys.
pub proof fn lemma_http2_requests_share_a_key(first: RequestHead, second: RequestHead)
    requires
        first.version == Version::Http2,
        second.version == Version::Http2,
    ensures
        classified(&first) == ProtocolKey::Http2,
        classified(&second) == ProtocolKey::Http2,
        classified(&first).key_eq(classified(&second)),
{
}

/// An HTTP/1 request whose URI has an authority is keyed by that authority,
/// whatever its `Host` header says.
pub proof fn lemma_uri_authority_is_the_host(head: RequestHead)
    requires
        head.version != Version::Http2,
        head.authority is Some,
    ensures
        classified(&head) == ProtocolKey::Http1(HostKey::Authority(head.authority->0@)),
{
}

/// An HTTP/1 request whose URI has no authority is keyed by the authority
/// that its `Host` header spells.
pub proof fn lemma_host_header_is_the_host(head: RequestHead, text: Seq<char>)
    requires
        head.version != Version::Http2,
        head.authority is None,
        host_header_authority(head.host) == Some(text),
    ensures
        classified(&head) == ProtocolKey::Http1(HostKey::Authority(text)),
{
}

/// HTTP/1 requests for which no host can be derived all get the key
/// `Http1(NoAuthority)`, and that key equals neither the key of another such
/// request nor itself.
pub proof fn lemma_unknown_hosts_never_match(first: RequestHead, second: RequestHead)
    requires
        host_unknown(&first),
        host_unknown(&second),
    ensures
        classified(&first) == ProtocolKey::Http1(HostKey::NoAuthority),
        !classified(&first).key_eq(classified(&second)),
        !classified(&first).key_eq(classified(&first)),
{
}

/// `NoAuthority` equals no host, on either side of the comparison.
pub proof fn lemma_no_authority_equals_nothing(other: HostKey)
    ensures
        !HostKey::NoAuthority.key_eq(other),
        !other.key_eq(HostKey::NoAuthority),
{
}

/// Two known hosts are equal exactly when their authorities have the same
/// text, and so are the HTTP/1 keys that hold them.
pub proof fn lemma_known_hosts_match_by_text(first: Seq<char>, second: Seq<char>)
    ensures
        HostKey::Authority(first).key_eq(HostKey::Authority(second)) <==> first == second,
        ProtocolKey::Http1(HostKey::Authority(first)).key_eq(
            ProtocolKey::Http1(HostKey::Authority(second)),
        ) <==> first == second,
{
}

} // verus!
