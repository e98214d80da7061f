use std::collections::hash_map::DefaultHasher;
use std::collections::HashMap;
use std::hash::{Hash, Hasher};

use proxy_bind::{
    Authority, Host, Protocol, RequestHead, SocketAddr, SocketAddrV4, Version,
};

fn authority(text: &str) -> Authority {
    Authority::parse(text).expect("the text is an authority")
}

fn head(version: Version, uri: Option<&str>, host: Option<&[u8]>) -> RequestHead {
    RequestHead {
        version,
        authority: uri.map(authority),
        host: host.map(|value| value.to_vec()),
    }
}

fn hash_of<T: Hash>(value: &T) -> u64 {
    let mut hasher = DefaultHasher::new();
    value.hash(&mut hasher);
    hasher.finish()
}

#[test]
fn host_header_gives_the_host_of_an_http1_request() {
    let request = head(Version::Http11, None, Some(b"api.example.com"));
    let protocol = Protocol::classify(&request);
    assert_eq!(
        protocol,
        Protocol::Http1(Host::Authority(authority("api.example.com")))
    );
    match protocol {
        Protocol::Http1(Host::Authority(host)) => assert_eq!(host.as_str(), "api.example.com"),
        other => panic!("unexpected key {:?}", other),
    }
}

#[test]
fn http2_request_is_http2_whatever_its_headers() {
    let bare = Protocol::classify(&head(Version::Http2, None, None));
    assert!(matches!(bare, Protocol::Http2));
    let with_host = Protocol::classify(&head(Version::Http2, None, Some(b"a.com")));
    assert!(matches!(with_host, Protocol::Http2));
    let with_uri = Protocol::classify(&head(Version::Http2, Some("b.com:8080"), Some(b"a.com")));
    assert!(matches!(with_uri, Protocol::Http2));
    let with_bad_host = Protocol::classify(&head(Version::Http2, None, Some(b"not a host")));
    assert!(matches!(with_bad_host, Protocol::Http2));
}

#[test]
fn http2_requests_have_equal_keys() {
    let first = Protocol::classify(&head(Version::Http2, Some("a.com"), None));
    let second = Protocol::classify(&head(Version::Http2, None, Some(b"b.com")));
    assert_eq!(first, second);
    assert_eq!(first, Protocol::Http2);
    assert_eq!(hash_of(&first), hash_of(&second));
}

#[test]
fn absent_host_gives_no_authority() {
    let first = Protocol::classify(&head(Version::Http11, None, None));
    let second = Protocol::classify(&head(Version::Http11, None, None));
    assert!(matches!(first, Protocol::Http1(Host::NoAuthority)));
    assert!(matches!(second, Protocol::Http1(Host::NoAuthority)));
    assert_ne!(first, second);
    assert!(!(first == second));
}

#[test]
fn malformed_host_gives_no_authority() {
    let values: [&[u8]; 8] = [
        b"",
        b"exa mple.com",
        b"example.com/path",
        b"localhost:8080:3030",
        b"user@",
        b"[::1",
        b"example.com\t",
        b"caf\xc3\xa9.example",
    ];
    for value in values.iter() {
        let first = Protocol::classify(&head(Version::Http11, None, Some(value)));
        let second = Protocol::classify(&head(Version::Http11, None, Some(value)));
        assert!(
            matches!(first, Protocol::Http1(Host::NoAuthority)),
            "{:?} gave {:?}",
            value,
            first
        );
        assert_ne!(first, second);
    }
}

#[test]
fn header_bytes_that_no_header_may_hold_give_no_authority() {
    let values: [&[u8]; 3] = [b"a.com\n", b"a\x00.com", b"a.com\x7f"];
    for value in values.iter() {
        let protocol = Protocol::classify(&head(Version::Http10, None, Some(value)));
        assert!(matches!(protocol, Protocol::Http1(Host::NoAuthority)));
    }
}

#[test]
fn no_authority_is_not_equal_to_itself() {
    let key = Protocol::classify(&head(Version::Http11, None, None));
    assert!(!(key == key));
    assert!(key != key);
    let copy = key.clone();
    assert!(!(key == copy));
    assert!(!(Host::NoAuthority == Host::NoAuthority));
    assert!(Host::NoAuthority != Host::NoAuthority);
    assert!(!(Host::NoAuthority == Host::Authority(authority("a.com"))));
    assert!(!(Host::Authority(authority("a.com")) == Host::NoAuthority));
}

#[test]
fn authorities_compare_by_their_text() {
    assert_eq!(Host::Authority(authority("a.com")), Host::Authority(authority("a.com")));
    assert_ne!(Host::Authority(authority("a.com")), Host::Authority(authority("b.com")));
    assert_eq!(authority("a.com"), authority("a.com"));
    assert_ne!(authority("a.com"), authority("b.com"));
    assert_ne!(authority("a.com"), authority("a.com:80"));
    assert_eq!(
        Protocol::Http1(Host::Authority(authority("a.com"))),
        Protocol::Http1(Host::Authority(authority("a.com")))
    );
    assert_ne!(
        Protocol::Http1(Host::Authority(authority("a.com"))),
        Protocol::Http1(Host::Authority(authority("b.com")))
    );
    assert_ne!(Protocol::Http1(Host::Authority(authority("a.com"))), Protocol::Http2);
    assert_ne!(Protocol::Http2, Protocol::Http1(Host::NoAuthority));
}

#[test]
fn uri_authority_is_preferred_to_the_host_header() {
    let request = head(Version::Http11, Some("uri.example.com:8080"), Some(b"header.example.com"));
    assert_eq!(
        Protocol::classify(&request),
        Protocol::Http1(Host::Authority(authority("uri.example.com:8080")))
    );
    let malformed = head(Version::Http10, Some("uri.example.com"), Some(b"not a host"));
    assert_eq!(
        Protocol::classify(&malformed),
        Protocol::Http1(Host::Authority(authority("uri.example.com")))
    );
}

#[test]
fn every_http1_version_is_keyed_by_host() {
    for version in [Version::Http09, Version::Http10, Version::Http11].iter() {
        let request = head(*version, None, Some(b"a.com"));
        assert_eq!(
            Protocol::classify(&request),
            Protocol::Http1(Host::Authority(authority("a.com")))
        );
    }
}

#[test]
fn from_parts_follows_the_order_of_preference() {
    assert_eq!(
        Protocol::from_parts(Version::Http11, Some(authority("a.com")), Some(authority("b.com"))),
        Protocol::Http1(Host::Authority(authority("a.com")))
    );
    assert_eq!(
        Protocol::from_parts(Version::Http11, None, Some(authority("b.com"))),
        Protocol::Http1(Host::Authority(authority("b.com")))
    );
    assert!(matches!(
        Protocol::from_parts(Version::Http11, None, None),
        Protocol::Http1(Host::NoAuthority)
    ));
    assert!(matches!(
        Protocol::from_parts(Version::Http2, Some(authority("a.com")), Some(authority("b.com"))),
        Protocol::Http2
    ));
}

#[test]
fn parse_accepts_what_the_http_crate_accepts() {
    let texts = [
        "example.com",
        "example.com:8080",
        "user:pass@example.com:80",
        "[::1]:443",
        "127.0.0.1",
        "EXAMPLE.com",
        "",
        "exa mple.com",
        "example.com/",
        "a?b",
        "a#b",
        "localhost:8080:3030",
        "user@",
        "[::1",
        "::1]",
        "ex%61mple.com",
        "caf\u{e9}.example",
        "a\tb",
    ];
    for text in texts.iter() {
        let ours = Authority::parse(text);
        let theirs = text.parse::<http::uri::Authority>();
        assert_eq!(ours.is_some(), theirs.is_ok(), "on {:?}", text);
        if let (Some(ours), Ok(theirs)) = (ours, theirs) {
            assert!(theirs == ours.as_str(), "on {:?}", text);
        }
    }
}

#[test]
fn parse_rejects_what_is_no_authority() {
    assert!(Authority::parse("").is_none());
    assert!(Authority::parse("example.com/path").is_none());
    assert!(Authority::parse("localhost:8080:3030").is_none());
    assert!(Authority::parse("not a host").is_none());
    assert!(Authority::parse("example.com").is_some());
}

#[test]
fn authority_is_kept_in_lower_case() {
    assert_eq!(authority("API.Example.COM:8080").as_str(), "api.example.com:8080");
    assert_eq!(authority("a.com").as_str(), "a.com");
    assert_eq!(authority("[FE80::1]:80").as_str(), "[fe80::1]:80");
    assert_eq!(authority("User@Host_1").as_str(), "user@host_1");
}

#[test]
fn authorities_are_equal_without_regard_to_ascii_case() {
    let upper = authority("HELLO.com");
    let mixed = authority("hello.coM");
    assert_eq!(upper, mixed);
    assert_eq!(hash_of(&upper), hash_of(&mixed));
    let theirs_upper: http::uri::Authority = "HELLO.com".parse().unwrap();
    let theirs_mixed: http::uri::Authority = "hello.coM".parse().unwrap();
    assert_eq!(theirs_upper == theirs_mixed, upper == mixed);
    let other: http::uri::Authority = "hallo.com".parse().unwrap();
    assert_eq!(theirs_upper == other, upper == authority("hallo.com"));
    assert_eq!(
        Protocol::classify(&head(Version::Http11, None, Some(b"HELLO.com"))),
        Protocol::classify(&head(Version::Http11, Some("hello.COM"), None))
    );
}

#[test]
fn from_header_value_reads_visible_ascii_only() {
    assert_eq!(Authority::from_header_value(b"a.com"), Some(authority("a.com")));
    assert_eq!(Authority::from_header_value(b"A.com:80"), Some(authority("a.com:80")));
    assert_eq!(Authority::from_header_value(b"a.com\xff"), None);
    assert_eq!(Authority::from_header_value(b"\x80"), None);
    assert_eq!(Authority::from_header_value(b"a.com\r\n"), None);
    assert_eq!(Authority::from_header_value(b" a.com"), None);
    assert_eq!(Authority::from_header_value(b""), None);
}

#[test]
fn from_header_value_agrees_with_the_http_crate() {
    let values: [&[u8]; 6] = [b"a.com", b"a.com:1", b"x y", b"\xc3\xa9", b"a/b", b"Host.Example"];
    for value in values.iter() {
        let theirs = http::header::HeaderValue::from_bytes(value)
            .ok()
            .and_then(|header| header.to_str().ok().map(|text| text.to_owned()))
            .and_then(|text| text.parse::<http::uri::Authority>().ok());
        let ours = Authority::from_header_value(value);
        assert_eq!(ours.is_some(), theirs.is_some(), "on {:?}", value);
        if let (Some(ours), Some(theirs)) = (ours, theirs) {
            assert!(theirs == ours.as_str());
        }
    }
}

#[test]
fn clone_keeps_the_key() {
    let key = Protocol::Http1(Host::Authority(authority("a.com:80")));
    assert_eq!(key.clone(), key);
    assert!(matches!(Protocol::Http2.clone(), Protocol::Http2));
    assert!(matches!(Host::NoAuthority.clone(), Host::NoAuthority));
    assert_eq!(authority("a.com").clone().as_str(), "a.com");
}

#[test]
fn keys_with_a_known_host_find_their_entry_in_a_map() {
    let addr = SocketAddr::V4(SocketAddrV4 { ip: 0x7f00_0001, port: 8080 });
    let mut cache: HashMap<(SocketAddr, Protocol), u32> = HashMap::new();
    cache.insert((addr, Protocol::classify(&head(Version::Http11, None, Some(b"a.com")))), 1);
    cache.insert((addr, Protocol::classify(&head(Version::Http2, None, None))), 2);
    cache.insert((addr, Protocol::classify(&head(Version::Http11, None, None))), 3);

    let same_host = Protocol::classify(&head(Version::Http10, Some("A.com"), None));
    assert_eq!(cache.get(&(addr, same_host)), Some(&1));
    let http2 = Protocol::classify(&head(Version::Http2, Some("a.com"), None));
    assert_eq!(cache.get(&(addr, http2)), Some(&2));
    let other_host = Protocol::classify(&head(Version::Http11, None, Some(b"b.com")));
    assert_eq!(cache.get(&(addr, other_host)), None);
    let unknown = Protocol::classify(&head(Version::Http11, None, None));
    assert_eq!(cache.get(&(addr, unknown)), None);
}

fn head_of<B>(request: &http::Request<B>) -> RequestHead {
    let version = if request.version() == http::Version::HTTP_2 {
        Version::Http2
    } else if request.version() == http::Version::HTTP_11 {
        Version::Http11
    } else if request.version() == http::Version::HTTP_10 {
        Version::Http10
    } else {
        Version::Http09
    };
    RequestHead {
        version,
        authority: request
            .uri()
            .authority_part()
            .and_then(|authority| Authority::parse(authority.as_str())),
        host: request
            .headers()
            .get(http::header::HOST)
            .map(|value| value.as_bytes().to_vec()),
    }
}

fn request(version: http::Version, uri: &str, host: Option<&[u8]>) -> http::Request<()> {
    let mut builder = http::Request::builder();
    builder.version(version).uri(uri);
    if let Some(value) = host {
        builder.header(
            http::header::HOST,
            http::header::HeaderValue::from_bytes(value).unwrap(),
        );
    }
    builder.body(()).unwrap()
}

#[test]
fn http11_request_with_a_host_header_and_a_path_only() {
    let request = request(http::Version::HTTP_11, "/users/1", Some(b"api.example.com"));
    assert_eq!(
        Protocol::classify(&head_of(&request)),
        Protocol::Http1(Host::Authority(authority("api.example.com")))
    );
}

#[test]
fn http11_request_with_an_absolute_uri() {
    let request = request(
        http::Version::HTTP_11,
        "http://Uri.Example.com:8080/users/1",
        Some(b"header.example.com"),
    );
    assert_eq!(
        Protocol::classify(&head_of(&request)),
        Protocol::Http1(Host::Authority(authority("uri.example.com:8080")))
    );
}

#[test]
fn http2_request_built_by_the_http_crate() {
    let plain = request(http::Version::HTTP_2, "/", None);
    assert!(matches!(Protocol::classify(&head_of(&plain)), Protocol::Http2));
    let absolute = request(http::Version::HTTP_2, "https://a.com/", Some(b"b.com"));
    assert!(matches!(Protocol::classify(&head_of(&absolute)), Protocol::Http2));
}

#[test]
fn http1_requests_without_a_usable_host() {
    let absent = request(http::Version::HTTP_11, "/", None);
    let opaque = request(http::Version::HTTP_11, "/", Some(b"caf\xe9.example"));
    let spaced = request(http::Version::HTTP_10, "*", Some(b"a.com b.com"));
    for request in [&absent, &opaque, &spaced].iter() {
        let first = Protocol::classify(&head_of(request));
        let second = Protocol::classify(&head_of(request));
        assert!(matches!(first, Protocol::Http1(Host::NoAuthority)));
        assert!(first != second);
        assert!(first != first);
    }
}
