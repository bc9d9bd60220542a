use civet::headers::Header;
use civet::request::BuildError;
use civet::request::CivetRequest;
use civet::request::Method;
use civet::request::RequestInfo;
use civet::request::Scheme;
use civet::request::Version;
use civet::request::parse_method;
use civet::request::parse_version;

fn header(name: &[u8], value: &[u8]) -> Header {
    Header { name: name.to_vec(), value: value.to_vec() }
}

fn info() -> RequestInfo {
    RequestInfo {
        method: Some(b"GET".to_vec()),
        uri: Some(b"/".to_vec()),
        http_version: Some(b"1.1".to_vec()),
        query_string: None,
        remote_user: None,
        remote_ip: 0x7f000001,
        remote_port: 13038,
        is_ssl: false,
        headers: Vec::new(),
    }
}

#[test]
fn methods_parse_to_their_verbs() {
    assert_eq!(parse_method(b"HEAD"), Method::Head);
    assert_eq!(parse_method(b"GET"), Method::Get);
    assert_eq!(parse_method(b"POST"), Method::Post);
    assert_eq!(parse_method(b"PUT"), Method::Put);
    assert_eq!(parse_method(b"DELETE"), Method::Delete);
    assert_eq!(parse_method(b"PATCH"), Method::Patch);
    assert_eq!(parse_method(b"PURGE"), Method::Purge);
    assert_eq!(parse_method(b"CONNECT"), Method::Connect);
    assert_eq!(parse_method(b"OPTIONS"), Method::Options);
    assert_eq!(parse_method(b"TRACE"), Method::Trace);
}

#[test]
fn unknown_method_falls_back_to_other() {
    // An unrecognized verb is carried through, never fatal.
    assert_eq!(parse_method(b"BREW"), Method::Other(b"BREW".to_vec()));
    assert_eq!(parse_method(b"get"), Method::Other(b"get".to_vec()));
    assert_eq!(parse_method(b""), Method::Other(Vec::new()));
}

#[test]
fn versions_normalize_to_http11() {
    assert_eq!(parse_version(b"1.0"), Version::Http10);
    assert_eq!(parse_version(b"1.1"), Version::Http11);
    // The explicit fallback: anything unrecognized is HTTP/1.1.
    assert_eq!(parse_version(b"0.9"), Version::Http11);
    assert_eq!(parse_version(b"2"), Version::Http11);
    assert_eq!(parse_version(b""), Version::Http11);
}

#[test]
fn build_fails_without_method_or_uri() {
    let mut no_method = info();
    no_method.method = None;
    assert!(matches!(CivetRequest::build(no_method), Err(BuildError::NoMethod)));

    let mut no_uri = info();
    no_uri.uri = None;
    assert!(matches!(CivetRequest::build(no_uri), Err(BuildError::NoUri)));
}

#[test]
fn build_populates_the_view() {
    let mut i = info();
    i.method = Some(b"POST".to_vec());
    i.uri = Some(b"/submit".to_vec());
    i.http_version = Some(b"1.0".to_vec());
    i.query_string = Some(b"a=1".to_vec());
    i.is_ssl = true;
    i.headers = vec![header(b"Host", b"example.test")];
    let req = CivetRequest::build(i).unwrap();
    assert_eq!(*req.method(), Method::Post);
    assert_eq!(req.http_version(), Version::Http10);
    assert_eq!(req.scheme(), Scheme::Https);
    assert_eq!(req.path().as_slice(), b"/submit");
    assert_eq!(req.query_string().map(|v| v.as_slice()), Some(&b"a=1"[..]));
    assert!(req.remote_user().is_none());
    assert!(req.is_ssl());
    assert_eq!(req.host().map(|v| v.as_slice()), Some(&b"example.test"[..]));
    assert!(req.virtual_root().is_none());
}

#[test]
fn missing_version_falls_back_to_http11() {
    let mut i = info();
    i.http_version = None;
    let req = CivetRequest::build(i).unwrap();
    assert_eq!(req.http_version(), Version::Http11);
}

#[test]
fn remote_addr_splits_the_octets() {
    let req = CivetRequest::build(info()).unwrap();
    let addr = req.remote_addr();
    assert_eq!(addr.ip, [127, 0, 0, 1]);
    assert_eq!(addr.port, 13038);

    let mut i = info();
    i.remote_ip = 0xC0A80A02;
    let addr = CivetRequest::build(i).unwrap().remote_addr();
    assert_eq!(addr.ip, [192, 168, 10, 2]);
}

#[test]
fn content_length_reads_the_header() {
    let mut i = info();
    i.headers = vec![header(b"content-length", b"42")];
    let req = CivetRequest::build(i).unwrap();
    assert_eq!(req.content_length(), Some(42));
}

#[test]
fn content_length_absent_or_malformed_is_none() {
    let req = CivetRequest::build(info()).unwrap();
    assert_eq!(req.content_length(), None);

    let mut i = info();
    i.headers = vec![header(b"Content-Length", b"12 bytes")];
    assert_eq!(CivetRequest::build(i).unwrap().content_length(), None);

    let mut i = info();
    i.headers = vec![header(b"Content-Length", b"")];
    assert_eq!(CivetRequest::build(i).unwrap().content_length(), None);

    let mut i = info();
    i.headers = vec![header(b"Content-Length", b"99999999999999999999999")];
    assert_eq!(CivetRequest::build(i).unwrap().content_length(), None);
}

#[test]
fn request_headers_pass_through_the_view() {
    let mut i = info();
    let mut raw = Vec::new();
    for n in 0..70u32 {
        raw.push(header(format!("H{}", n).as_bytes(), b"v"));
    }
    i.headers = raw;
    let req = CivetRequest::build(i).unwrap();
    assert_eq!(req.headers().len(), 64);
}

#[test]
fn get_header_and_count() {
    let mut i = info();
    i.headers = vec![header(b"Foo", b"bar"), header(b"Baz", b"qux")];
    let req = CivetRequest::build(i).unwrap();
    assert_eq!(req.count_headers(), 2);
    assert_eq!(req.get_header(b"foo").map(|v| v.as_slice()), Some(&b"bar"[..]));
    assert!(req.get_header(b"nope").is_none());
}
