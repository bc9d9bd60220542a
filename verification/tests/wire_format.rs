use civet::headers::Header;
use civet::wire::default_failure_response;
use civet::wire::head_bytes;
use civet::wire::reason_phrase;
use civet::wire::status_line;
use civet::wire::Response;
use civet::format_u64;
use civet::parse_u64;

fn header(name: &[u8], value: &[u8]) -> Header {
    Header { name: name.to_vec(), value: value.to_vec() }
}

#[test]
fn success_response_bytes() {
    // A 200 with one header and the body `ok` serializes byte for byte.
    let resp = Response {
        status: 200,
        headers: vec![header(b"Content-Type", b"text/plain")],
        body: b"ok".to_vec(),
    };
    assert_eq!(
        resp.wire_bytes(),
        b"HTTP/1.1 200 OK\r\nContent-Type: text/plain\r\n\r\nok".to_vec()
    );
}

#[test]
fn failure_response_bytes() {
    assert_eq!(
        default_failure_response(),
        b"HTTP/1.1 500 Internal Server Error\r\nContent-Length: 0\r\n\r\n".to_vec()
    );
}

#[test]
fn status_lines() {
    assert_eq!(status_line(200), b"HTTP/1.1 200 OK\r\n".to_vec());
    assert_eq!(status_line(404), b"HTTP/1.1 404 Not Found\r\n".to_vec());
    assert_eq!(status_line(299), b"HTTP/1.1 299 UNKNOWN\r\n".to_vec());
}

#[test]
fn reason_phrases() {
    assert_eq!(reason_phrase(200), b"OK".to_vec());
    assert_eq!(reason_phrase(500), b"Internal Server Error".to_vec());
    assert_eq!(reason_phrase(503), b"Service Unavailable".to_vec());
    assert_eq!(reason_phrase(299), b"UNKNOWN".to_vec());
    assert_eq!(reason_phrase(999), b"UNKNOWN".to_vec());
}

#[test]
fn repeated_header_names_keep_their_lines() {
    let resp = Response {
        status: 200,
        headers: vec![header(b"Set-Cookie", b"a=1"), header(b"Set-Cookie", b"b=2")],
        body: Vec::new(),
    };
    assert_eq!(
        resp.wire_bytes(),
        b"HTTP/1.1 200 OK\r\nSet-Cookie: a=1\r\nSet-Cookie: b=2\r\n\r\n".to_vec()
    );
}

#[test]
fn empty_head_is_status_line_and_blank_line() {
    let empty: Vec<Header> = Vec::new();
    assert_eq!(head_bytes(204, &empty), b"HTTP/1.1 204 No Content\r\n\r\n".to_vec());
}

#[test]
fn decimal_formatting() {
    assert_eq!(format_u64(0), b"0".to_vec());
    assert_eq!(format_u64(8888), b"8888".to_vec());
    assert_eq!(format_u64(u64::MAX), b"18446744073709551615".to_vec());
}

#[test]
fn decimal_parsing() {
    assert_eq!(parse_u64(b"0"), Some(0));
    assert_eq!(parse_u64(b"00042"), Some(42));
    assert_eq!(parse_u64(b"18446744073709551615"), Some(u64::MAX));
    assert_eq!(parse_u64(b"18446744073709551616"), None);
    assert_eq!(parse_u64(b"99999999999999999999999"), None);
    assert_eq!(parse_u64(b""), None);
    assert_eq!(parse_u64(b"12a"), None);
    assert_eq!(parse_u64(b"-1"), None);
    assert_eq!(parse_u64(b"+1"), None);
}

#[test]
fn parse_format_round_trip() {
    for n in [0u64, 1, 9, 10, 65535, 1 << 40, u64::MAX] {
        assert_eq!(parse_u64(&format_u64(n)), Some(n));
    }
}
