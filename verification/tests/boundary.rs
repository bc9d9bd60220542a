use civet::conn::classify_read;
use civet::conn::Connection;
use civet::conn::ReadOutcome;
use civet::conn::WriteOutcome;
use civet::headers::Header;
use civet::invoke::invocation_reply;
use civet::invoke::HandlerOutcome;
use civet::invoke::RequestOutcome;
use civet::request::CivetRequest;
use civet::request::RequestInfo;
use civet::wire::Response;

fn request() -> CivetRequest {
    let info = RequestInfo {
        method: Some(b"GET".to_vec()),
        uri: Some(b"/".to_vec()),
        http_version: Some(b"1.1".to_vec()),
        query_string: None,
        remote_user: None,
        remote_ip: 0x7f000001,
        remote_port: 13038,
        is_ssl: false,
        headers: vec![Header { name: b"Foo".to_vec(), value: b"bar".to_vec() }],
    };
    CivetRequest::build(info).unwrap()
}

#[test]
fn read_results_classify() {
    assert_eq!(classify_read(5), ReadOutcome::Data(5));
    assert_eq!(classify_read(0), ReadOutcome::End);
    assert_eq!(classify_read(-1), ReadOutcome::Failure);
    assert_eq!(classify_read(i32::MIN), ReadOutcome::Failure);
}

#[test]
fn write_sets_the_flag_and_release_stays_silent() {
    let mut conn = Connection::new(request());
    assert_eq!(conn.record_write(17), WriteOutcome::Wrote(17));
    // Bytes were written: the drain guard has nothing left to do.
    assert!(conn.release().is_none());
}

#[test]
fn release_without_a_write_synthesizes_a_500() {
    let conn = Connection::new(request());
    let fallback = conn.release().unwrap();
    assert_eq!(
        fallback,
        b"HTTP/1.1 500 Internal Server Error\r\nContent-Length: 0\r\n\r\n".to_vec()
    );
    assert!(fallback.starts_with(b"HTTP/1.1 500"));
}

#[test]
fn failed_write_leaves_the_flag_clear() {
    let mut conn = Connection::new(request());
    assert_eq!(conn.record_write(-1), WriteOutcome::Failure);
    // Nothing reached the wire, so the guard still owes a response.
    assert!(conn.release().is_some());
}

#[test]
fn invokes() {
    // A handler that returns a response: its bytes reach the wire and the
    // engine is told the request was handled.
    let resp = Response { status: 200, headers: Vec::new(), body: b"ok".to_vec() };
    let expected = resp.wire_bytes();
    let (wire, status) = invocation_reply(&RequestOutcome::Handled(HandlerOutcome::Success(resp)));
    assert_eq!(wire, expected);
    assert_eq!(wire, b"HTTP/1.1 200 OK\r\n\r\nok".to_vec());
    assert_eq!(status, 1);
}

#[test]
fn failing_handler() {
    // A handler that terminates abnormally still yields an ordinary reply.
    let (wire, status) = invocation_reply(&RequestOutcome::Handled(HandlerOutcome::Panicked));
    assert!(!wire.is_empty());
    assert_eq!(status, 0);
}

#[test]
fn failing_handler_is_500() {
    let (wire, _) = invocation_reply(&RequestOutcome::Handled(HandlerOutcome::Panicked));
    let text = String::from_utf8(wire).unwrap();
    assert!(text.contains("500 Internal"), "not a failing response: {}", text);
}

#[test]
fn handler_error_is_500_but_handled() {
    let (wire, status) = invocation_reply(&RequestOutcome::Handled(HandlerOutcome::Failure));
    assert!(wire.starts_with(b"HTTP/1.1 500"));
    assert_eq!(status, 1);
}

#[test]
fn missing_metadata_is_500_and_invocation_failure() {
    let (wire, status) = invocation_reply(&RequestOutcome::MetadataUnavailable);
    assert!(wire.starts_with(b"HTTP/1.1 500"));
    assert_eq!(status, 0);
}

#[test]
fn every_outcome_writes_exactly_one_response() {
    // Each path's reply begins with one status line and holds one blank line
    // separating head from (possibly empty) body.
    let outcomes = vec![
        RequestOutcome::MetadataUnavailable,
        RequestOutcome::Handled(HandlerOutcome::Failure),
        RequestOutcome::Handled(HandlerOutcome::Panicked),
        RequestOutcome::Handled(HandlerOutcome::Success(Response {
            status: 200,
            headers: Vec::new(),
            body: b"ok".to_vec(),
        })),
    ];
    for o in outcomes {
        let (wire, _) = invocation_reply(&o);
        assert!(wire.starts_with(b"HTTP/1.1 "));
        let text: Vec<u8> = wire.clone();
        let heads = text.windows(9).filter(|w| w == b"HTTP/1.1 ").count();
        assert_eq!(heads, 1);
        assert!(text.windows(4).any(|w| w == b"\r\n\r\n"));
    }
}
