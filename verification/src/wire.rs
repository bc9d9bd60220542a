//! Byte-exact serialization of responses.
//!
//! The wire format the engine transmits is `HTTP/1.1 <code> <reason>\r\n`,
//! then one `<name>: <value>\r\n` line per header record (a repeated name
//! gets one line per value), then a blank `\r\n` line, then the raw body
//! bytes. The reason phrase of a status code outside the table below is
//! `UNKNOWN`.

use vstd::prelude::*;

use vstd::string::is_ascii;
use vstd::string::is_ascii_spec_bytes;
use vstd::string::StrSliceExecFns;

use vstd::arithmetic::div_mod::lemma_div_denominator;
use vstd::arithmetic::div_mod::lemma_div_is_ordered;
use vstd::arithmetic::div_mod::lemma_fundamental_div_mod;

use crate::bytes::dec_digits;
use crate::bytes::format_u64;
use crate::bytes::push_all;
use crate::headers::records_view;
use crate::headers::Header;

verus! {

/// An ASCII character sequence as its bytes.
pub open spec fn ascii_seq(s: Seq<char>) -> Seq<u8> {
    s.map_values(|c: char| c as u8)
}

/// The bytes of an ASCII string.
pub fn ascii_bytes(s: &str) -> (r: Vec<u8>)
    requires
        is_ascii(s),
    ensures
        r@ == ascii_seq(s@),
{
    let r = s.as_bytes_vec();
    proof {
        is_ascii_spec_bytes(s);
        assert(r@ =~= ascii_seq(s@));
    }
    r
}

/// The line end `\r\n`.
pub open spec fn crlf() -> Seq<u8> {
    seq![13u8, 10u8]
}

/// The name/value separator `: `.
pub open spec fn colon_sp() -> Seq<u8> {
    seq![58u8, 32u8]
}

/// The protocol prefix of every status line: `HTTP/1.1 `.
pub open spec fn http11_prefix() -> Seq<u8> {
    seq![72u8, 84u8, 84u8, 80u8, 47u8, 49u8, 46u8, 49u8, 32u8]
}

fn push_crlf(out: &mut Vec<u8>)
    ensures
        final(out)@ == old(out)@ + crlf(),
{
    out.push(13);
    out.push(10);
    proof {
        assert(out@ =~= old(out)@ + crlf());
    }
}

/// The reason phrase the status line carries for `code`: the usual phrase for
/// the codes of the table, `UNKNOWN` for every other code.
pub open spec fn reason_of(code: u16) -> Seq<u8> {
    if code == 100 {
        ascii_seq("Continue"@)
    } else if code == 101 {
        ascii_seq("Switching Protocols"@)
    } else if code == 200 {
        ascii_seq("OK"@)
    } else if code == 201 {
        ascii_seq("Created"@)
    } else if code == 202 {
        ascii_seq("Accepted"@)
    } else if code == 204 {
        ascii_seq("No Content"@)
    } else if code == 206 {
        ascii_seq("Partial Content"@)
    } else if code == 301 {
        ascii_seq("Moved Permanently"@)
    } else if code == 302 {
        ascii_seq("Found"@)
    } else if code == 303 {
        ascii_seq("See Other"@)
    } else if code == 304 {
        ascii_seq("Not Modified"@)
    } else if code == 307 {
        ascii_seq("Temporary Redirect"@)
    } else if code == 308 {
        ascii_seq("Permanent Redirect"@)
    } else if code == 400 {
        ascii_seq("Bad Request"@)
    } else if code == 401 {
        ascii_seq("Unauthorized"@)
    } else if code == 403 {
        ascii_seq("Forbidden"@)
    } else if code == 404 {
        ascii_seq("Not Found"@)
    } else if code == 405 {
        ascii_seq("Method Not Allowed"@)
    } else if code == 408 {
        ascii_seq("Request Timeout"@)
    } else if code == 409 {
        ascii_seq("Conflict"@)
    } else if code == 410 {
        ascii_seq("Gone"@)
    } else if code == 411 {
        ascii_seq("Length Required"@)
    } else if code == 429 {
        ascii_seq("Too Many Requests"@)
    } else if code == 500 {
        ascii_seq("Internal Server Error"@)
    } else if code == 501 {
        ascii_seq("Not Implemented"@)
    } else if code == 502 {
        ascii_seq("Bad Gateway"@)
    } else if code == 503 {
        ascii_seq("Service Unavailable"@)
    } else if code == 504 {
        ascii_seq("Gateway Timeout"@)
    } else {
        ascii_seq("UNKNOWN"@)
    }
}

/// The reason phrase for `code`, `UNKNOWN` outside the table.
pub fn reason_phrase(code: u16) -> (r: Vec<u8>)
    ensures
        r@ == reason_of(code),
{
    if code == 100 {
        proof {
            reveal_strlit("Continue");
        }
        ascii_bytes("Continue")
    } else if code == 101 {
        proof {
            reveal_strlit("Switching Protocols");
        }
        ascii_bytes("Switching Protocols")
    } else if code == 200 {
        proof {
            reveal_strlit("OK");
        }
        ascii_bytes("OK")
    } else if code == 201 {
        proof {
            reveal_strlit("Created");
        }
        ascii_bytes("Created")
    } else if code == 202 {
        proof {
            reveal_strlit("Accepted");
        }
        ascii_bytes("Accepted")
    } else if code == 204 {
        proof {
            reveal_strlit("No Content");
        }
        ascii_bytes("No Content")
    } else if code == 206 {
        proof {
            reveal_strlit("Partial Content");
        }
        ascii_bytes("Partial Content")
    } else if code == 301 {
        proof {
            reveal_strlit("Moved Permanently");
        }
        ascii_bytes("Moved Permanently")
    } else if code == 302 {
        proof {
            reveal_strlit("Found");
        }
        ascii_bytes("Found")
    } else if code == 303 {
        proof {
            reveal_strlit("See Other");
        }
        ascii_bytes("See Other")
    } else if code == 304 {
        proof {
            reveal_strlit("Not Modified");
        }
        ascii_bytes("Not Modified")
    } else if code == 307 {
        proof {
            reveal_strlit("Temporary Redirect");
        }
        ascii_bytes("Temporary Redirect")
    } else if code == 308 {
        proof {
            reveal_strlit("Permanent Redirect");
        }
        ascii_bytes("Permanent Redirect")
    } else if code == 400 {
        proof {
            reveal_strlit("Bad Request");
        }
        ascii_bytes("Bad Request")
    } else if code == 401 {
        proof {
            reveal_strlit("Unauthorized");
        }
        ascii_bytes("Unauthorized")
    } else if code == 403 {
        proof {
            reveal_strlit("Forbidden");
        }
        ascii_bytes("Forbidden")
    } else if code == 404 {
        proof {
            reveal_strlit("Not Found");
        }
        ascii_bytes("Not Found")
    } else if code == 405 {
        proof {
            reveal_strlit("Method Not Allowed");
        }
        ascii_bytes("Method Not Allowed")
    } else if code == 408 {
        proof {
            reveal_strlit("Request Timeout");
        }
        ascii_bytes("Request Timeout")
    } else if code == 409 {
        proof {
            reveal_strlit("Conflict");
        }
        ascii_bytes("Conflict")
    } else if code == 410 {
        proof {
            reveal_strlit("Gone");
        }
        ascii_bytes("Gone")
    } else if code == 411 {
        proof {
            reveal_strlit("Length Required");
        }
        ascii_bytes("Length Required")
    } else if code == 429 {
        proof {
            reveal_strlit("Too Many Requests");
        }
        ascii_bytes("Too Many Requests")
    } else if code == 500 {
        proof {
            reveal_strlit("Internal Server Error");
        }
        ascii_bytes("Internal Server Error")
    } else if code == 501 {
        proof {
            reveal_strlit("Not Implemented");
        }
        ascii_bytes("Not Implemented")
    } else if code == 502 {
        proof {
            reveal_strlit("Bad Gateway");
        }
        ascii_bytes("Bad Gateway")
    } else if code == 503 {
        proof {
            reveal_strlit("Service Unavailable");
        }
        ascii_bytes("Service Unavailable")
    } else if code == 504 {
        proof {
            reveal_strlit("Gateway Timeout");
        }
        ascii_bytes("Gateway Timeout")
    } else {
        proof {
            reveal_strlit("UNKNOWN");
        }
        ascii_bytes("UNKNOWN")
    }
}

/// The status line `HTTP/1.1 <code> <reason>\r\n`.
pub open spec fn status_line_spec(code: u16) -> Seq<u8> {
    http11_prefix() + dec_digits(code as nat) + seq![32u8] + reason_of(code) + crlf()
}

/// Writes the status line for `code`.
pub fn status_line(code: u16) -> (r: Vec<u8>)
    ensures
        r@ == status_line_spec(code),
{
    let mut out: Vec<u8> = Vec::new();
    out.push(72);
    out.push(84);
    out.push(84);
    out.push(80);
    out.push(47);
    out.push(49);
    out.push(46);
    out.push(49);
    out.push(32);
    proof {
        assert(out@ =~= http11_prefix());
    }
    let digits = format_u64(code as u64);
    push_all(&mut out, digits.as_slice());
    out.push(32);
    let reason = reason_phrase(code);
    push_all(&mut out, reason.as_slice());
    push_crlf(&mut out);
    proof {
        assert(out@ =~= status_line_spec(code));
    }
    out
}

/// One header line `<name>: <value>\r\n`.
pub open spec fn header_line_spec(name: Seq<u8>, value: Seq<u8>) -> Seq<u8> {
    name + colon_sp() + value + crlf()
}

/// The header lines of `hs`, in order, one line per record.
pub open spec fn header_lines_spec(hs: Seq<(Seq<u8>, Seq<u8>)>) -> Seq<u8>
    decreases hs.len(),
{
    if hs.len() == 0 {
        Seq::empty()
    } else {
        header_lines_spec(hs.drop_last()) + header_line_spec(hs.last().0, hs.last().1)
    }
}

/// The head of a response: status line, header lines, blank line.
pub open spec fn head_spec(code: u16, hs: Seq<(Seq<u8>, Seq<u8>)>) -> Seq<u8> {
    status_line_spec(code) + header_lines_spec(hs) + crlf()
}

/// Writes the head for status `code` and the header records of `headers`.
pub fn head_bytes(code: u16, headers: &Vec<Header>) -> (r: Vec<u8>)
    ensures
        r@ == head_spec(code, records_view(headers@)),
{
    let mut out = status_line(code);
    let mut i: usize = 0;
    while i < headers.len()
        invariant
            i <= headers@.len(),
            out@ == status_line_spec(code) + header_lines_spec(
                records_view(headers@).take(i as int),
            ),
        decreases headers@.len() - i,
    {
        push_all(&mut out, headers[i].name.as_slice());
        out.push(58);
        out.push(32);
        push_all(&mut out, headers[i].value.as_slice());
        push_crlf(&mut out);
        proof {
            let hs = records_view(headers@);
            assert(hs.take(i as int + 1).drop_last() =~= hs.take(i as int));
            assert(hs.take(i as int + 1).last() == hs[i as int]);
            assert(out@ =~= status_line_spec(code) + header_lines_spec(hs.take(i as int + 1)));
        }
        i += 1;
    }
    proof {
        assert(records_view(headers@).take(headers@.len() as int) =~= records_view(headers@));
    }
    push_crlf(&mut out);
    out
}

/// A structured response as the handler supplies it: status code, header
/// records, and the bytes its body producer yields.
pub struct Response {
    pub status: u16,
    pub headers: Vec<Header>,
    pub body: Vec<u8>,
}

/// A well-formed header name: nonempty, and free of the bytes that would
/// break the line structure of the head (`\r`, `\n`, `:`).
pub open spec fn wf_header_name(n: Seq<u8>) -> bool {
    n.len() > 0 && forall|i: int|
        0 <= i < n.len() ==> #[trigger] n[i] != 13 && n[i] != 10 && n[i] != 58
}

/// A well-formed header value: free of line ends.
pub open spec fn wf_header_value(v: Seq<u8>) -> bool {
    forall|i: int| 0 <= i < v.len() ==> #[trigger] v[i] != 13 && v[i] != 10
}

/// A well-formed header list: every record's name and value well formed.
pub open spec fn wf_header_list(hs: Seq<(Seq<u8>, Seq<u8>)>) -> bool {
    forall|i: int|
        0 <= i < hs.len() ==> wf_header_name(#[trigger] hs[i].0) && wf_header_value(hs[i].1)
}

impl Response {
    /// A well-formed response: a three-digit status code and well-formed
    /// header records.
    pub open spec fn wf(&self) -> bool {
        &&& 100 <= self.status <= 999
        &&& wf_header_list(records_view(self.headers@))
    }

    /// The exact bytes this response stands for on the wire.
    pub open spec fn wire_spec(&self) -> Seq<u8> {
        head_spec(self.status, records_view(self.headers@)) + self.body@
    }

    /// Serializes the response: head, then the body copied byte for byte.
    pub fn wire_bytes(&self) -> (r: Vec<u8>)
        ensures
            r@ == self.wire_spec(),
    {
        let mut out = head_bytes(self.status, &self.headers);
        push_all(&mut out, self.body.as_slice());
        out
    }
}

/// The one header of the synthesized failure response: `Content-Length: 0`.
pub open spec fn failure_headers() -> Seq<(Seq<u8>, Seq<u8>)> {
    seq![(ascii_seq("Content-Length"@), ascii_seq("0"@))]
}

/// The fixed minimal failure response the drain guard synthesizes:
/// `HTTP/1.1 500 Internal Server Error\r\nContent-Length: 0\r\n\r\n`, no body.
pub open spec fn failure_wire() -> Seq<u8> {
    head_spec(500, failure_headers())
}

/// Writes the fixed minimal failure response.
pub fn default_failure_response() -> (r: Vec<u8>)
    ensures
        r@ == failure_wire(),
{
    proof {
        reveal_strlit("Content-Length");
        reveal_strlit("0");
    }
    let name = ascii_bytes("Content-Length");
    let value = ascii_bytes("0");
    let mut headers: Vec<Header> = Vec::new();
    headers.push(Header { name, value });
    let r = head_bytes(500, &headers);
    proof {
        assert(records_view(headers@) =~= failure_headers());
    }
    r
}

/// The status code a response's bytes carry: the three decimal digits after
/// the nine bytes of `HTTP/1.1 `.
pub open spec fn status_of(b: Seq<u8>) -> int {
    100 * (b[9] - 48) + 10 * (b[10] - 48) + (b[11] - 48)
}

/// The decimal rendering of a three-digit code is its hundreds, tens and
/// ones digits.
proof fn lemma_dec_digits_three(code: u16)
    requires
        100 <= code <= 999,
    ensures
        dec_digits(code as nat) =~= seq![
            (48 + code as int / 100) as u8,
            (48 + (code as int / 10) % 10) as u8,
            (48 + code as int % 10) as u8,
        ],
{
    let n = code as int;
    let m = code as nat;
    lemma_div_denominator(n, 10, 10);
    assert(n / 10 / 10 == n / 100);
    assert(10 <= n / 10 <= 99) by {
        lemma_div_is_ordered(100, n, 10);
        lemma_div_is_ordered(n, 999, 10);
    }
    assert(1 <= n / 100 <= 9) by {
        lemma_div_is_ordered(100, n, 100);
        lemma_div_is_ordered(n, 999, 100);
    }
    assert(dec_digits(m) == dec_digits(m / 10).push((48 + m % 10) as u8));
    assert(dec_digits(m / 10) == dec_digits(m / 10 / 10).push((48 + (m / 10) % 10) as u8));
    assert(dec_digits(m / 100) == seq![(48 + m / 100) as u8]);
}

/// The head determines its status code: whatever header list and body a
/// response is built from, the three digits after the protocol prefix read
/// back as the code the head was built with.
pub proof fn lemma_status_line_determines_code(
    code: u16,
    hs: Seq<(Seq<u8>, Seq<u8>)>,
    body: Seq<u8>,
)
    requires
        100 <= code <= 999,
    ensures
        status_of(head_spec(code, hs) + body) == code,
{
    lemma_dec_digits_three(code);
    let n = code as int;
    let b = head_spec(code, hs) + body;
    assert(b[9] == dec_digits(code as nat)[0]);
    assert(b[10] == dec_digits(code as nat)[1]);
    assert(b[11] == dec_digits(code as nat)[2]);
    lemma_fundamental_div_mod(n, 10);
    lemma_fundamental_div_mod(n / 10, 10);
    lemma_div_denominator(n, 10, 10);
    assert(100 * (n / 100) + 10 * ((n / 10) % 10) + n % 10 == n);
}

/// Whether `b` begins with `p`.
pub open spec fn starts_with(b: Seq<u8>, p: Seq<u8>) -> bool {
    p.len() <= b.len() && b.take(p.len() as int) == p
}

/// `HTTP/1.1 500`, the start of every synthesized failure response.
pub open spec fn failure_prefix() -> Seq<u8> {
    http11_prefix() + seq![53u8, 48u8, 48u8]
}

/// The synthesized failure response begins `HTTP/1.1 500`.
pub proof fn lemma_failure_starts_500()
    ensures
        starts_with(failure_wire(), failure_prefix()),
{
    assert(dec_digits(500 as nat) =~= seq![53u8, 48u8, 48u8]) by {
        reveal_with_fuel(dec_digits, 4);
    }
    assert(failure_wire().take(12) =~= failure_prefix());
}

} // verus!
