//! The Request Metadata View: a read-only projection of the engine's
//! per-request record into plain values.
//!
//! The engine's record carries the request line's parts as raw C strings; the
//! boundary hands them over as optional byte strings, and this module turns
//! them into the structured request the handler consumes. Method parsing
//! falls back to an `Other` variant carrying the raw text; a version string
//! other than a recognized constant is normalized to HTTP/1.1; a missing or
//! non-numeric `Content-Length` yields absence, never an error.

use vstd::prelude::*;

use crate::bytes::all_digits;
use crate::bytes::dec_value;
use crate::bytes::eq_bytes;
use crate::bytes::parse_u64;
use crate::headers::find_spec;
use crate::headers::header_view;
use crate::headers::records_view;
use crate::headers::Header;
use crate::headers::Headers;
use crate::wire::ascii_bytes;
use crate::wire::ascii_seq;

verus! {

/// A request method, one of the verbs the adapter recognizes, or `Other`
/// carrying the raw method text.
#[derive(Debug, PartialEq, Eq)]
pub enum Method {
    Head,
    Get,
    Post,
    Put,
    Delete,
    Patch,
    Purge,
    Connect,
    Options,
    Trace,
    Other(Vec<u8>),
}

/// The mathematical value of a [`Method`].
pub enum MethodView {
    Head,
    Get,
    Post,
    Put,
    Delete,
    Patch,
    Purge,
    Connect,
    Options,
    Trace,
    Other(Seq<u8>),
}

impl View for Method {
    type V = MethodView;

    open spec fn view(&self) -> MethodView {
        match self {
            Method::Head => MethodView::Head,
            Method::Get => MethodView::Get,
            Method::Post => MethodView::Post,
            Method::Put => MethodView::Put,
            Method::Delete => MethodView::Delete,
            Method::Patch => MethodView::Patch,
            Method::Purge => MethodView::Purge,
            Method::Connect => MethodView::Connect,
            Method::Options => MethodView::Options,
            Method::Trace => MethodView::Trace,
            Method::Other(raw) => MethodView::Other(raw@),
        }
    }
}

/// What method text `s` names: the matching verb, or `Other(s)`.
pub open spec fn method_of(s: Seq<u8>) -> MethodView {
    if s == ascii_seq("HEAD"@) {
        MethodView::Head
    } else if s == ascii_seq("GET"@) {
        MethodView::Get
    } else if s == ascii_seq("POST"@) {
        MethodView::Post
    } else if s == ascii_seq("PUT"@) {
        MethodView::Put
    } else if s == ascii_seq("DELETE"@) {
        MethodView::Delete
    } else if s == ascii_seq("PATCH"@) {
        MethodView::Patch
    } else if s == ascii_seq("PURGE"@) {
        MethodView::Purge
    } else if s == ascii_seq("CONNECT"@) {
        MethodView::Connect
    } else if s == ascii_seq("OPTIONS"@) {
        MethodView::Options
    } else if s == ascii_seq("TRACE"@) {
        MethodView::Trace
    } else {
        MethodView::Other(s)
    }
}

/// Parses a method. Unrecognized text is carried through as `Other`, never a
/// failure.
pub fn parse_method(s: &[u8]) -> (m: Method)
    ensures
        m@ == method_of(s@),
{
    proof {
        reveal_strlit("HEAD");
        reveal_strlit("GET");
        reveal_strlit("POST");
        reveal_strlit("PUT");
        reveal_strlit("DELETE");
        reveal_strlit("PATCH");
        reveal_strlit("PURGE");
        reveal_strlit("CONNECT");
        reveal_strlit("OPTIONS");
        reveal_strlit("TRACE");
    }
    if eq_bytes(s, ascii_bytes("HEAD").as_slice()) {
        Method::Head
    } else if eq_bytes(s, ascii_bytes("GET").as_slice()) {
        Method::Get
    } else if eq_bytes(s, ascii_bytes("POST").as_slice()) {
        Method::Post
    } else if eq_bytes(s, ascii_bytes("PUT").as_slice()) {
        Method::Put
    } else if eq_bytes(s, ascii_bytes("DELETE").as_slice()) {
        Method::Delete
    } else if eq_bytes(s, ascii_bytes("PATCH").as_slice()) {
        Method::Patch
    } else if eq_bytes(s, ascii_bytes("PURGE").as_slice()) {
        Method::Purge
    } else if eq_bytes(s, ascii_bytes("CONNECT").as_slice()) {
        Method::Connect
    } else if eq_bytes(s, ascii_bytes("OPTIONS").as_slice()) {
        Method::Options
    } else if eq_bytes(s, ascii_bytes("TRACE").as_slice()) {
        Method::Trace
    } else {
        let mut raw: Vec<u8> = Vec::new();
        crate::bytes::push_all(&mut raw, s);
        proof {
            assert(raw@ =~= s@);
        }
        Method::Other(raw)
    }
}

/// The protocol version of a request, normalized.
#[derive(Debug, Clone, Copy, PartialEq, Eq, Structural)]
pub enum Version {
    Http10,
    Http11,
}

/// What version text `s` names: `1.0`, or HTTP/1.1 for every other text (the
/// explicit fallback for unrecognized versions).
pub open spec fn version_of(s: Seq<u8>) -> Version {
    if s == ascii_seq("1.0"@) {
        Version::Http10
    } else {
        Version::Http11
    }
}

/// Parses a version string, normalizing anything unrecognized to HTTP/1.1.
pub fn parse_version(s: &[u8]) -> (v: Version)
    ensures
        v == version_of(s@),
{
    proof {
        reveal_strlit("1.0");
    }
    if eq_bytes(s, ascii_bytes("1.0").as_slice()) {
        Version::Http10
    } else {
        Version::Http11
    }
}

/// Whether the request came in over TLS.
#[derive(Debug, Clone, Copy, PartialEq, Eq, Structural)]
pub enum Scheme {
    Http,
    Https,
}

/// The remote peer: the four octets of its IPv4 address, in network order,
/// and its port.
pub struct RemoteAddr {
    pub ip: [u8; 4],
    pub port: u16,
}

/// The four octets of a host-order 32-bit address, most significant first.
pub open spec fn ip_octets(ip: u32) -> Seq<u8> {
    seq![
        (ip >> 24) as u8,
        ((ip >> 16) & 0xff) as u8,
        ((ip >> 8) & 0xff) as u8,
        (ip & 0xff) as u8,
    ]
}

/// The engine's per-request record, as the plain values of its fields: the
/// request line's parts as raw byte strings where the engine supplied them,
/// the remote endpoint, the TLS flag, and the raw header buffer.
pub struct RequestInfo {
    pub method: Option<Vec<u8>>,
    pub uri: Option<Vec<u8>>,
    pub http_version: Option<Vec<u8>>,
    pub query_string: Option<Vec<u8>>,
    pub remote_user: Option<Vec<u8>>,
    pub remote_ip: u32,
    pub remote_port: u16,
    pub is_ssl: bool,
    pub headers: Vec<Header>,
}

/// Why a request view could not be built from the engine's record.
#[derive(Debug, Clone, Copy, PartialEq, Eq, Structural)]
pub enum BuildError {
    /// The record carries no request method.
    NoMethod,
    /// The record carries no request path.
    NoUri,
}

/// The structured request the handler consumes, built once per invocation
/// from the engine's record and valid only within that invocation.
pub struct CivetRequest {
    pub method: Method,
    pub version: Version,
    pub path: Vec<u8>,
    pub query: Option<Vec<u8>>,
    pub remote_user: Option<Vec<u8>>,
    pub remote_ip: u32,
    pub remote_port: u16,
    pub ssl: bool,
    pub headers: Headers,
}

/// The content length a header list states: the value of its first
/// `Content-Length` record read as a decimal number, absent where there is no
/// such record or its text is not a number that fits.
pub open spec fn content_length_spec(hs: Seq<(Seq<u8>, Seq<u8>)>) -> Option<u64> {
    match find_spec(hs, ascii_seq("Content-Length"@)) {
        Some(v) => if v.len() > 0 && all_digits(v) && dec_value(v) <= u64::MAX {
            Some(dec_value(v) as u64)
        } else {
            None
        },
        None => None,
    }
}

impl CivetRequest {
    /// Builds the request view from the engine's record. Fails exactly where
    /// the record carries no method or no path; every other field has a
    /// documented fallback.
    pub fn build(info: RequestInfo) -> (r: Result<CivetRequest, BuildError>)
        ensures
            r is Err <==> info.method is None || info.uri is None,
            r == Err::<CivetRequest, BuildError>(BuildError::NoMethod) <==> info.method is None,
            info.method is Some && info.uri is None ==> r == Err::<CivetRequest, BuildError>(
                BuildError::NoUri,
            ),
            r matches Ok(req) ==> {
                &&& req.method@ == method_of(info.method->Some_0@)
                &&& req.version == match info.http_version {
                    Some(v) => version_of(v@),
                    None => Version::Http11,
                }
                &&& req.path@ == info.uri->Some_0@
                &&& req.query.deep_view() == info.query_string.deep_view()
                &&& req.remote_user.deep_view() == info.remote_user.deep_view()
                &&& req.remote_ip == info.remote_ip
                &&& req.remote_port == info.remote_port
                &&& req.ssl == info.is_ssl
                &&& req.headers@ == header_view(records_view(info.headers@))
            },
    {
        let method_text = match info.method {
            Some(m) => m,
            None => {
                return Err(BuildError::NoMethod);
            },
        };
        let path = match info.uri {
            Some(u) => u,
            None => {
                return Err(BuildError::NoUri);
            },
        };
        let version = match info.http_version {
            Some(v) => parse_version(v.as_slice()),
            None => Version::Http11,
        };
        Ok(
            CivetRequest {
                method: parse_method(method_text.as_slice()),
                version,
                path,
                query: info.query_string,
                remote_user: info.remote_user,
                remote_ip: info.remote_ip,
                remote_port: info.remote_port,
                ssl: info.is_ssl,
                headers: Headers::from_raw(info.headers),
            },
        )
    }

    /// The request's method.
    pub fn method(&self) -> (m: &Method)
        ensures
            m == self.method,
    {
        &self.method
    }

    /// The request's protocol version.
    pub fn http_version(&self) -> (v: Version)
        ensures
            v == self.version,
    {
        self.version
    }

    /// The scheme the request came in over: HTTPS exactly on a TLS
    /// connection.
    pub fn scheme(&self) -> (s: Scheme)
        ensures
            s == (if self.ssl {
                Scheme::Https
            } else {
                Scheme::Http
            }),
    {
        if self.ssl {
            Scheme::Https
        } else {
            Scheme::Http
        }
    }

    /// The request's URL path.
    pub fn path(&self) -> (p: &Vec<u8>)
        ensures
            p == self.path,
    {
        &self.path
    }

    /// The request's query string, absent where the request carried none.
    pub fn query_string(&self) -> (q: Option<&Vec<u8>>)
        ensures
            q is Some <==> self.query is Some,
            q matches Some(v) ==> v@ == self.query->Some_0@,
    {
        match &self.query {
            Some(v) => Some(v),
            None => None,
        }
    }

    /// The authenticated remote user, absent where the engine knows none.
    pub fn remote_user(&self) -> (u: Option<&Vec<u8>>)
        ensures
            u is Some <==> self.remote_user is Some,
            u matches Some(v) ==> v@ == self.remote_user->Some_0@,
    {
        match &self.remote_user {
            Some(v) => Some(v),
            None => None,
        }
    }

    /// The remote peer's address: the four octets of the engine's host-order
    /// 32-bit value, and the remote port.
    pub fn remote_addr(&self) -> (r: RemoteAddr)
        ensures
            r.ip@ == ip_octets(self.remote_ip),
            r.port == self.remote_port,
    {
        let ip = self.remote_ip;
        proof {
            assert(ip >> 24 <= 0xff && (ip >> 16) & 0xff <= 0xff && (ip >> 8) & 0xff <= 0xff && ip
                & 0xff <= 0xff) by (bit_vector);
        }
        let octets: [u8; 4] = [
            (ip >> 24) as u8,
            ((ip >> 16) & 0xff) as u8,
            ((ip >> 8) & 0xff) as u8,
            (ip & 0xff) as u8,
        ];
        proof {
            assert(octets@ =~= ip_octets(ip));
        }
        RemoteAddr { ip: octets, port: self.remote_port }
    }

    /// Whether the request came in over TLS.
    pub fn is_ssl(&self) -> (r: bool)
        ensures
            r == self.ssl,
    {
        self.ssl
    }

    /// The request's Header View.
    pub fn headers(&self) -> (h: &Headers)
        ensures
            h == self.headers,
    {
        &self.headers
    }

    /// The content length the request states, absent where there is no
    /// `Content-Length` header or its text is not a number.
    pub fn content_length(&self) -> (r: Option<u64>)
        ensures
            r == content_length_spec(self.headers@),
    {
        proof {
            reveal_strlit("Content-Length");
        }
        let name = ascii_bytes("Content-Length");
        match self.headers.find(name.as_slice()) {
            Some(v) => parse_u64(v.as_slice()),
            None => None,
        }
    }

    /// Looks one request header up by name, without regard to ASCII case.
    pub fn get_header(&self, name: &[u8]) -> (r: Option<&Vec<u8>>)
        ensures
            match r {
                Some(v) => find_spec(self.headers@, name@) == Some(v@),
                None => find_spec(self.headers@, name@) is None,
            },
    {
        self.headers.find(name)
    }

    /// How many header records the request's view shows.
    pub fn count_headers(&self) -> (n: usize)
        ensures
            n == self.headers@.len(),
    {
        self.headers.len()
    }

    /// The value of the request's `Host` header, absent where none came.
    pub fn host(&self) -> (r: Option<&Vec<u8>>)
        ensures
            match r {
                Some(v) => find_spec(self.headers@, ascii_seq("Host"@)) == Some(v@),
                None => find_spec(self.headers@, ascii_seq("Host"@)) is None,
            },
    {
        proof {
            reveal_strlit("Host");
        }
        let name = ascii_bytes("Host");
        self.headers.find(name.as_slice())
    }

    /// The virtual root of the request: this adapter serves none.
    pub fn virtual_root(&self) -> (r: Option<&Vec<u8>>)
        ensures
            r is None,
    {
        None
    }
}

} // verus!
