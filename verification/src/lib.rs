//! A verified request/response adaptation layer for an embedded native HTTP
//! engine.
//!
//! The native engine accepts connections, parses request lines and header
//! blocks, and dispatches one callback per request with an opaque per-request
//! handle. This crate holds the logic of the layer between that engine and an
//! application handler: the bounded header view, the request metadata view,
//! the classification of the engine's byte-level read and write results, the
//! byte-exact serialization of responses, the drain guard that has exactly one
//! well-formed response written per request, and the server lifecycle rules.
//!
//! The engine itself (sockets, threads, the foreign call boundary) stays
//! outside: it hands this crate plain values and takes plain values back.

pub mod bytes;
pub mod config;
pub mod conn;
pub mod headers;
pub mod invoke;
pub mod lifecycle;
pub mod request;
pub mod wire;

pub use bytes::eq_ignore_ascii_case;
pub use bytes::format_u64;
pub use bytes::parse_u64;
pub use config::Config;
pub use conn::Connection;
pub use headers::Headers;
pub use lifecycle::Server;
pub use request::CivetRequest;
pub use wire::Response;
