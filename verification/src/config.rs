//! Server configuration: the listening port and the worker thread count, and
//! the option list the engine's start call takes.

use vstd::prelude::*;

use crate::bytes::dec_digits;
use crate::bytes::format_u64;
use crate::wire::ascii_bytes;
use crate::wire::ascii_seq;

verus! {

/// What a server is started with: its listening port and the size of the
/// engine's worker thread pool.
#[derive(Debug, Clone, Copy, PartialEq, Eq, Structural)]
pub struct Config {
    pub port: u16,
    pub threads: u32,
}

impl Config {
    /// The stock configuration: port 8888, 50 worker threads.
    pub fn default() -> (c: Config)
        ensures
            c.port == 8888,
            c.threads == 50,
    {
        Config { port: 8888, threads: 50 }
    }

    /// A fresh configuration, the same as the stock one.
    pub fn new() -> (c: Config)
        ensures
            c.port == 8888,
            c.threads == 50,
    {
        Config::default()
    }

    /// This configuration with the given listening port.
    pub fn port(self, port: u16) -> (c: Config)
        ensures
            c.port == port,
            c.threads == self.threads,
    {
        Config { port, ..self }
    }

    /// This configuration with the given worker thread count.
    pub fn threads(self, threads: u32) -> (c: Config)
        ensures
            c.port == self.port,
            c.threads == threads,
    {
        Config { threads, ..self }
    }

    /// The ordered flat option list the engine's start call takes:
    /// `listening_ports` with the port and `num_threads` with the thread
    /// count, both in decimal.
    pub fn options(&self) -> (r: Vec<(Vec<u8>, Vec<u8>)>)
        ensures
            r@.len() == 2,
            r@[0].0@ == ascii_seq("listening_ports"@),
            r@[0].1@ == dec_digits(self.port as nat),
            r@[1].0@ == ascii_seq("num_threads"@),
            r@[1].1@ == dec_digits(self.threads as nat),
    {
        proof {
            reveal_strlit("listening_ports");
            reveal_strlit("num_threads");
        }
        let mut r: Vec<(Vec<u8>, Vec<u8>)> = Vec::new();
        r.push((ascii_bytes("listening_ports"), format_u64(self.port as u64)));
        r.push((ascii_bytes("num_threads"), format_u64(self.threads as u64)));
        r
    }
}

} // verus!
