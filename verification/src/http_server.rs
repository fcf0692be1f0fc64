//! Model of the test-pattern HTTP server state and the URLs it serves.
//!
//! The server hands CasparCG's embedded browser the key/fill identifier
//! page over HTTP. This module tracks whether the server is running and on
//! which port, and builds the URLs; binding the socket and serving files
//! are done by the embedding program, which reports the outcome here.

use vstd::prelude::*;
use vstd::string::*;

use crate::text::dec_digits;

verus! {

/// The URL of the key/fill identifier template for one channel and mode.
pub open spec fn test_pattern_url_spec(base: Seq<char>, mode: Seq<char>, channel: nat) -> Seq<
    char,
> {
    base + "/key-fill-identifier.html?mode="@ + mode + "&id="@ + dec_digits(channel)
}

/// Builds the URL for the key/fill identifier template.
pub fn get_test_pattern_url(base_url: &str, channel: u32, mode: &str) -> (r: String)
    ensures
        r@ == test_pattern_url_spec(base_url@, mode@, channel as nat),
{
    let mut s = String::from_str(base_url);
    s.append("/key-fill-identifier.html?mode=");
    s.append(mode);
    s.append("&id=");
    let ch = crate::text::u32_to_string(channel);
    s.append(ch.as_str());
    proof {
        reveal_strlit("/key-fill-identifier.html?mode=");
        reveal_strlit("&id=");
        assert(s@ =~= test_pattern_url_spec(base_url@, mode@, channel as nat));
    }
    s
}

/// State of the test HTTP server: the port it listens on, or `None` while
/// it is not running.
pub struct TestServer {
    port: Option<u16>,
}

impl TestServer {
    pub closed spec fn spec_port(&self) -> Option<u16> {
        self.port
    }

    /// Creates the model of a stopped server.
    pub fn new() -> (r: Self)
        ensures
            r.spec_port() is None,
    {
        TestServer { port: None }
    }

    /// Whether the server is running.
    pub fn is_running(&self) -> (r: bool)
        ensures
            r == (self.spec_port() is Some),
    {
        self.port.is_some()
    }

    /// The port the server listens on, if running.
    pub fn port(&self) -> (r: Option<u16>)
        ensures
            r == self.spec_port(),
    {
        self.port
    }

    /// The loopback base URL of the running server.
    pub fn url(&self) -> (r: Option<String>)
        ensures
            match r {
                Some(u) => self.spec_port() matches Some(p) && u@ == "http://127.0.0.1:"@
                    + dec_digits(p as nat),
                None => self.spec_port() is None,
            },
    {
        match self.port {
            Some(p) => {
                let mut s = String::from_str("http://127.0.0.1:");
                let ps = crate::text::u16_to_string(p);
                s.append(ps.as_str());
                Some(s)
            },
            None => None,
        }
    }

    /// Records that the server came up on the given port.
    pub fn mark_started(&mut self, port: u16)
        ensures
            final(self).spec_port() == Some(port),
    {
        self.port = Some(port);
    }

    /// Records that the server was shut down.
    pub fn mark_stopped(&mut self)
        ensures
            final(self).spec_port() is None,
    {
        self.port = None;
    }
}

} // verus!
