//! Connection state and response classification for the AMCP client.
//!
//! The client records the connection lifecycle (disconnected, or connected
//! to a host and port) and decides, for each request, whether a send may
//! proceed and what is written on the wire. The actual socket dial, write
//! and read are performed by the embedding program, which reports their
//! outcomes back to this state machine.

use vstd::prelude::*;
use vstd::string::*;

use crate::amcp::codec;
use crate::text::dec_digits;

verus! {

/// A decoded AMCP reply envelope: a numeric status code, the status
/// message, and the optional multi-line data block.
#[derive(Debug, Clone)]
pub struct AmcpResponse {
    pub code: u16,
    pub message: String,
    pub data: Option<String>,
}

/// Success is the 2xx range.
pub open spec fn is_success_code(code: u16) -> bool {
    200 <= code < 300
}

/// Errors are the 4xx and 5xx ranges.
pub open spec fn is_error_code(code: u16) -> bool {
    code >= 400
}

impl AmcpResponse {
    /// Whether the status code classifies as success (2xx).
    pub fn is_success(&self) -> (r: bool)
        ensures
            r == is_success_code(self.code),
    {
        self.code >= 200 && self.code < 300
    }

    /// Whether the status code classifies as an error (4xx or 5xx).
    pub fn is_error(&self) -> (r: bool)
        ensures
            r == is_error_code(self.code),
    {
        self.code >= 400
    }
}

/// Failures the client can report.
#[derive(Debug, Clone)]
pub enum AmcpError {
    /// A send was attempted with no connection established.
    NotConnected,
    /// Dialling the server failed.
    Connection(String),
    /// Writing the command failed.
    Send(String),
    /// Reading the reply failed.
    Receive(String),
    /// The reply violated the protocol framing.
    Protocol(String),
}

impl AmcpError {
    /// A human-readable description of the failure.
    pub fn describe(&self) -> (r: String)
        ensures
            match self {
                AmcpError::NotConnected => r@ == "Not connected to server"@,
                AmcpError::Connection(m) => r@ == "Connection error: "@ + m@,
                AmcpError::Send(m) => r@ == "Send error: "@ + m@,
                AmcpError::Receive(m) => r@ == "Receive error: "@ + m@,
                AmcpError::Protocol(m) => r@ == "Protocol error: "@ + m@,
            },
    {
        match self {
            AmcpError::NotConnected => String::from_str("Not connected to server"),
            AmcpError::Connection(m) => {
                let mut s = String::from_str("Connection error: ");
                s.append(m.as_str());
                s
            },
            AmcpError::Send(m) => {
                let mut s = String::from_str("Send error: ");
                s.append(m.as_str());
                s
            },
            AmcpError::Receive(m) => {
                let mut s = String::from_str("Receive error: ");
                s.append(m.as_str());
                s
            },
            AmcpError::Protocol(m) => {
                let mut s = String::from_str("Protocol error: ");
                s.append(m.as_str());
                s
            },
        }
    }
}

/// Connection-state model of the AMCP client: either disconnected, or
/// connected to a recorded host and port. At most one live connection is
/// represented per client value.
pub struct AmcpClient {
    connected: bool,
    host: String,
    port: u16,
}

impl AmcpClient {
    /// The host and port are cleared whenever the client is disconnected.
    pub closed spec fn wf(&self) -> bool {
        !self.connected ==> self.host@.len() == 0 && self.port == 0
    }

    pub closed spec fn spec_connected(&self) -> bool {
        self.connected
    }

    pub closed spec fn spec_host(&self) -> Seq<char> {
        self.host@
    }

    pub closed spec fn spec_port(&self) -> u16 {
        self.port
    }

    /// Creates a disconnected client.
    pub fn new() -> (c: Self)
        ensures
            c.wf(),
            !c.spec_connected(),
    {
        AmcpClient { connected: false, host: String::new(), port: 0 }
    }

    /// Whether a connection is currently established.
    pub fn is_connected(&self) -> (r: bool)
        ensures
            r == self.spec_connected(),
    {
        self.connected
    }

    /// The host and port of the current connection, if any.
    pub fn connection_info(&self) -> (r: Option<(String, u16)>)
        ensures
            match r {
                Some(info) => self.spec_connected() && info.0@ == self.spec_host()
                    && info.1 == self.spec_port(),
                None => !self.spec_connected(),
            },
    {
        if self.connected {
            Some((self.host.clone(), self.port))
        } else {
            None
        }
    }

    /// Records a successful dial to `host:port`, replacing any previous
    /// connection. Called after the transport reports that the dial
    /// succeeded; on a failed dial the state is left unchanged.
    pub fn mark_connected(&mut self, host: &str, port: u16)
        ensures
            final(self).wf(),
            final(self).spec_connected(),
            final(self).spec_host() == host@,
            final(self).spec_port() == port,
    {
        self.connected = true;
        self.host = String::from_str(host);
        self.port = port;
    }

    /// Drops the connection and clears the recorded host and port.
    /// Idempotent; never fails.
    pub fn disconnect(&mut self)
        ensures
            final(self).wf(),
            !final(self).spec_connected(),
    {
        self.connected = false;
        self.host = String::new();
        self.port = 0;
    }

    /// Decides a send: with no connection the request fails with
    /// `NotConnected` and nothing is produced for the wire; otherwise the
    /// command is framed with the CRLF terminator, ready to be written.
    pub fn begin_send(&self, command: &str) -> (r: Result<String, AmcpError>)
        ensures
            self.spec_connected() ==> (r matches Ok(w) && w@ == command@ + codec::crlf()),
            !self.spec_connected() ==> r matches Err(AmcpError::NotConnected),
    {
        if !self.connected {
            return Err(AmcpError::NotConnected);
        }
        Ok(codec::encode_command(command))
    }

    /// The `host:port` dial string for a connection attempt.
    pub fn dial_address(host: &str, port: u16) -> (r: String)
        ensures
            r@ == host@ + seq![':'] + dec_digits(port as nat),
    {
        let mut s = String::from_str(host);
        s.append(":");
        let p = crate::text::u16_to_string(port);
        s.append(p.as_str());
        proof {
            reveal_strlit(":");
            assert(s@ =~= host@ + seq![':'] + dec_digits(port as nat));
        }
        s
    }
}

} // verus!
