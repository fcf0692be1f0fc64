//! The Media Scanner's HTTP endpoint.

use vstd::prelude::*;
use vstd::string::*;

use crate::text::dec_digits;

verus! {

/// Where the Media Scanner's HTTP interface lives.
#[derive(Debug, Clone)]
pub struct ScannerEndpoint {
    pub host: String,
    pub port: u16,
}

impl Default for ScannerEndpoint {
    fn default() -> (r: Self)
        ensures
            r.host@ == "localhost"@,
            r.port == 8000,
    {
        ScannerEndpoint { host: String::from_str("localhost"), port: 8000 }
    }
}

impl ScannerEndpoint {
    /// The endpoint's base URL.
    pub fn url(&self) -> (r: String)
        ensures
            r@ == "http://"@ + self.host@ + ":"@ + dec_digits(self.port as nat),
    {
        let mut s = String::from_str("http://");
        s.append(self.host.as_str());
        s.append(":");
        let p = crate::text::u16_to_string(self.port);
        s.append(p.as_str());
        proof {
            reveal_strlit("http://");
            reveal_strlit(":");
            assert(s@ =~= "http://"@ + self.host@ + ":"@ + dec_digits(self.port as nat));
        }
        s
    }
}

/// Failures when talking to the Media Scanner.
#[derive(Debug, Clone)]
pub enum ScannerError {
    ConnectionFailed(String),
    InvalidResponse(String),
    NotRunning,
}

impl ScannerError {
    /// A human-readable description of the failure.
    pub fn describe(&self) -> (r: String)
        ensures
            match self {
                ScannerError::ConnectionFailed(m) => r@ == "Connection failed: "@ + m@,
                ScannerError::InvalidResponse(m) => r@ == "Invalid response: "@ + m@,
                ScannerError::NotRunning => r@ == "Scanner not running"@,
            },
    {
        match self {
            ScannerError::ConnectionFailed(m) => {
                let mut s = String::from_str("Connection failed: ");
                s.append(m.as_str());
                s
            },
            ScannerError::InvalidResponse(m) => {
                let mut s = String::from_str("Invalid response: ");
                s.append(m.as_str());
                s
            },
            ScannerError::NotRunning => String::from_str("Scanner not running"),
        }
    }
}

} // verus!
