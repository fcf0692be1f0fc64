//! Versions of the software around the server: the combined report and
//! the Media Scanner endpoint. Probing the system for the versions
//! themselves is I/O and is done by the embedding program.

use vstd::prelude::*;

pub mod scanner;

verus! {

/// Combined system version information.
#[derive(Debug, Clone)]
pub struct SystemVersions {
    /// CasparCG server version (from the AMCP connection).
    pub caspar_version: Option<String>,
    /// DeckLink driver version.
    pub decklink_version: Option<String>,
    /// NDI Tools version.
    pub ndi_version: Option<String>,
    /// Media Scanner version.
    pub scanner_version: Option<String>,
}

impl Default for SystemVersions {
    fn default() -> (r: Self)
        ensures
            r.caspar_version is None,
            r.decklink_version is None,
            r.ndi_version is None,
            r.scanner_version is None,
    {
        SystemVersions {
            caspar_version: None,
            decklink_version: None,
            ndi_version: None,
            scanner_version: None,
        }
    }
}

} // verus!
