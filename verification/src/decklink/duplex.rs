//! Duplex-mode configuration for Duo 2 and Quad 2 cards.

use vstd::prelude::*;
use vstd::string::*;

use crate::decklink::devices::{DeckLinkDevice, DeckLinkError};
use crate::text::{seq_ieq, str_ieq};

verus! {

/// Duplex mode of a multi-port card.
#[derive(Debug, Clone, Copy, PartialEq, Eq, Structural)]
pub enum DuplexMode {
    /// Full duplex: SDI 1+2 as a key/fill pair.
    Full,
    /// Half duplex: SDI 1 and SDI 2 as independent I/O.
    Half,
}

impl DuplexMode {
    /// The mode's display name.
    pub fn display_name(&self) -> (r: &'static str)
        ensures
            match self {
                DuplexMode::Full => r@ == "Full Duplex (Key/Fill pair)"@,
                DuplexMode::Half => r@ == "Half Duplex (Independent I/O)"@,
            },
    {
        match self {
            DuplexMode::Full => "Full Duplex (Key/Fill pair)",
            DuplexMode::Half => "Half Duplex (Independent I/O)",
        }
    }

    /// A longer description of what the mode does.
    pub fn description(&self) -> (r: &'static str)
        ensures
            match self {
                DuplexMode::Full => r@.len() > 0,
                DuplexMode::Half => r@.len() > 0,
            },
    {
        let r = match self {
            DuplexMode::Full => "SDI 1 and SDI 2 operate as a key/fill pair for external keying. This provides the best performance for graphics playout.",
            DuplexMode::Half => "SDI 1 and SDI 2 operate as independent inputs/outputs. This allows simultaneous input and output on the same card.",
        };
        proof {
            reveal_strlit(
                "SDI 1 and SDI 2 operate as a key/fill pair for external keying. This provides the best performance for graphics playout.",
            );
            reveal_strlit(
                "SDI 1 and SDI 2 operate as independent inputs/outputs. This allows simultaneous input and output on the same card.",
            );
        }
        r
    }

    /// The mode's wire spelling: `full` or `half`.
    pub fn as_str(&self) -> (r: &'static str)
        ensures
            match self {
                DuplexMode::Full => r@ == "full"@,
                DuplexMode::Half => r@ == "half"@,
            },
    {
        match self {
            DuplexMode::Full => "full",
            DuplexMode::Half => "half",
        }
    }

    /// Reads a duplex mode, ignoring ASCII case: `full` or `half`;
    /// anything else is a configuration error naming the rejected value.
    pub fn parse_mode(s: &str) -> (r: Result<DuplexMode, DeckLinkError>)
        ensures
            seq_ieq(s@, "full"@) ==> r == Ok::<DuplexMode, DeckLinkError>(DuplexMode::Full),
            seq_ieq(s@, "half"@) ==> r == Ok::<DuplexMode, DeckLinkError>(DuplexMode::Half),
            !seq_ieq(s@, "full"@) && !seq_ieq(s@, "half"@) ==> (
            r matches Err(DeckLinkError::ConfigError(m)) && m@ == "Invalid duplex mode: "@ + s@
                + ". Expected 'full' or 'half'"@),
    {
        if str_ieq(s, "full") {
            proof {
                reveal_strlit("full");
                reveal_strlit("half");
                if seq_ieq(s@, "half"@) {
                    assert(crate::text::lower_code(s@[0]) == crate::text::lower_code("full"@[0]));
                    assert(crate::text::lower_code(s@[0]) == crate::text::lower_code("half"@[0]));
                    assert(false);
                }
            }
            Ok(DuplexMode::Full)
        } else if str_ieq(s, "half") {
            Ok(DuplexMode::Half)
        } else {
            let mut m = String::from_str("Invalid duplex mode: ");
            m.append(s);
            m.append(". Expected 'full' or 'half'");
            proof {
                assert(m@ =~= "Invalid duplex mode: "@ + s@ + ". Expected 'full' or 'half'"@);
            }
            Err(DeckLinkError::ConfigError(m))
        }
    }
}

/// The current duplex mode of a device: nothing for cards without duplex
/// support, otherwise the device's recorded mode where it reads as one.
pub fn get_duplex_mode(device: &DeckLinkDevice) -> (r: Result<
    Option<DuplexMode>,
    DeckLinkError,
>)
    ensures
        !device.supports_duplex ==> (r matches Ok(m) && m is None),
        device.supports_duplex ==> (match device.duplex_mode {
            Some(m) => {
                &&& seq_ieq(m@, "full"@) ==> (r matches Ok(d) && d == Some(DuplexMode::Full))
                &&& seq_ieq(m@, "half"@) ==> (r matches Ok(d) && d == Some(DuplexMode::Half))
                &&& (!seq_ieq(m@, "full"@) && !seq_ieq(m@, "half"@)) ==> (r matches Ok(d) && d
                    is None)
            },
            None => (r matches Ok(d) && d is None),
        }),
{
    if !device.supports_duplex {
        return Ok(None);
    }
    match &device.duplex_mode {
        Some(m) => match DuplexMode::parse_mode(m.as_str()) {
            Ok(d) => Ok(Some(d)),
            Err(_) => Ok(None),
        },
        None => Ok(None),
    }
}

/// Requests a duplex mode change for the device with the given persistent
/// ID. Without the vendor SDK there is nothing to drive, and the request
/// is accepted as a no-op; the change itself would need a restart anyway.
pub fn set_duplex_mode(_persistent_id: &str, _mode: DuplexMode) -> (r: Result<(), DeckLinkError>)
    ensures
        r is Ok,
{
    Ok(())
}

/// Whether changing the duplex mode requires a system restart. The
/// vendor SDK requires one.
pub fn requires_restart_for_mode_change() -> (r: bool)
    ensures
        r == true,
{
    true
}

/// Connector mapping for multi-port cards.
#[derive(Debug, Clone)]
pub struct ConnectorMapping {
    /// SDI 1 direction.
    pub sdi1: ConnectorDirection,
    /// SDI 2 direction.
    pub sdi2: ConnectorDirection,
    /// SDI 3 direction (for Quad cards).
    pub sdi3: Option<ConnectorDirection>,
    /// SDI 4 direction (for Quad cards).
    pub sdi4: Option<ConnectorDirection>,
}

/// Direction of a connector.
#[derive(Debug, Clone, Copy, PartialEq, Eq, Structural)]
pub enum ConnectorDirection {
    Input,
    Output,
}

impl ConnectorMapping {
    /// The default mapping for a half-duplex Duo 2: both connectors out.
    pub fn duo2_half_duplex() -> (r: Self)
        ensures
            r.sdi1 == ConnectorDirection::Output,
            r.sdi2 == ConnectorDirection::Output,
            r.sdi3 is None,
            r.sdi4 is None,
    {
        ConnectorMapping {
            sdi1: ConnectorDirection::Output,
            sdi2: ConnectorDirection::Output,
            sdi3: None,
            sdi4: None,
        }
    }

    /// The default mapping for a full-duplex Duo 2: both connectors out.
    pub fn duo2_full_duplex() -> (r: Self)
        ensures
            r.sdi1 == ConnectorDirection::Output,
            r.sdi2 == ConnectorDirection::Output,
            r.sdi3 is None,
            r.sdi4 is None,
    {
        ConnectorMapping {
            sdi1: ConnectorDirection::Output,
            sdi2: ConnectorDirection::Output,
            sdi3: None,
            sdi4: None,
        }
    }
}

} // verus!
