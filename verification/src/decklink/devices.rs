//! DeckLink device enumeration and information.
//!
//! Without the vendor SDK linked in, enumeration serves a fixed set of
//! development devices; looking a device up by persistent ID or by index
//! works the same either way.

use vstd::prelude::*;
use vstd::string::*;

use crate::text::{contains_seq, contains_sub};

verus! {

/// Information about a DeckLink device.
#[derive(Debug, Clone)]
pub struct DeckLinkDevice {
    /// Device index (1-based, for the CasparCG configuration).
    pub index: u32,
    /// Persistent ID for identifying the device across reboots.
    pub persistent_id: String,
    /// Model name.
    pub model_name: String,
    /// Display name (user-configurable).
    pub display_name: String,
    /// User-assigned device label.
    pub device_label: Option<String>,
    /// Whether the device supports duplex mode configuration.
    pub supports_duplex: bool,
    /// Current duplex mode if applicable.
    pub duplex_mode: Option<String>,
    /// Number of SDI inputs.
    pub sdi_inputs: u32,
    /// Number of SDI outputs.
    pub sdi_outputs: u32,
    /// Whether the device supports internal keying.
    pub supports_internal_keying: bool,
    /// Whether the device supports external keying.
    pub supports_external_keying: bool,
    /// Whether the device supports capture.
    pub supports_capture: bool,
    /// Whether the device supports playback.
    pub supports_playback: bool,
    /// Maximum audio channels supported.
    pub max_audio_channels: u32,
}

impl DeckLinkDevice {
    /// Whether this is a Duo or Quad card: the model name names one of
    /// the multi-port families.
    pub fn is_multi_port(&self) -> (r: bool)
        ensures
            r == (contains_seq(self.model_name@, "Duo"@) || contains_seq(
                self.model_name@,
                "Quad"@,
            )),
    {
        contains_sub(self.model_name.as_str(), "Duo") || contains_sub(
            self.model_name.as_str(),
            "Quad",
        )
    }
}

/// Failures of DeckLink operations.
#[derive(Debug, Clone)]
pub enum DeckLinkError {
    SdkNotAvailable,
    NotInitialised,
    ComFailed,
    NoDriver,
    DeviceNotFound(String),
    EnumerationFailed(String),
    ConfigError(String),
}

impl DeckLinkError {
    /// A human-readable description of the failure.
    pub fn describe(&self) -> (r: String)
        ensures
            match self {
                DeckLinkError::SdkNotAvailable => r@ == "DeckLink SDK not available"@,
                DeckLinkError::NotInitialised => r@ == "DeckLink not initialised"@,
                DeckLinkError::ComFailed => r@ == "DeckLink COM initialisation failed"@,
                DeckLinkError::NoDriver => r@ == "DeckLink drivers not installed"@,
                DeckLinkError::DeviceNotFound(m) => r@ == "Device not found: "@ + m@,
                DeckLinkError::EnumerationFailed(m) => r@ == "Failed to enumerate devices: "@
                    + m@,
                DeckLinkError::ConfigError(m) => r@ == "Configuration error: "@ + m@,
            },
    {
        match self {
            DeckLinkError::SdkNotAvailable => String::from_str("DeckLink SDK not available"),
            DeckLinkError::NotInitialised => String::from_str("DeckLink not initialised"),
            DeckLinkError::ComFailed => String::from_str("DeckLink COM initialisation failed"),
            DeckLinkError::NoDriver => String::from_str("DeckLink drivers not installed"),
            DeckLinkError::DeviceNotFound(m) => {
                let mut s = String::from_str("Device not found: ");
                s.append(m.as_str());
                s
            },
            DeckLinkError::EnumerationFailed(m) => {
                let mut s = String::from_str("Failed to enumerate devices: ");
                s.append(m.as_str());
                s
            },
            DeckLinkError::ConfigError(m) => {
                let mut s = String::from_str("Configuration error: ");
                s.append(m.as_str());
                s
            },
        }
    }
}

/// Prepares device enumeration. Without the vendor SDK there is nothing
/// to initialise and the call always succeeds.
pub fn init() -> (r: Result<(), DeckLinkError>)
    ensures
        r is Ok,
{
    Ok(())
}

fn mock_duo_device(index: u32, persistent_id: &str, display_name: &str) -> (r: DeckLinkDevice)
    ensures
        r.index == index,
        r.persistent_id@ == persistent_id@,
        r.model_name@ == "DeckLink Duo 2"@,
        r.display_name@ == display_name@,
        r.device_label is None,
        r.supports_duplex == true,
        r.duplex_mode matches Some(m) && m@ == "half"@,
        r.sdi_inputs == 2,
        r.sdi_outputs == 2,
        r.supports_internal_keying == false,
        r.supports_external_keying == true,
        r.supports_capture == true,
        r.supports_playback == true,
        r.max_audio_channels == 16,
{
    DeckLinkDevice {
        index,
        persistent_id: String::from_str(persistent_id),
        model_name: String::from_str("DeckLink Duo 2"),
        display_name: String::from_str(display_name),
        device_label: None,
        supports_duplex: true,
        duplex_mode: Some(String::from_str("half")),
        sdi_inputs: 2,
        sdi_outputs: 2,
        supports_internal_keying: false,
        supports_external_keying: true,
        supports_capture: true,
        supports_playback: true,
        max_audio_channels: 16,
    }
}

/// Lists the available DeckLink devices. Without the vendor SDK this is
/// a fixed development set: two Duo 2 sub-devices and a Mini Monitor 4K.
pub fn list_devices() -> (r: Result<Vec<DeckLinkDevice>, DeckLinkError>)
    ensures
        r matches Ok(devices) && ({
            &&& devices@.len() == 3
            &&& devices@[0].index == 1
            &&& devices@[0].persistent_id@ == "0x12345678"@
            &&& devices@[0].model_name@ == "DeckLink Duo 2"@
            &&& devices@[0].supports_duplex
            &&& (devices@[0].duplex_mode matches Some(m) && m@ == "half"@)
            &&& devices@[1].index == 2
            &&& devices@[1].persistent_id@ == "0x12345679"@
            &&& devices@[1].model_name@ == "DeckLink Duo 2"@
            &&& devices@[1].supports_duplex
            &&& (devices@[1].duplex_mode matches Some(m) && m@ == "half"@)
            &&& devices@[2].index == 3
            &&& devices@[2].persistent_id@ == "0x87654321"@
            &&& devices@[2].model_name@ == "DeckLink Mini Monitor 4K"@
            &&& !devices@[2].supports_duplex
            &&& devices@[2].duplex_mode is None
            &&& (devices@[2].device_label matches Some(l) && l@ == "PGM Output"@)
            &&& devices@[2].sdi_inputs == 0
            &&& devices@[2].sdi_outputs == 1
            &&& devices@[2].max_audio_channels == 8
        }),
{
    let mut devices: Vec<DeckLinkDevice> = Vec::new();
    devices.push(mock_duo_device(1, "0x12345678", "DeckLink Duo 2 (1)"));
    devices.push(mock_duo_device(2, "0x12345679", "DeckLink Duo 2 (2)"));
    devices.push(
        DeckLinkDevice {
            index: 3,
            persistent_id: String::from_str("0x87654321"),
            model_name: String::from_str("DeckLink Mini Monitor 4K"),
            display_name: String::from_str("DeckLink Mini Monitor 4K"),
            device_label: Some(String::from_str("PGM Output")),
            supports_duplex: false,
            duplex_mode: None,
            sdi_inputs: 0,
            sdi_outputs: 1,
            supports_internal_keying: false,
            supports_external_keying: false,
            supports_capture: false,
            supports_playback: true,
            max_audio_channels: 8,
        },
    );
    Ok(devices)
}

/// Finds the device with the given persistent ID: the first listed device
/// whose ID matches, or `DeviceNotFound` naming the ID when none does.
pub fn get_device_by_id(persistent_id: &str) -> (r: Result<DeckLinkDevice, DeckLinkError>)
    ensures
        match r {
            Ok(d) => d.persistent_id@ == persistent_id@,
            Err(e) => (e matches DeckLinkError::DeviceNotFound(m) && m@ == persistent_id@)
                && persistent_id@ != "0x12345678"@ && persistent_id@ != "0x12345679"@
                && persistent_id@ != "0x87654321"@,
        },
{
    let devices = match list_devices() {
        Ok(d) => d,
        Err(e) => {
            return Err(e);
        },
    };
    let mut i: usize = 0;
    while i < devices.len()
        invariant
            0 <= i <= devices@.len(),
            devices@.len() == 3,
            devices@[0].persistent_id@ == "0x12345678"@,
            devices@[1].persistent_id@ == "0x12345679"@,
            devices@[2].persistent_id@ == "0x87654321"@,
            forall|j: int| 0 <= j < i ==> #[trigger] devices@[j].persistent_id@ != persistent_id@,
        decreases devices@.len() - i,
    {
        if crate::text::str_eq(devices[i].persistent_id.as_str(), persistent_id) {
            let mut devices = devices;
            let d = devices.remove(i);
            return Ok(d);
        }
        i += 1;
    }
    Err(DeckLinkError::DeviceNotFound(String::from_str(persistent_id)))
}

/// Finds the device with the given 1-based index, or `DeviceNotFound`
/// naming the index when none matches.
pub fn get_device_by_index(index: u32) -> (r: Result<DeckLinkDevice, DeckLinkError>)
    ensures
        match r {
            Ok(d) => d.index == index && 1 <= index <= 3,
            Err(e) => (e matches DeckLinkError::DeviceNotFound(m) && m@ == "index "@
                + crate::text::dec_digits(index as nat)) && !(1 <= index <= 3),
        },
{
    let devices = match list_devices() {
        Ok(d) => d,
        Err(e) => {
            return Err(e);
        },
    };
    let mut i: usize = 0;
    while i < devices.len()
        invariant
            0 <= i <= devices@.len(),
            devices@.len() == 3,
            devices@[0].index == 1,
            devices@[1].index == 2,
            devices@[2].index == 3,
            forall|j: int| 0 <= j < i ==> #[trigger] devices@[j].index != index,
        decreases devices@.len() - i,
    {
        if devices[i].index == index {
            let mut devices = devices;
            let d = devices.remove(i);
            return Ok(d);
        }
        i += 1;
    }
    let mut m = String::from_str("index ");
    let ix = crate::text::u32_to_string(index);
    m.append(ix.as_str());
    proof {
        reveal_strlit("index ");
    }
    Err(DeckLinkError::DeviceNotFound(m))
}

/// The DeckLink API version. Without the vendor SDK a fixed development
/// version is reported.
pub fn get_api_version() -> (r: Result<Option<String>, DeckLinkError>)
    ensures
        r matches Ok(v) && (v matches Some(s) && s@ == "15.3 (mock)"@),
{
    Ok(Some(String::from_str("15.3 (mock)")))
}

/// The DeckLink driver version. Driver version detection would need
/// further SDK calls, so the API version stands in for it.
pub fn get_driver_version() -> (r: Result<Option<String>, DeckLinkError>)
    ensures
        r matches Ok(v) && (v matches Some(s) && s@ == "15.3 (mock)"@),
{
    get_api_version()
}

} // verus!
