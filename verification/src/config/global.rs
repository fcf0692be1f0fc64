//! The profile format the GUI stores: the CasparCG configuration wrapped
//! together with DeckLink device settings, a profile name and timestamps,
//! and the GUI's own settings.
//!
//! Timestamps are carried as RFC 3339 text; reading and writing the JSON
//! files is done by the embedding program.

use vstd::prelude::*;
use vstd::string::*;

use crate::config::schema::CasparConfig;

verus! {

/// Direction assigned to a connector of a multi-port card.
#[derive(Debug, Clone, Copy, PartialEq, Eq, Structural)]
pub enum ConnectorMode {
    Input,
    Output,
}

/// One connector's assigned mode.
#[derive(Debug, Clone)]
pub struct ConnectorAssignment {
    pub connector: String,
    pub mode: ConnectorMode,
}

/// DeckLink device configuration stored in a profile.
#[derive(Debug, Clone)]
pub struct DeckLinkDeviceConfig {
    /// Persistent ID used to identify the card across reboots.
    pub persistent_id: String,
    /// Model name.
    pub model_name: String,
    /// User-assigned label.
    pub label: Option<String>,
    /// Duplex mode for cards that support it.
    pub duplex_mode: Option<String>,
    /// Connector mapping for multi-port cards.
    pub connector_mapping: Option<Vec<ConnectorAssignment>>,
}

impl DeckLinkDeviceConfig {
    /// A connector mapping names each connector at most once.
    pub open spec fn wf(&self) -> bool {
        match self.connector_mapping {
            Some(m) => forall|i: int, j: int|
                0 <= i < j < m@.len() ==> m@[i].connector@ != m@[j].connector@,
            None => true,
        }
    }
}

/// DeckLink section of a profile.
#[derive(Debug, Clone)]
pub struct DeckLinkConfig {
    pub devices: Vec<DeckLinkDeviceConfig>,
}

impl Default for DeckLinkConfig {
    fn default() -> (r: Self)
        ensures
            r.devices@.len() == 0,
    {
        DeckLinkConfig { devices: Vec::new() }
    }
}

/// Relies on chrono's `Utc::now` and `DateTime::to_rfc3339`: the current
/// UTC time rendered as an RFC 3339 timestamp. The value depends on the
/// clock, so only non-emptiness is assumed.
#[verifier::external_body]
fn now_rfc3339() -> (r: String)
    ensures
        r@.len() > 0,
{
    chrono::Utc::now().to_rfc3339()
}

/// Relies on dirs' `config_dir`: the platform's configuration directory,
/// if the platform defines one. The result depends on the environment, so
/// nothing is assumed of it.
#[verifier::external_body]
fn config_dir_string() -> Option<String> {
    dirs::config_dir().map(|p| p.to_string_lossy().into_owned())
}

/// A profile: the wrapped CasparCG configuration, DeckLink settings, a
/// name and creation/modification timestamps.
#[derive(Debug, Clone)]
pub struct GlobalConfig {
    /// Config format version.
    pub version: String,
    /// User-friendly profile name.
    pub name: String,
    /// Creation timestamp, RFC 3339.
    pub created: String,
    /// Last modification timestamp, RFC 3339.
    pub modified: String,
    /// CasparCG server configuration.
    pub caspar: CasparConfig,
    /// DeckLink device configuration.
    pub decklink: DeckLinkConfig,
}

impl GlobalConfig {
    /// Creates a profile with the given name, the default CasparCG
    /// configuration, no DeckLink devices, and both timestamps set to the
    /// present moment.
    pub fn new(name: &str) -> (r: Self)
        ensures
            r.version@ == "1.0"@,
            r.name@ == name@,
            r.created@ == r.modified@,
            r.created@.len() > 0,
            r.caspar.channels@.len() == 1,
            r.caspar.controllers.tcp.port == 5250,
            r.caspar.amcp.media_server is None,
            r.decklink.devices@.len() == 0,
    {
        let now = now_rfc3339();
        GlobalConfig {
            version: String::from_str("1.0"),
            name: String::from_str(name),
            created: now.clone(),
            modified: now,
            caspar: CasparConfig::default(),
            decklink: DeckLinkConfig::default(),
        }
    }

    /// Refreshes the modification timestamp, leaving everything else as
    /// it is.
    pub fn touch(&mut self)
        ensures
            final(self).modified@.len() > 0,
            final(self).version == old(self).version,
            final(self).name == old(self).name,
            final(self).created == old(self).created,
            final(self).caspar == old(self).caspar,
            final(self).decklink == old(self).decklink,
    {
        self.modified = now_rfc3339();
    }
}

impl Default for GlobalConfig {
    /// The default profile, named accordingly.
    fn default() -> (r: Self)
        ensures
            r.version@ == "1.0"@,
            r.name@ == "Default Profile"@,
            r.created@ == r.modified@,
            r.caspar.channels@.len() == 1,
            r.decklink.devices@.len() == 0,
    {
        GlobalConfig::new("Default Profile")
    }
}

/// GUI settings stored separately from profiles.
#[derive(Debug, Clone)]
pub struct GuiSettings {
    /// Path to the CasparCG installation directory.
    pub caspar_path: Option<String>,
    /// Last used profile name.
    pub last_profile: Option<String>,
    /// Last AMCP host.
    pub last_host: Option<String>,
    /// Last AMCP port.
    pub last_port: Option<u16>,
    /// Whether the server was running when the GUI last closed.
    pub last_server_was_running: bool,
    /// Window width.
    pub window_width: Option<u32>,
    /// Window height.
    pub window_height: Option<u32>,
}

impl Default for GuiSettings {
    fn default() -> (r: Self)
        ensures
            r.caspar_path is None,
            r.last_profile is None,
            r.last_host matches Some(h) && h@ == "localhost"@,
            r.last_port == Some(5250u16),
            r.last_server_was_running == false,
            r.window_width is None,
            r.window_height is None,
    {
        GuiSettings {
            caspar_path: None,
            last_profile: None,
            last_host: Some(String::from_str("localhost")),
            last_port: Some(5250),
            last_server_was_running: false,
            window_width: None,
            window_height: None,
        }
    }
}

impl GuiSettings {
    /// The location of the settings file: the platform's configuration
    /// directory, when it has one, with the application's subdirectory
    /// and file name appended.
    pub fn settings_path() -> (r: Option<String>)
        ensures
            r matches Some(p) ==> exists|base: Seq<char>|
                p@ == base + "/caspar-server-gui/settings.json"@,
    {
        match config_dir_string() {
            Some(d) => {
                let ghost base = d@;
                let mut s = d;
                s.append("/caspar-server-gui/settings.json");
                proof {
                    assert(s@ == base + "/caspar-server-gui/settings.json"@);
                }
                Some(s)
            },
            None => None,
        }
    }

    /// The profiles directory under the CasparCG installation, when a
    /// path is set.
    pub fn profiles_dir(&self) -> (r: Option<String>)
        ensures
            match self.caspar_path {
                Some(p) => r matches Some(d) && d@ == p@ + "/caspar-gui-profiles"@,
                None => r is None,
            },
    {
        match &self.caspar_path {
            Some(p) => {
                let mut s = p.clone();
                s.append("/caspar-gui-profiles");
                Some(s)
            },
            None => None,
        }
    }
}

/// Failures when loading or saving configuration files.
#[derive(Debug, Clone)]
pub enum GlobalConfigError {
    /// Reading or writing the file failed.
    Io(String),
    /// The file's JSON did not parse.
    Json(String),
}

impl GlobalConfigError {
    /// A human-readable description of the failure.
    pub fn describe(&self) -> (r: String)
        ensures
            match self {
                GlobalConfigError::Io(m) => r@ == "IO error: "@ + m@,
                GlobalConfigError::Json(m) => r@ == "JSON parse error: "@ + m@,
            },
    {
        match self {
            GlobalConfigError::Io(m) => {
                let mut s = String::from_str("IO error: ");
                s.append(m.as_str());
                s
            },
            GlobalConfigError::Json(m) => {
                let mut s = String::from_str("JSON parse error: ");
                s.append(m.as_str());
                s
            },
        }
    }
}

} // verus!
