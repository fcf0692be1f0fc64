//! The CasparCG configuration schema: video modes, consumers, channels,
//! paths, controllers and the enclosing server configuration.

use vstd::prelude::*;
use vstd::string::*;

verus! {

/// Video mode supported by CasparCG.
#[derive(Debug, Clone, Copy, PartialEq, Eq, Structural)]
pub enum VideoMode {
    Pal,
    Ntsc,
    P576_2500,
    P720_2398,
    P720_2400,
    P720_2500,
    P720_5000,
    P720_2997,
    P720_5994,
    P720_3000,
    P720_6000,
    P1080_2398,
    P1080_2400,
    I1080_5000,
    I1080_5994,
    I1080_6000,
    P1080_2500,
    P1080_2997,
    P1080_3000,
    P1080_5000,
    P1080_5994,
    P1080_6000,
    P1556_2398,
    P1556_2400,
    P1556_2500,
    P2160_2398,
    P2160_2400,
    P2160_2500,
    P2160_2997,
    P2160_3000,
    P2160_5000,
    P2160_5994,
    P2160_6000,
}

impl Default for VideoMode {
    /// The default video mode is 1080i50.
    fn default() -> (r: Self)
        ensures
            r == VideoMode::I1080_5000,
    {
        VideoMode::I1080_5000
    }
}

/// Every video mode, in the order the GUI offers them.
pub open spec fn all_video_modes() -> Seq<VideoMode> {
    seq![
        VideoMode::Pal,
        VideoMode::Ntsc,
        VideoMode::P576_2500,
        VideoMode::P720_2398,
        VideoMode::P720_2400,
        VideoMode::P720_2500,
        VideoMode::P720_5000,
        VideoMode::P720_2997,
        VideoMode::P720_5994,
        VideoMode::P720_3000,
        VideoMode::P720_6000,
        VideoMode::P1080_2398,
        VideoMode::P1080_2400,
        VideoMode::I1080_5000,
        VideoMode::I1080_5994,
        VideoMode::I1080_6000,
        VideoMode::P1080_2500,
        VideoMode::P1080_2997,
        VideoMode::P1080_3000,
        VideoMode::P1080_5000,
        VideoMode::P1080_5994,
        VideoMode::P1080_6000,
        VideoMode::P1556_2398,
        VideoMode::P1556_2400,
        VideoMode::P1556_2500,
        VideoMode::P2160_2398,
        VideoMode::P2160_2400,
        VideoMode::P2160_2500,
        VideoMode::P2160_2997,
        VideoMode::P2160_3000,
        VideoMode::P2160_5000,
        VideoMode::P2160_5994,
        VideoMode::P2160_6000,
    ]
}

/// The display name of each video mode.
pub open spec fn display_name_spec(m: VideoMode) -> Seq<char> {
    match m {
        VideoMode::Pal => "PAL (576i50)"@,
        VideoMode::Ntsc => "NTSC (480i59.94)"@,
        VideoMode::P576_2500 => "576p25"@,
        VideoMode::P720_2398 => "720p23.98"@,
        VideoMode::P720_2400 => "720p24"@,
        VideoMode::P720_2500 => "720p25"@,
        VideoMode::P720_5000 => "720p50"@,
        VideoMode::P720_2997 => "720p29.97"@,
        VideoMode::P720_5994 => "720p59.94"@,
        VideoMode::P720_3000 => "720p30"@,
        VideoMode::P720_6000 => "720p60"@,
        VideoMode::P1080_2398 => "1080p23.98"@,
        VideoMode::P1080_2400 => "1080p24"@,
        VideoMode::I1080_5000 => "1080i50"@,
        VideoMode::I1080_5994 => "1080i59.94"@,
        VideoMode::I1080_6000 => "1080i60"@,
        VideoMode::P1080_2500 => "1080p25"@,
        VideoMode::P1080_2997 => "1080p29.97"@,
        VideoMode::P1080_3000 => "1080p30"@,
        VideoMode::P1080_5000 => "1080p50"@,
        VideoMode::P1080_5994 => "1080p59.94"@,
        VideoMode::P1080_6000 => "1080p60"@,
        VideoMode::P1556_2398 => "1556p23.98 (2K)"@,
        VideoMode::P1556_2400 => "1556p24 (2K)"@,
        VideoMode::P1556_2500 => "1556p25 (2K)"@,
        VideoMode::P2160_2398 => "2160p23.98 (4K)"@,
        VideoMode::P2160_2400 => "2160p24 (4K)"@,
        VideoMode::P2160_2500 => "2160p25 (4K)"@,
        VideoMode::P2160_2997 => "2160p29.97 (4K)"@,
        VideoMode::P2160_3000 => "2160p30 (4K)"@,
        VideoMode::P2160_5000 => "2160p50 (4K)"@,
        VideoMode::P2160_5994 => "2160p59.94 (4K)"@,
        VideoMode::P2160_6000 => "2160p60 (4K)"@,
    }
}

impl VideoMode {
    /// Every available video mode.
    pub fn all() -> (r: Vec<VideoMode>)
        ensures
            r@ == all_video_modes(),
    {
        let r = vec![
            VideoMode::Pal,
            VideoMode::Ntsc,
            VideoMode::P576_2500,
            VideoMode::P720_2398,
            VideoMode::P720_2400,
            VideoMode::P720_2500,
            VideoMode::P720_5000,
            VideoMode::P720_2997,
            VideoMode::P720_5994,
            VideoMode::P720_3000,
            VideoMode::P720_6000,
            VideoMode::P1080_2398,
            VideoMode::P1080_2400,
            VideoMode::I1080_5000,
            VideoMode::I1080_5994,
            VideoMode::I1080_6000,
            VideoMode::P1080_2500,
            VideoMode::P1080_2997,
            VideoMode::P1080_3000,
            VideoMode::P1080_5000,
            VideoMode::P1080_5994,
            VideoMode::P1080_6000,
            VideoMode::P1556_2398,
            VideoMode::P1556_2400,
            VideoMode::P1556_2500,
            VideoMode::P2160_2398,
            VideoMode::P2160_2400,
            VideoMode::P2160_2500,
            VideoMode::P2160_2997,
            VideoMode::P2160_3000,
            VideoMode::P2160_5000,
            VideoMode::P2160_5994,
            VideoMode::P2160_6000,
        ];
        proof {
            assert(r@ =~= all_video_modes());
        }
        r
    }

    /// The mode's display name.
    pub fn display_name(&self) -> (r: &'static str)
        ensures
            r@ == display_name_spec(*self),
    {
        match self {
            VideoMode::Pal => "PAL (576i50)",
            VideoMode::Ntsc => "NTSC (480i59.94)",
            VideoMode::P576_2500 => "576p25",
            VideoMode::P720_2398 => "720p23.98",
            VideoMode::P720_2400 => "720p24",
            VideoMode::P720_2500 => "720p25",
            VideoMode::P720_5000 => "720p50",
            VideoMode::P720_2997 => "720p29.97",
            VideoMode::P720_5994 => "720p59.94",
            VideoMode::P720_3000 => "720p30",
            VideoMode::P720_6000 => "720p60",
            VideoMode::P1080_2398 => "1080p23.98",
            VideoMode::P1080_2400 => "1080p24",
            VideoMode::I1080_5000 => "1080i50",
            VideoMode::I1080_5994 => "1080i59.94",
            VideoMode::I1080_6000 => "1080i60",
            VideoMode::P1080_2500 => "1080p25",
            VideoMode::P1080_2997 => "1080p29.97",
            VideoMode::P1080_3000 => "1080p30",
            VideoMode::P1080_5000 => "1080p50",
            VideoMode::P1080_5994 => "1080p59.94",
            VideoMode::P1080_6000 => "1080p60",
            VideoMode::P1556_2398 => "1556p23.98 (2K)",
            VideoMode::P1556_2400 => "1556p24 (2K)",
            VideoMode::P1556_2500 => "1556p25 (2K)",
            VideoMode::P2160_2398 => "2160p23.98 (4K)",
            VideoMode::P2160_2400 => "2160p24 (4K)",
            VideoMode::P2160_2500 => "2160p25 (4K)",
            VideoMode::P2160_2997 => "2160p29.97 (4K)",
            VideoMode::P2160_3000 => "2160p30 (4K)",
            VideoMode::P2160_5000 => "2160p50 (4K)",
            VideoMode::P2160_5994 => "2160p59.94 (4K)",
            VideoMode::P2160_6000 => "2160p60 (4K)",
        }
    }
}

/// DeckLink latency mode.
#[derive(Debug, Clone, Copy, PartialEq, Eq, Structural)]
pub enum DeckLinkLatency {
    Normal,
    Low,
    Default,
}

impl Default for DeckLinkLatency {
    fn default() -> (r: Self)
        ensures
            r == DeckLinkLatency::Normal,
    {
        DeckLinkLatency::Normal
    }
}

/// DeckLink keyer mode.
#[derive(Debug, Clone, Copy, PartialEq, Eq, Structural)]
pub enum DeckLinkKeyer {
    External,
    ExternalSeparateDevice,
    Internal,
    Default,
}

impl Default for DeckLinkKeyer {
    fn default() -> (r: Self)
        ensures
            r == DeckLinkKeyer::External,
    {
        DeckLinkKeyer::External
    }
}

/// DeckLink consumer configuration.
#[derive(Debug, Clone)]
pub struct DeckLinkConsumer {
    pub device: u32,
    pub key_device: Option<u32>,
    pub embedded_audio: bool,
    pub latency: DeckLinkLatency,
    pub keyer: DeckLinkKeyer,
    pub key_only: Option<bool>,
}

impl Default for DeckLinkConsumer {
    fn default() -> (r: Self)
        ensures
            r.device == 1,
            r.key_device is None,
            r.embedded_audio == true,
            r.latency == DeckLinkLatency::Normal,
            r.keyer == DeckLinkKeyer::External,
            r.key_only is None,
    {
        DeckLinkConsumer {
            device: 1,
            key_device: None,
            embedded_audio: true,
            latency: DeckLinkLatency::Normal,
            keyer: DeckLinkKeyer::External,
            key_only: None,
        }
    }
}

/// NDI consumer configuration.
#[derive(Debug, Clone)]
pub struct NdiConsumer {
    pub name: String,
    pub allow_fields: bool,
}

impl Default for NdiConsumer {
    fn default() -> (r: Self)
        ensures
            r.name@ == "CasparCG"@,
            r.allow_fields == true,
    {
        NdiConsumer { name: String::from_str("CasparCG"), allow_fields: true }
    }
}

/// Screen consumer configuration.
#[derive(Debug, Clone)]
pub struct ScreenConsumer {
    pub device: u32,
    pub windowed: bool,
    pub width: Option<u32>,
    pub height: Option<u32>,
    pub x: Option<i32>,
    pub y: Option<i32>,
    pub borderless: bool,
    pub always_on_top: bool,
    pub name: Option<String>,
}

/// Default screen device number.
pub fn default_screen_device() -> (r: u32)
    ensures
        r == 1,
{
    1
}

/// Default for settings that are on unless configured off.
pub fn default_true() -> (r: bool)
    ensures
        r == true,
{
    true
}

impl Default for ScreenConsumer {
    fn default() -> (r: Self)
        ensures
            r.device == 1,
            r.windowed == true,
            r.width is None,
            r.height is None,
            r.x is None,
            r.y is None,
            r.borderless == false,
            r.always_on_top == false,
            r.name is None,
    {
        ScreenConsumer {
            device: 1,
            windowed: true,
            width: None,
            height: None,
            x: None,
            y: None,
            borderless: false,
            always_on_top: false,
            name: None,
        }
    }
}

/// System audio consumer configuration.
#[derive(Debug, Clone)]
pub struct SystemAudioConsumer {
    pub channel_layout: Option<String>,
    pub latency: Option<u32>,
}

impl Default for SystemAudioConsumer {
    fn default() -> (r: Self)
        ensures
            r.channel_layout is None,
            r.latency is None,
    {
        SystemAudioConsumer { channel_layout: None, latency: None }
    }
}

/// The kinds of consumer a channel can drive.
#[derive(Debug, Clone)]
pub enum Consumer {
    DeckLink(DeckLinkConsumer),
    Ndi(NdiConsumer),
    Screen(ScreenConsumer),
    SystemAudio(SystemAudioConsumer),
}

/// Channel configuration: its video mode and consumers.
#[derive(Debug, Clone)]
pub struct Channel {
    pub video_mode: VideoMode,
    pub consumers: Vec<Consumer>,
}

impl Default for Channel {
    fn default() -> (r: Self)
        ensures
            r.video_mode == VideoMode::I1080_5000,
            r.consumers@.len() == 0,
    {
        Channel { video_mode: VideoMode::I1080_5000, consumers: Vec::new() }
    }
}

/// Path configuration.
#[derive(Debug, Clone)]
pub struct Paths {
    pub media: String,
    pub template: String,
    pub log: String,
    pub data: String,
    pub font: Option<String>,
}

impl Default for Paths {
    fn default() -> (r: Self)
        ensures
            r.media@.len() == 0,
            r.template@.len() == 0,
            r.log@.len() == 0,
            r.data@.len() == 0,
            r.font is None,
    {
        Paths {
            media: String::new(),
            template: String::new(),
            log: String::new(),
            data: String::new(),
            font: None,
        }
    }
}

/// Default AMCP TCP port.
pub fn default_tcp_port() -> (r: u16)
    ensures
        r == 5250,
{
    5250
}

/// Default controller protocol name.
pub fn default_protocol() -> (r: String)
    ensures
        r@ == "AMCP"@,
{
    String::from_str("AMCP")
}

/// TCP controller configuration.
#[derive(Debug, Clone)]
pub struct TcpController {
    pub port: u16,
    pub protocol: String,
}

impl Default for TcpController {
    fn default() -> (r: Self)
        ensures
            r.port == 5250,
            r.protocol@ == "AMCP"@,
    {
        TcpController { port: 5250, protocol: String::from_str("AMCP") }
    }
}

/// Controllers configuration.
#[derive(Debug, Clone)]
pub struct Controllers {
    pub tcp: TcpController,
}

impl Default for Controllers {
    fn default() -> (r: Self)
        ensures
            r.tcp.port == 5250,
            r.tcp.protocol@ == "AMCP"@,
    {
        Controllers { tcp: TcpController::default() }
    }
}

/// Default media server host.
pub fn default_localhost() -> (r: String)
    ensures
        r@ == "localhost"@,
{
    String::from_str("localhost")
}

/// Default media server port.
pub fn default_media_server_port() -> (r: u16)
    ensures
        r == 8000,
{
    8000
}

/// AMCP media server configuration.
#[derive(Debug, Clone)]
pub struct MediaServer {
    pub host: String,
    pub port: u16,
}

impl Default for MediaServer {
    fn default() -> (r: Self)
        ensures
            r.host@ == "localhost"@,
            r.port == 8000,
    {
        MediaServer { host: String::from_str("localhost"), port: 8000 }
    }
}

/// AMCP configuration.
#[derive(Debug, Clone)]
pub struct AmcpConfig {
    pub media_server: Option<MediaServer>,
}

impl Default for AmcpConfig {
    fn default() -> (r: Self)
        ensures
            r.media_server is None,
    {
        AmcpConfig { media_server: None }
    }
}

/// The complete CasparCG server configuration.
#[derive(Debug, Clone)]
pub struct CasparConfig {
    pub paths: Paths,
    pub channels: Vec<Channel>,
    pub controllers: Controllers,
    pub amcp: AmcpConfig,
    pub log_level: Option<String>,
    pub log_categories: Option<String>,
    pub force_deinterlace: Option<bool>,
    pub auto_deinterlace: Option<bool>,
    pub blend_modes: Option<bool>,
    pub mixer_latency: Option<u32>,
    pub accelerator: Option<String>,
}

impl Default for CasparConfig {
    /// The default configuration holds one default channel.
    fn default() -> (r: Self)
        ensures
            r.paths.media@.len() == 0,
            r.paths.template@.len() == 0,
            r.paths.log@.len() == 0,
            r.paths.data@.len() == 0,
            r.paths.font is None,
            r.channels@.len() == 1,
            r.channels@[0].video_mode == VideoMode::I1080_5000,
            r.channels@[0].consumers@.len() == 0,
            r.controllers.tcp.port == 5250,
            r.controllers.tcp.protocol@ == "AMCP"@,
            r.amcp.media_server is None,
            r.log_level is None,
            r.log_categories is None,
            r.force_deinterlace is None,
            r.auto_deinterlace is None,
            r.blend_modes is None,
            r.mixer_latency is None,
            r.accelerator is None,
    {
        let mut channels: Vec<Channel> = Vec::new();
        channels.push(Channel::default());
        CasparConfig {
            paths: Paths::default(),
            channels,
            controllers: Controllers::default(),
            amcp: AmcpConfig::default(),
            log_level: None,
            log_categories: None,
            force_deinterlace: None,
            auto_deinterlace: None,
            blend_modes: None,
            mixer_latency: None,
            accelerator: None,
        }
    }
}

} // verus!
