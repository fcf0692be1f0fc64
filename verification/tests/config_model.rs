//! Tests for the configuration schema, XML value readers and the profile
//! format.

use caspar_gui::config::caspar::{apply_consumer_property, parse_video_mode, ConsumerBuilder};
use caspar_gui::config::global::{GlobalConfig, GuiSettings};
use caspar_gui::config::schema::{
    CasparConfig, Channel, Consumer, DeckLinkConsumer, DeckLinkKeyer, DeckLinkLatency,
    MediaServer, NdiConsumer, ScreenConsumer, TcpController, VideoMode,
};

#[test]
fn video_mode_parse_is_case_insensitive() {
    assert_eq!(parse_video_mode("PAL"), VideoMode::Pal);
    assert_eq!(parse_video_mode("pal"), VideoMode::Pal);
    assert_eq!(parse_video_mode("1080i5000"), VideoMode::I1080_5000);
    assert_eq!(parse_video_mode("2160p6000"), VideoMode::P2160_6000);
    assert_eq!(parse_video_mode("garbage"), VideoMode::I1080_5000);
    assert_eq!(parse_video_mode(""), VideoMode::I1080_5000);
}

#[test]
fn video_mode_list_and_names() {
    let all = VideoMode::all();
    assert_eq!(all.len(), 33);
    assert_eq!(all[0], VideoMode::Pal);
    assert_eq!(VideoMode::Pal.display_name(), "PAL (576i50)");
    assert_eq!(VideoMode::P2160_5994.display_name(), "2160p59.94 (4K)");
    assert_eq!(VideoMode::default(), VideoMode::I1080_5000);
}

#[test]
fn schema_defaults() {
    let c = CasparConfig::default();
    assert_eq!(c.channels.len(), 1);
    assert_eq!(c.channels[0].video_mode, VideoMode::I1080_5000);
    assert_eq!(c.controllers.tcp.port, 5250);
    assert_eq!(c.controllers.tcp.protocol, "AMCP");
    assert!(c.amcp.media_server.is_none());

    let dl = DeckLinkConsumer::default();
    assert_eq!(dl.device, 1);
    assert!(dl.embedded_audio);
    assert_eq!(dl.latency, DeckLinkLatency::Normal);
    assert_eq!(dl.keyer, DeckLinkKeyer::External);

    let ndi = NdiConsumer::default();
    assert_eq!(ndi.name, "CasparCG");
    assert!(ndi.allow_fields);

    let scr = ScreenConsumer::default();
    assert_eq!(scr.device, 1);
    assert!(scr.windowed);

    let ms = MediaServer::default();
    assert_eq!(ms.host, "localhost");
    assert_eq!(ms.port, 8000);

    let tcp = TcpController::default();
    assert_eq!(tcp.port, 5250);

    let ch = Channel::default();
    assert!(ch.consumers.is_empty());
}

#[test]
fn consumer_properties_apply_to_matching_kind() {
    let mut b = ConsumerBuilder::DeckLink(DeckLinkConsumer::default());
    apply_consumer_property(&mut b, "decklink", "device", "3");
    apply_consumer_property(&mut b, "decklink", "key-device", "4");
    apply_consumer_property(&mut b, "decklink", "embedded-audio", "false");
    apply_consumer_property(&mut b, "decklink", "latency", "low");
    apply_consumer_property(&mut b, "decklink", "keyer", "internal");
    apply_consumer_property(&mut b, "decklink", "key-only", "true");
    // A property for another consumer kind changes nothing.
    apply_consumer_property(&mut b, "screen", "device", "9");
    match b {
        ConsumerBuilder::DeckLink(dl) => {
            assert_eq!(dl.device, 3);
            assert_eq!(dl.key_device, Some(4));
            assert!(!dl.embedded_audio);
            assert_eq!(dl.latency, DeckLinkLatency::Low);
            assert_eq!(dl.keyer, DeckLinkKeyer::Internal);
            assert_eq!(dl.key_only, Some(true));
        },
        other => panic!("unexpected builder {:?}", other),
    }
}

#[test]
fn consumer_property_bad_number_falls_back() {
    let mut b = ConsumerBuilder::DeckLink(DeckLinkConsumer::default());
    apply_consumer_property(&mut b, "decklink", "device", "junk");
    match &b {
        ConsumerBuilder::DeckLink(dl) => assert_eq!(dl.device, 1),
        other => panic!("unexpected builder {:?}", other),
    }
}

#[test]
fn screen_properties_parse_signed_positions() {
    let mut b = ConsumerBuilder::Screen(ScreenConsumer::default());
    apply_consumer_property(&mut b, "screen", "x", "-100");
    apply_consumer_property(&mut b, "screen", "y", "50");
    apply_consumer_property(&mut b, "screen", "width", "1920");
    apply_consumer_property(&mut b, "screen", "name", "preview");
    apply_consumer_property(&mut b, "screen", "borderless", "true");
    match b {
        ConsumerBuilder::Screen(scr) => {
            assert_eq!(scr.x, Some(-100));
            assert_eq!(scr.y, Some(50));
            assert_eq!(scr.width, Some(1920));
            assert_eq!(scr.name.as_deref(), Some("preview"));
            assert!(scr.borderless);
        },
        other => panic!("unexpected builder {:?}", other),
    }
}

#[test]
fn ndi_properties() {
    let mut b = ConsumerBuilder::Ndi(NdiConsumer::default());
    apply_consumer_property(&mut b, "ndi", "name", "Out 1");
    apply_consumer_property(&mut b, "ndi", "allow-fields", "false");
    let c: Consumer = b.into();
    match c {
        Consumer::Ndi(n) => {
            assert_eq!(n.name, "Out 1");
            assert!(!n.allow_fields);
        },
        other => panic!("unexpected consumer {:?}", other),
    }
}

#[test]
fn global_config_new_and_touch() {
    let mut cfg = GlobalConfig::new("Studio A");
    assert_eq!(cfg.version, "1.0");
    assert_eq!(cfg.name, "Studio A");
    assert_eq!(cfg.created, cfg.modified);
    assert_eq!(cfg.caspar.channels.len(), 1);
    assert!(cfg.decklink.devices.is_empty());
    cfg.touch();
    assert!(!cfg.modified.is_empty());
    assert_eq!(cfg.name, "Studio A");
}

#[test]
fn gui_settings_defaults_and_profiles_dir() {
    let mut s = GuiSettings::default();
    assert_eq!(s.last_host.as_deref(), Some("localhost"));
    assert_eq!(s.last_port, Some(5250));
    assert!(!s.last_server_was_running);
    assert!(s.profiles_dir().is_none());
    s.caspar_path = Some("/opt/caspar".to_string());
    assert_eq!(s.profiles_dir().as_deref(), Some("/opt/caspar/caspar-gui-profiles"));
}
