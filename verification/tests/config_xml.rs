//! Tests for the XML configuration text form: parsing, generation and
//! the round trip between them.

use caspar_gui::config::caspar::{generate_caspar_xml, parse_caspar_xml, CasparXmlError};
use caspar_gui::config::schema::{
    CasparConfig, Consumer, DeckLinkKeyer, DeckLinkLatency, ScreenConsumer, VideoMode,
};
use caspar_gui::config::xmltext::unescape_text;

#[test]
fn test_parse_basic_config() {
    let xml = r#"<?xml version="1.0" encoding="utf-8"?>
<configuration>
    <paths>
        <media-path>/data/media/</media-path>
        <template-path>/data/templates/</template-path>
        <log-path>/var/log/</log-path>
        <data-path>/data/</data-path>
    </paths>
    <channels>
        <channel>
            <video-mode>1080i5000</video-mode>
            <consumers>
                <screen>
                    <device>1</device>
                    <windowed>true</windowed>
                </screen>
            </consumers>
        </channel>
    </channels>
    <controllers>
        <tcp>
            <port>5250</port>
            <protocol>AMCP</protocol>
        </tcp>
    </controllers>
</configuration>"#;

    let config = parse_caspar_xml(xml).expect("Failed to parse XML");
    assert_eq!(config.paths.media, "/data/media/");
    assert_eq!(config.channels.len(), 1);
    assert_eq!(config.controllers.tcp.port, 5250);
}

#[test]
fn test_roundtrip() {
    let original = CasparConfig::default();
    let xml = generate_caspar_xml(&original).expect("Failed to generate XML");
    let parsed = parse_caspar_xml(&xml).expect("Failed to parse generated XML");

    assert_eq!(original.channels.len(), parsed.channels.len());
    assert_eq!(original.controllers.tcp.port, parsed.controllers.tcp.port);
}

#[test]
fn parse_reads_channel_details() {
    let xml = "<configuration>\
        <channels>\
        <channel><video-mode>720p5000</video-mode>\
        <consumers><decklink><device>2</device><latency>low</latency>\
        <keyer>internal</keyer></decklink></consumers></channel>\
        <channel><video-mode>PAL</video-mode></channel>\
        </channels>\
        <log-level>debug</log-level>\
        </configuration>";
    let config = parse_caspar_xml(xml).unwrap();
    assert_eq!(config.channels.len(), 2);
    assert_eq!(config.channels[0].video_mode, VideoMode::P720_5000);
    assert_eq!(config.channels[1].video_mode, VideoMode::Pal);
    assert_eq!(config.log_level.as_deref(), Some("debug"));
    match &config.channels[0].consumers[0] {
        Consumer::DeckLink(dl) => {
            assert_eq!(dl.device, 2);
            assert_eq!(dl.latency, DeckLinkLatency::Low);
            assert_eq!(dl.keyer, DeckLinkKeyer::Internal);
        },
        other => panic!("unexpected consumer {:?}", other),
    }
}

#[test]
fn parse_without_channels_adds_default() {
    let config = parse_caspar_xml("<configuration></configuration>").unwrap();
    assert_eq!(config.channels.len(), 1);
    assert_eq!(config.channels[0].video_mode, VideoMode::I1080_5000);
}

#[test]
fn parse_unterminated_tag_is_error() {
    match parse_caspar_xml("<configuration><pa") {
        Err(CasparXmlError::Parse(m)) => assert_eq!(m, "unterminated tag"),
        other => panic!("expected parse error, got {:?}", other),
    }
}

#[test]
fn parse_error_description() {
    let e = CasparXmlError::Parse("unterminated tag".to_string());
    assert_eq!(e.describe(), "XML parse error: unterminated tag");
}

#[test]
fn generated_document_shape() {
    let config = CasparConfig::default();
    let xml = generate_caspar_xml(&config).unwrap();
    let expected = "<?xml version=\"1.0\" encoding=\"utf-8\"?>\n\
        <configuration>\n\
        \x20 <paths>\n\
        \x20   <media-path></media-path>\n\
        \x20   <template-path></template-path>\n\
        \x20   <log-path></log-path>\n\
        \x20   <data-path></data-path>\n\
        \x20 </paths>\n\
        \x20 <channels>\n\
        \x20   <channel>\n\
        \x20     <video-mode>1080i5000</video-mode>\n\
        \x20   </channel>\n\
        \x20 </channels>\n\
        \x20 <controllers>\n\
        \x20   <tcp>\n\
        \x20     <port>5250</port>\n\
        \x20     <protocol>AMCP</protocol>\n\
        \x20   </tcp>\n\
        \x20 </controllers>\n\
        </configuration>\n";
    assert_eq!(xml, expected);
}

#[test]
fn escaped_text_round_trips() {
    let mut config = CasparConfig::default();
    config.paths.media = "media <&> \"x\" 'y'".to_string();
    let xml = generate_caspar_xml(&config).unwrap();
    assert!(xml.contains("<media-path>media &lt;&amp;&gt; &quot;x&quot; &apos;y&apos;</media-path>"));
    let parsed = parse_caspar_xml(&xml).unwrap();
    assert_eq!(parsed.paths.media, "media <&> \"x\" 'y'");
}

#[test]
fn unescape_handles_entities_and_stray_ampersand() {
    assert_eq!(unescape_text("a &amp; b"), "a & b");
    assert_eq!(unescape_text("&lt;tag&gt;"), "<tag>");
    assert_eq!(unescape_text("fish &chips"), "fish &chips");
    assert_eq!(unescape_text("&quot;&apos;"), "\"'");
}

#[test]
fn full_roundtrip_preserves_consumers() {
    let mut config = CasparConfig::default();
    config.channels[0].consumers.push(Consumer::Screen(ScreenConsumer {
        device: 2,
        windowed: false,
        width: Some(1280),
        height: Some(720),
        x: Some(-10),
        y: Some(20),
        borderless: true,
        always_on_top: false,
        name: Some("preview".to_string()),
    }));
    let xml = generate_caspar_xml(&config).unwrap();
    let parsed = parse_caspar_xml(&xml).unwrap();
    assert_eq!(parsed.channels.len(), 1);
    match &parsed.channels[0].consumers[0] {
        Consumer::Screen(scr) => {
            assert_eq!(scr.device, 2);
            assert!(!scr.windowed);
            assert_eq!(scr.width, Some(1280));
            assert_eq!(scr.height, Some(720));
            assert_eq!(scr.x, Some(-10));
            assert_eq!(scr.y, Some(20));
            assert!(scr.borderless);
            assert!(!scr.always_on_top);
            assert_eq!(scr.name.as_deref(), Some("preview"));
        },
        other => panic!("unexpected consumer {:?}", other),
    }
}
