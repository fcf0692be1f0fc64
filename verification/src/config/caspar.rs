//! The CasparCG XML configuration text form: parsing the values that
//! appear in it into the schema of this crate.

use vstd::prelude::*;
use vstd::string::*;

use crate::config::schema::{
    CasparConfig, Channel, Consumer, DeckLinkConsumer, DeckLinkKeyer, DeckLinkLatency,
    MediaServer, NdiConsumer, ScreenConsumer, SystemAudioConsumer, VideoMode,
};
use crate::config::xmltext::{append_escaped, tokenize_xml, xml_escaped, XmlToken};
use crate::text::{
    dec_digits, dec_value, int_digits, parsed_i32, parsed_u32_or, parses_i32, parses_u32,
    seq_ieq, str_eq, str_ieq,
};

verus! {

/// The video mode a `<video-mode>` value denotes, compared without regard
/// to ASCII case; unrecognised values fall back to 1080i50.
pub open spec fn video_mode_of(s: Seq<char>) -> VideoMode {
    if seq_ieq(s, "PAL"@) {
        VideoMode::Pal
    } else if seq_ieq(s, "NTSC"@) {
        VideoMode::Ntsc
    } else if seq_ieq(s, "576P2500"@) {
        VideoMode::P576_2500
    } else if seq_ieq(s, "720P2398"@) {
        VideoMode::P720_2398
    } else if seq_ieq(s, "720P2400"@) {
        VideoMode::P720_2400
    } else if seq_ieq(s, "720P2500"@) {
        VideoMode::P720_2500
    } else if seq_ieq(s, "720P5000"@) {
        VideoMode::P720_5000
    } else if seq_ieq(s, "720P2997"@) {
        VideoMode::P720_2997
    } else if seq_ieq(s, "720P5994"@) {
        VideoMode::P720_5994
    } else if seq_ieq(s, "720P3000"@) {
        VideoMode::P720_3000
    } else if seq_ieq(s, "720P6000"@) {
        VideoMode::P720_6000
    } else if seq_ieq(s, "1080P2398"@) {
        VideoMode::P1080_2398
    } else if seq_ieq(s, "1080P2400"@) {
        VideoMode::P1080_2400
    } else if seq_ieq(s, "1080I5000"@) {
        VideoMode::I1080_5000
    } else if seq_ieq(s, "1080I5994"@) {
        VideoMode::I1080_5994
    } else if seq_ieq(s, "1080I6000"@) {
        VideoMode::I1080_6000
    } else if seq_ieq(s, "1080P2500"@) {
        VideoMode::P1080_2500
    } else if seq_ieq(s, "1080P2997"@) {
        VideoMode::P1080_2997
    } else if seq_ieq(s, "1080P3000"@) {
        VideoMode::P1080_3000
    } else if seq_ieq(s, "1080P5000"@) {
        VideoMode::P1080_5000
    } else if seq_ieq(s, "1080P5994"@) {
        VideoMode::P1080_5994
    } else if seq_ieq(s, "1080P6000"@) {
        VideoMode::P1080_6000
    } else if seq_ieq(s, "1556P2398"@) {
        VideoMode::P1556_2398
    } else if seq_ieq(s, "1556P2400"@) {
        VideoMode::P1556_2400
    } else if seq_ieq(s, "1556P2500"@) {
        VideoMode::P1556_2500
    } else if seq_ieq(s, "2160P2398"@) {
        VideoMode::P2160_2398
    } else if seq_ieq(s, "2160P2400"@) {
        VideoMode::P2160_2400
    } else if seq_ieq(s, "2160P2500"@) {
        VideoMode::P2160_2500
    } else if seq_ieq(s, "2160P2997"@) {
        VideoMode::P2160_2997
    } else if seq_ieq(s, "2160P3000"@) {
        VideoMode::P2160_3000
    } else if seq_ieq(s, "2160P5000"@) {
        VideoMode::P2160_5000
    } else if seq_ieq(s, "2160P5994"@) {
        VideoMode::P2160_5994
    } else if seq_ieq(s, "2160P6000"@) {
        VideoMode::P2160_6000
    } else {
        VideoMode::I1080_5000
    }
}

/// Reads a `<video-mode>` value, ignoring ASCII case; unrecognised values
/// fall back to the default mode.
pub fn parse_video_mode(s: &str) -> (r: VideoMode)
    ensures
        r == video_mode_of(s@),
{
    if str_ieq(s, "PAL") {
        VideoMode::Pal
    } else if str_ieq(s, "NTSC") {
        VideoMode::Ntsc
    } else if str_ieq(s, "576P2500") {
        VideoMode::P576_2500
    } else if str_ieq(s, "720P2398") {
        VideoMode::P720_2398
    } else if str_ieq(s, "720P2400") {
        VideoMode::P720_2400
    } else if str_ieq(s, "720P2500") {
        VideoMode::P720_2500
    } else if str_ieq(s, "720P5000") {
        VideoMode::P720_5000
    } else if str_ieq(s, "720P2997") {
        VideoMode::P720_2997
    } else if str_ieq(s, "720P5994") {
        VideoMode::P720_5994
    } else if str_ieq(s, "720P3000") {
        VideoMode::P720_3000
    } else if str_ieq(s, "720P6000") {
        VideoMode::P720_6000
    } else if str_ieq(s, "1080P2398") {
        VideoMode::P1080_2398
    } else if str_ieq(s, "1080P2400") {
        VideoMode::P1080_2400
    } else if str_ieq(s, "1080I5000") {
        VideoMode::I1080_5000
    } else if str_ieq(s, "1080I5994") {
        VideoMode::I1080_5994
    } else if str_ieq(s, "1080I6000") {
        VideoMode::I1080_6000
    } else if str_ieq(s, "1080P2500") {
        VideoMode::P1080_2500
    } else if str_ieq(s, "1080P2997") {
        VideoMode::P1080_2997
    } else if str_ieq(s, "1080P3000") {
        VideoMode::P1080_3000
    } else if str_ieq(s, "1080P5000") {
        VideoMode::P1080_5000
    } else if str_ieq(s, "1080P5994") {
        VideoMode::P1080_5994
    } else if str_ieq(s, "1080P6000") {
        VideoMode::P1080_6000
    } else if str_ieq(s, "1556P2398") {
        VideoMode::P1556_2398
    } else if str_ieq(s, "1556P2400") {
        VideoMode::P1556_2400
    } else if str_ieq(s, "1556P2500") {
        VideoMode::P1556_2500
    } else if str_ieq(s, "2160P2398") {
        VideoMode::P2160_2398
    } else if str_ieq(s, "2160P2400") {
        VideoMode::P2160_2400
    } else if str_ieq(s, "2160P2500") {
        VideoMode::P2160_2500
    } else if str_ieq(s, "2160P2997") {
        VideoMode::P2160_2997
    } else if str_ieq(s, "2160P3000") {
        VideoMode::P2160_3000
    } else if str_ieq(s, "2160P5000") {
        VideoMode::P2160_5000
    } else if str_ieq(s, "2160P5994") {
        VideoMode::P2160_5994
    } else if str_ieq(s, "2160P6000") {
        VideoMode::P2160_6000
    } else {
        VideoMode::I1080_5000
    }
}

/// A consumer being built up while a `<consumers>` section is read.
#[derive(Debug, Clone)]
pub enum ConsumerBuilder {
    DeckLink(DeckLinkConsumer),
    Ndi(NdiConsumer),
    Screen(ScreenConsumer),
    SystemAudio(SystemAudioConsumer),
}

/// The consumer a finished builder denotes.
pub open spec fn consumer_of_builder(b: ConsumerBuilder) -> Consumer {
    match b {
        ConsumerBuilder::DeckLink(c) => Consumer::DeckLink(c),
        ConsumerBuilder::Ndi(c) => Consumer::Ndi(c),
        ConsumerBuilder::Screen(c) => Consumer::Screen(c),
        ConsumerBuilder::SystemAudio(c) => Consumer::SystemAudio(c),
    }
}

impl From<ConsumerBuilder> for Consumer {
    fn from(builder: ConsumerBuilder) -> (r: Consumer) {
        match builder {
            ConsumerBuilder::DeckLink(c) => Consumer::DeckLink(c),
            ConsumerBuilder::Ndi(c) => Consumer::Ndi(c),
            ConsumerBuilder::Screen(c) => Consumer::Screen(c),
            ConsumerBuilder::SystemAudio(c) => Consumer::SystemAudio(c),
        }
    }
}

impl vstd::std_specs::convert::FromSpecImpl<ConsumerBuilder> for Consumer {
    open spec fn obeys_from_spec() -> bool {
        true
    }

    open spec fn from_spec(b: ConsumerBuilder) -> Consumer {
        consumer_of_builder(b)
    }
}

/// The DeckLink latency mode an XML value denotes.
pub open spec fn latency_of(v: Seq<char>) -> DeckLinkLatency {
    if v == "low"@ {
        DeckLinkLatency::Low
    } else if v == "default"@ {
        DeckLinkLatency::Default
    } else {
        DeckLinkLatency::Normal
    }
}

/// The DeckLink keyer mode an XML value denotes.
pub open spec fn keyer_of(v: Seq<char>) -> DeckLinkKeyer {
    if v == "external_separate_device"@ {
        DeckLinkKeyer::ExternalSeparateDevice
    } else if v == "internal"@ {
        DeckLinkKeyer::Internal
    } else if v == "default"@ {
        DeckLinkKeyer::Default
    } else {
        DeckLinkKeyer::External
    }
}

/// The parsed `Option<u32>` of an XML value: present exactly when the
/// value is a plain decimal number in range.
pub open spec fn parsed_u32_opt(v: Seq<char>) -> Option<u32> {
    if parses_u32(v) {
        Some(dec_value(v) as u32)
    } else {
        None
    }
}

/// The parsed `Option<i32>` of an XML value.
pub open spec fn parsed_i32_opt(v: Seq<char>) -> Option<i32> {
    if parses_i32(v) {
        Some(parsed_i32(v) as i32)
    } else {
        None
    }
}

/// How one property element updates a consumer builder: the named field
/// of the matching consumer kind takes the value's reading, every other
/// field keeps its value, and a property for another kind, or an unknown
/// element, changes nothing.
pub open spec fn applied_consumer_property(
    b0: ConsumerBuilder,
    ct: Seq<char>,
    el: Seq<char>,
    v: Seq<char>,
    b1: ConsumerBuilder,
) -> bool {
    match b0 {
        ConsumerBuilder::DeckLink(dl) => if ct == "decklink"@ {
            if el == "device"@ {
                b1 == ConsumerBuilder::DeckLink(
                    DeckLinkConsumer { device: parsed_u32_or(v, 1), ..dl },
                )
            } else if el == "key-device"@ {
                b1 == ConsumerBuilder::DeckLink(
                    DeckLinkConsumer { key_device: parsed_u32_opt(v), ..dl },
                )
            } else if el == "embedded-audio"@ {
                b1 == ConsumerBuilder::DeckLink(
                    DeckLinkConsumer { embedded_audio: v == "true"@, ..dl },
                )
            } else if el == "latency"@ {
                b1 == ConsumerBuilder::DeckLink(DeckLinkConsumer { latency: latency_of(v), ..dl })
            } else if el == "keyer"@ {
                b1 == ConsumerBuilder::DeckLink(DeckLinkConsumer { keyer: keyer_of(v), ..dl })
            } else if el == "key-only"@ {
                b1 == ConsumerBuilder::DeckLink(
                    DeckLinkConsumer { key_only: Some(v == "true"@), ..dl },
                )
            } else {
                b1 == b0
            }
        } else {
            b1 == b0
        },
        ConsumerBuilder::Ndi(ndi) => if ct == "ndi"@ {
            if el == "name"@ {
                &&& b1 matches ConsumerBuilder::Ndi(n1)
                &&& n1.name@ == v
                &&& n1.allow_fields == ndi.allow_fields
            } else if el == "allow-fields"@ {
                b1 == ConsumerBuilder::Ndi(NdiConsumer { allow_fields: v == "true"@, ..ndi })
            } else {
                b1 == b0
            }
        } else {
            b1 == b0
        },
        ConsumerBuilder::Screen(scr) => if ct == "screen"@ {
            if el == "device"@ {
                b1 == ConsumerBuilder::Screen(ScreenConsumer { device: parsed_u32_or(v, 1), ..scr })
            } else if el == "windowed"@ {
                b1 == ConsumerBuilder::Screen(ScreenConsumer { windowed: v == "true"@, ..scr })
            } else if el == "width"@ {
                b1 == ConsumerBuilder::Screen(ScreenConsumer { width: parsed_u32_opt(v), ..scr })
            } else if el == "height"@ {
                b1 == ConsumerBuilder::Screen(ScreenConsumer { height: parsed_u32_opt(v), ..scr })
            } else if el == "x"@ {
                b1 == ConsumerBuilder::Screen(ScreenConsumer { x: parsed_i32_opt(v), ..scr })
            } else if el == "y"@ {
                b1 == ConsumerBuilder::Screen(ScreenConsumer { y: parsed_i32_opt(v), ..scr })
            } else if el == "borderless"@ {
                b1 == ConsumerBuilder::Screen(ScreenConsumer { borderless: v == "true"@, ..scr })
            } else if el == "always-on-top"@ {
                b1 == ConsumerBuilder::Screen(ScreenConsumer { always_on_top: v == "true"@, ..scr })
            } else if el == "name"@ {
                &&& b1 matches ConsumerBuilder::Screen(s1)
                &&& s1.name matches Some(nm) && nm@ == v
                &&& s1.device == scr.device
                &&& s1.windowed == scr.windowed
                &&& s1.width == scr.width
                &&& s1.height == scr.height
                &&& s1.x == scr.x
                &&& s1.y == scr.y
                &&& s1.borderless == scr.borderless
                &&& s1.always_on_top == scr.always_on_top
            } else {
                b1 == b0
            }
        } else {
            b1 == b0
        },
        ConsumerBuilder::SystemAudio(sa) => if ct == "system-audio"@ {
            if el == "channel-layout"@ {
                &&& b1 matches ConsumerBuilder::SystemAudio(a1)
                &&& a1.channel_layout matches Some(cl) && cl@ == v
                &&& a1.latency == sa.latency
            } else if el == "latency"@ {
                b1 == ConsumerBuilder::SystemAudio(
                    SystemAudioConsumer { latency: parsed_u32_opt(v), ..sa },
                )
            } else {
                b1 == b0
            }
        } else {
            b1 == b0
        },
    }
}

fn parse_u32_opt_exec(value: &str) -> (r: Option<u32>)
    ensures
        r == parsed_u32_opt(value@),
{
    crate::text::parse_dec_u32(value)
}

fn parse_i32_opt_exec(value: &str) -> (r: Option<i32>)
    ensures
        r == parsed_i32_opt(value@),
{
    crate::text::parse_dec_i32(value)
}

/// Applies one property element of a `<consumers>` section to the
/// consumer being built, leaving the builder unchanged when the element
/// does not belong to its kind.
pub fn apply_consumer_property(
    builder: &mut ConsumerBuilder,
    consumer_type: &str,
    element: &str,
    value: &str,
)
    ensures
        applied_consumer_property(
            *old(builder),
            consumer_type@,
            element@,
            value@,
            *final(builder),
        ),
{
    match builder {
        ConsumerBuilder::DeckLink(dl) => {
            if str_eq(consumer_type, "decklink") {
                if str_eq(element, "device") {
                    dl.device = match crate::text::parse_dec_u32(value) {
                        Some(v) => v,
                        None => 1,
                    };
                } else if str_eq(element, "key-device") {
                    dl.key_device = parse_u32_opt_exec(value);
                } else if str_eq(element, "embedded-audio") {
                    dl.embedded_audio = str_eq(value, "true");
                } else if str_eq(element, "latency") {
                    dl.latency = if str_eq(value, "low") {
                        DeckLinkLatency::Low
                    } else if str_eq(value, "default") {
                        DeckLinkLatency::Default
                    } else {
                        DeckLinkLatency::Normal
                    };
                } else if str_eq(element, "keyer") {
                    dl.keyer = if str_eq(value, "external_separate_device") {
                        DeckLinkKeyer::ExternalSeparateDevice
                    } else if str_eq(value, "internal") {
                        DeckLinkKeyer::Internal
                    } else if str_eq(value, "default") {
                        DeckLinkKeyer::Default
                    } else {
                        DeckLinkKeyer::External
                    };
                } else if str_eq(element, "key-only") {
                    dl.key_only = Some(str_eq(value, "true"));
                }
            }
        },
        ConsumerBuilder::Ndi(ndi) => {
            if str_eq(consumer_type, "ndi") {
                if str_eq(element, "name") {
                    ndi.name = String::from_str(value);
                } else if str_eq(element, "allow-fields") {
                    ndi.allow_fields = str_eq(value, "true");
                }
            }
        },
        ConsumerBuilder::Screen(scr) => {
            if str_eq(consumer_type, "screen") {
                if str_eq(element, "device") {
                    scr.device = match crate::text::parse_dec_u32(value) {
                        Some(v) => v,
                        None => 1,
                    };
                } else if str_eq(element, "windowed") {
                    scr.windowed = str_eq(value, "true");
                } else if str_eq(element, "width") {
                    scr.width = parse_u32_opt_exec(value);
                } else if str_eq(element, "height") {
                    scr.height = parse_u32_opt_exec(value);
                } else if str_eq(element, "x") {
                    scr.x = parse_i32_opt_exec(value);
                } else if str_eq(element, "y") {
                    scr.y = parse_i32_opt_exec(value);
                } else if str_eq(element, "borderless") {
                    scr.borderless = str_eq(value, "true");
                } else if str_eq(element, "always-on-top") {
                    scr.always_on_top = str_eq(value, "true");
                } else if str_eq(element, "name") {
                    scr.name = Some(String::from_str(value));
                }
            }
        },
        ConsumerBuilder::SystemAudio(sa) => {
            if str_eq(consumer_type, "system-audio") {
                if str_eq(element, "channel-layout") {
                    sa.channel_layout = Some(String::from_str(value));
                } else if str_eq(element, "latency") {
                    sa.latency = parse_u32_opt_exec(value);
                }
            }
        },
    }
}


/// Failures of XML configuration parsing or generation.
#[derive(Debug, Clone)]
pub enum CasparXmlError {
    /// The document's markup could not be read.
    Parse(String),
}

impl CasparXmlError {
    /// A human-readable description of the failure.
    pub fn describe(&self) -> (r: String)
        ensures
            match self {
                CasparXmlError::Parse(m) => r@ == "XML parse error: "@ + m@,
            },
    {
        match self {
            CasparXmlError::Parse(m) => {
                let mut s = String::from_str("XML parse error: ");
                s.append(m.as_str());
                s
            },
        }
    }
}

/// One element on its own line: `<name>escaped value</name>`.
pub open spec fn elem_spec(ind: Seq<char>, name: Seq<char>, value: Seq<char>) -> Seq<char> {
    ind + "<"@ + name + ">"@ + xml_escaped(value) + "</"@ + name + ">\n"@
}

/// A section-opening line: `<name>`.
pub open spec fn open_line_spec(ind: Seq<char>, name: Seq<char>) -> Seq<char> {
    ind + "<"@ + name + ">\n"@
}

/// A section-closing line: `</name>`.
pub open spec fn close_line_spec(ind: Seq<char>, name: Seq<char>) -> Seq<char> {
    ind + "</"@ + name + ">\n"@
}

fn write_element(out: &mut String, indent: &str, name: &str, value: &str)
    ensures
        final(out)@ == old(out)@ + elem_spec(indent@, name@, value@),
{
    out.append(indent);
    out.append("<");
    out.append(name);
    out.append(">");
    append_escaped(out, value);
    out.append("</");
    out.append(name);
    out.append(">\n");
    proof {
        assert(out@ =~= old(out)@ + elem_spec(indent@, name@, value@));
    }
}

fn write_open_line(out: &mut String, indent: &str, name: &str)
    ensures
        final(out)@ == old(out)@ + open_line_spec(indent@, name@),
{
    out.append(indent);
    out.append("<");
    out.append(name);
    out.append(">\n");
    proof {
        assert(out@ =~= old(out)@ + open_line_spec(indent@, name@));
    }
}

fn write_close_line(out: &mut String, indent: &str, name: &str)
    ensures
        final(out)@ == old(out)@ + close_line_spec(indent@, name@),
{
    out.append(indent);
    out.append("</");
    out.append(name);
    out.append(">\n");
    proof {
        assert(out@ =~= old(out)@ + close_line_spec(indent@, name@));
    }
}

/// `true` or `false`, as element text.
pub open spec fn bool_text(b: bool) -> Seq<char> {
    if b {
        "true"@
    } else {
        "false"@
    }
}

/// The wire spelling of a latency mode.
pub open spec fn latency_text(l: DeckLinkLatency) -> Seq<char> {
    match l {
        DeckLinkLatency::Normal => "normal"@,
        DeckLinkLatency::Low => "low"@,
        DeckLinkLatency::Default => "default"@,
    }
}

/// The wire spelling of a keyer mode.
pub open spec fn keyer_text(k: DeckLinkKeyer) -> Seq<char> {
    match k {
        DeckLinkKeyer::External => "external"@,
        DeckLinkKeyer::ExternalSeparateDevice => "external_separate_device"@,
        DeckLinkKeyer::Internal => "internal"@,
        DeckLinkKeyer::Default => "default"@,
    }
}

/// The wire spelling of a video mode, as the configuration file writes
/// it.
pub open spec fn video_mode_text(m: VideoMode) -> Seq<char> {
    match m {
        VideoMode::Pal => "PAL"@,
        VideoMode::Ntsc => "NTSC"@,
        VideoMode::P576_2500 => "576p2500"@,
        VideoMode::P720_2398 => "720p2398"@,
        VideoMode::P720_2400 => "720p2400"@,
        VideoMode::P720_2500 => "720p2500"@,
        VideoMode::P720_5000 => "720p5000"@,
        VideoMode::P720_2997 => "720p2997"@,
        VideoMode::P720_5994 => "720p5994"@,
        VideoMode::P720_3000 => "720p3000"@,
        VideoMode::P720_6000 => "720p6000"@,
        VideoMode::P1080_2398 => "1080p2398"@,
        VideoMode::P1080_2400 => "1080p2400"@,
        VideoMode::I1080_5000 => "1080i5000"@,
        VideoMode::I1080_5994 => "1080i5994"@,
        VideoMode::I1080_6000 => "1080i6000"@,
        VideoMode::P1080_2500 => "1080p2500"@,
        VideoMode::P1080_2997 => "1080p2997"@,
        VideoMode::P1080_3000 => "1080p3000"@,
        VideoMode::P1080_5000 => "1080p5000"@,
        VideoMode::P1080_5994 => "1080p5994"@,
        VideoMode::P1080_6000 => "1080p6000"@,
        VideoMode::P1556_2398 => "1556p2398"@,
        VideoMode::P1556_2400 => "1556p2400"@,
        VideoMode::P1556_2500 => "1556p2500"@,
        VideoMode::P2160_2398 => "2160p2398"@,
        VideoMode::P2160_2400 => "2160p2400"@,
        VideoMode::P2160_2500 => "2160p2500"@,
        VideoMode::P2160_2997 => "2160p2997"@,
        VideoMode::P2160_3000 => "2160p3000"@,
        VideoMode::P2160_5000 => "2160p5000"@,
        VideoMode::P2160_5994 => "2160p5994"@,
        VideoMode::P2160_6000 => "2160p6000"@,
    }
}

/// The wire spelling of a video mode.
pub fn video_mode_wire_str(m: &VideoMode) -> (r: &'static str)
    ensures
        r@ == video_mode_text(*m),
{
    match m {
        VideoMode::Pal => "PAL",
        VideoMode::Ntsc => "NTSC",
        VideoMode::P576_2500 => "576p2500",
        VideoMode::P720_2398 => "720p2398",
        VideoMode::P720_2400 => "720p2400",
        VideoMode::P720_2500 => "720p2500",
        VideoMode::P720_5000 => "720p5000",
        VideoMode::P720_2997 => "720p2997",
        VideoMode::P720_5994 => "720p5994",
        VideoMode::P720_3000 => "720p3000",
        VideoMode::P720_6000 => "720p6000",
        VideoMode::P1080_2398 => "1080p2398",
        VideoMode::P1080_2400 => "1080p2400",
        VideoMode::I1080_5000 => "1080i5000",
        VideoMode::I1080_5994 => "1080i5994",
        VideoMode::I1080_6000 => "1080i6000",
        VideoMode::P1080_2500 => "1080p2500",
        VideoMode::P1080_2997 => "1080p2997",
        VideoMode::P1080_3000 => "1080p3000",
        VideoMode::P1080_5000 => "1080p5000",
        VideoMode::P1080_5994 => "1080p5994",
        VideoMode::P1080_6000 => "1080p6000",
        VideoMode::P1556_2398 => "1556p2398",
        VideoMode::P1556_2400 => "1556p2400",
        VideoMode::P1556_2500 => "1556p2500",
        VideoMode::P2160_2398 => "2160p2398",
        VideoMode::P2160_2400 => "2160p2400",
        VideoMode::P2160_2500 => "2160p2500",
        VideoMode::P2160_2997 => "2160p2997",
        VideoMode::P2160_3000 => "2160p3000",
        VideoMode::P2160_5000 => "2160p5000",
        VideoMode::P2160_5994 => "2160p5994",
        VideoMode::P2160_6000 => "2160p6000",
    }
}

/// The XML of one DeckLink consumer.
pub open spec fn decklink_xml(dl: DeckLinkConsumer) -> Seq<char> {
    open_line_spec("        "@, "decklink"@) + elem_spec(
        "          "@,
        "device"@,
        dec_digits(dl.device as nat),
    ) + (match dl.key_device {
        Some(k) => elem_spec("          "@, "key-device"@, dec_digits(k as nat)),
        None => Seq::empty(),
    }) + elem_spec("          "@, "embedded-audio"@, bool_text(dl.embedded_audio)) + elem_spec(
        "          "@,
        "latency"@,
        latency_text(dl.latency),
    ) + elem_spec("          "@, "keyer"@, keyer_text(dl.keyer)) + (match dl.key_only {
        Some(k) => elem_spec("          "@, "key-only"@, bool_text(k)),
        None => Seq::empty(),
    }) + close_line_spec("        "@, "decklink"@)
}

/// The XML of one NDI consumer.
pub open spec fn ndi_xml(ndi: NdiConsumer) -> Seq<char> {
    open_line_spec("        "@, "ndi"@) + elem_spec("          "@, "name"@, ndi.name@)
        + elem_spec("          "@, "allow-fields"@, bool_text(ndi.allow_fields))
        + close_line_spec("        "@, "ndi"@)
}

/// The XML of one screen consumer.
pub open spec fn screen_xml(scr: ScreenConsumer) -> Seq<char> {
    open_line_spec("        "@, "screen"@) + elem_spec(
        "          "@,
        "device"@,
        dec_digits(scr.device as nat),
    ) + elem_spec("          "@, "windowed"@, bool_text(scr.windowed)) + (match scr.width {
        Some(w) => elem_spec("          "@, "width"@, dec_digits(w as nat)),
        None => Seq::empty(),
    }) + (match scr.height {
        Some(h) => elem_spec("          "@, "height"@, dec_digits(h as nat)),
        None => Seq::empty(),
    }) + (match scr.x {
        Some(x) => elem_spec("          "@, "x"@, int_digits(x as int)),
        None => Seq::empty(),
    }) + (match scr.y {
        Some(y) => elem_spec("          "@, "y"@, int_digits(y as int)),
        None => Seq::empty(),
    }) + (if scr.borderless {
        elem_spec("          "@, "borderless"@, "true"@)
    } else {
        Seq::empty()
    }) + (if scr.always_on_top {
        elem_spec("          "@, "always-on-top"@, "true"@)
    } else {
        Seq::empty()
    }) + (match scr.name {
        Some(nm) => elem_spec("          "@, "name"@, nm@),
        None => Seq::empty(),
    }) + close_line_spec("        "@, "screen"@)
}

/// The XML of one system-audio consumer.
pub open spec fn system_audio_xml(sa: SystemAudioConsumer) -> Seq<char> {
    open_line_spec("        "@, "system-audio"@) + (match sa.channel_layout {
        Some(cl) => elem_spec("          "@, "channel-layout"@, cl@),
        None => Seq::empty(),
    }) + (match sa.latency {
        Some(l) => elem_spec("          "@, "latency"@, dec_digits(l as nat)),
        None => Seq::empty(),
    }) + close_line_spec("        "@, "system-audio"@)
}

/// The XML of one consumer.
pub open spec fn consumer_xml(c: Consumer) -> Seq<char> {
    match c {
        Consumer::DeckLink(dl) => decklink_xml(dl),
        Consumer::Ndi(ndi) => ndi_xml(ndi),
        Consumer::Screen(scr) => screen_xml(scr),
        Consumer::SystemAudio(sa) => system_audio_xml(sa),
    }
}

/// The XML of a list of consumers, in order.
pub open spec fn consumers_xml(cs: Seq<Consumer>) -> Seq<char>
    decreases cs.len(),
{
    if cs.len() == 0 {
        Seq::empty()
    } else {
        consumers_xml(cs.drop_last()) + consumer_xml(cs.last())
    }
}

/// The XML of one channel: its video mode and, when it has any, its
/// consumers.
pub open spec fn channel_xml(ch: Channel) -> Seq<char> {
    open_line_spec("    "@, "channel"@) + elem_spec(
        "      "@,
        "video-mode"@,
        video_mode_text(ch.video_mode),
    ) + (if ch.consumers@.len() == 0 {
        Seq::empty()
    } else {
        open_line_spec("      "@, "consumers"@) + consumers_xml(ch.consumers@)
            + close_line_spec("      "@, "consumers"@)
    }) + close_line_spec("    "@, "channel"@)
}

/// The XML of a list of channels, in order.
pub open spec fn channels_xml(chs: Seq<Channel>) -> Seq<char>
    decreases chs.len(),
{
    if chs.len() == 0 {
        Seq::empty()
    } else {
        channels_xml(chs.drop_last()) + channel_xml(chs.last())
    }
}

/// An optional string element: written only when present.
pub open spec fn opt_str_elem(ind: Seq<char>, name: Seq<char>, v: Option<String>) -> Seq<char> {
    match v {
        Some(s) => elem_spec(ind, name, s@),
        None => Seq::empty(),
    }
}

/// An optional boolean element: written only when present.
pub open spec fn opt_bool_elem(ind: Seq<char>, name: Seq<char>, v: Option<bool>) -> Seq<char> {
    match v {
        Some(b) => elem_spec(ind, name, bool_text(b)),
        None => Seq::empty(),
    }
}

/// The complete XML document of a configuration.
pub open spec fn config_xml_spec(c: CasparConfig) -> Seq<char> {
    "<?xml version=\"1.0\" encoding=\"utf-8\"?>\n"@ + "<configuration>\n"@ + open_line_spec(
        "  "@,
        "paths"@,
    ) + elem_spec("    "@, "media-path"@, c.paths.media@) + elem_spec(
        "    "@,
        "template-path"@,
        c.paths.template@,
    ) + elem_spec("    "@, "log-path"@, c.paths.log@) + elem_spec(
        "    "@,
        "data-path"@,
        c.paths.data@,
    ) + opt_str_elem("    "@, "font-path"@, c.paths.font) + close_line_spec("  "@, "paths"@)
        + opt_str_elem("  "@, "log-level"@, c.log_level) + opt_str_elem(
        "  "@,
        "log-categories"@,
        c.log_categories,
    ) + opt_bool_elem("  "@, "force-deinterlace"@, c.force_deinterlace) + opt_bool_elem(
        "  "@,
        "auto-deinterlace"@,
        c.auto_deinterlace,
    ) + opt_bool_elem("  "@, "blend-modes"@, c.blend_modes) + (match c.mixer_latency {
        Some(l) => elem_spec("  "@, "mixer-latency"@, dec_digits(l as nat)),
        None => Seq::empty(),
    }) + opt_str_elem("  "@, "accelerator"@, c.accelerator) + open_line_spec("  "@, "channels"@)
        + channels_xml(c.channels@) + close_line_spec("  "@, "channels"@) + open_line_spec(
        "  "@,
        "controllers"@,
    ) + open_line_spec("    "@, "tcp"@) + elem_spec(
        "      "@,
        "port"@,
        dec_digits(c.controllers.tcp.port as nat),
    ) + elem_spec("      "@, "protocol"@, c.controllers.tcp.protocol@) + close_line_spec(
        "    "@,
        "tcp"@,
    ) + close_line_spec("  "@, "controllers"@) + (match c.amcp.media_server {
        Some(ms) => open_line_spec("  "@, "amcp"@) + open_line_spec("    "@, "media-server"@)
            + elem_spec("      "@, "host"@, ms.host@) + elem_spec(
            "      "@,
            "port"@,
            dec_digits(ms.port as nat),
        ) + close_line_spec("    "@, "media-server"@) + close_line_spec("  "@, "amcp"@),
        None => Seq::empty(),
    }) + "</configuration>\n"@
}


proof fn lemma_flatten8(
    o: Seq<char>,
    a1: Seq<char>,
    a2: Seq<char>,
    a3: Seq<char>,
    a4: Seq<char>,
    a5: Seq<char>,
    a6: Seq<char>,
    a7: Seq<char>,
    a8: Seq<char>,
)
    ensures
        o + (a1 + a2 + a3 + a4 + a5 + a6 + a7 + a8) == o + a1 + a2 + a3 + a4 + a5 + a6 + a7
            + a8,
{
    vstd::seq_lib::lemma_concat_associative(o, a1, a2);
    vstd::seq_lib::lemma_concat_associative(o, a1 + a2, a3);
    vstd::seq_lib::lemma_concat_associative(o, a1 + a2 + a3, a4);
    vstd::seq_lib::lemma_concat_associative(o, a1 + a2 + a3 + a4, a5);
    vstd::seq_lib::lemma_concat_associative(o, a1 + a2 + a3 + a4 + a5, a6);
    vstd::seq_lib::lemma_concat_associative(o, a1 + a2 + a3 + a4 + a5 + a6, a7);
    vstd::seq_lib::lemma_concat_associative(o, a1 + a2 + a3 + a4 + a5 + a6 + a7, a8);
}

proof fn lemma_flatten11(
    o: Seq<char>,
    a1: Seq<char>,
    a2: Seq<char>,
    a3: Seq<char>,
    a4: Seq<char>,
    a5: Seq<char>,
    a6: Seq<char>,
    a7: Seq<char>,
    a8: Seq<char>,
    a9: Seq<char>,
    a10: Seq<char>,
    a11: Seq<char>,
)
    ensures
        o + (a1 + a2 + a3 + a4 + a5 + a6 + a7 + a8 + a9 + a10 + a11) == o + a1 + a2 + a3 + a4
            + a5 + a6 + a7 + a8 + a9 + a10 + a11,
{
    vstd::seq_lib::lemma_concat_associative(o, a1, a2);
    vstd::seq_lib::lemma_concat_associative(o, a1 + a2, a3);
    vstd::seq_lib::lemma_concat_associative(o, a1 + a2 + a3, a4);
    vstd::seq_lib::lemma_concat_associative(o, a1 + a2 + a3 + a4, a5);
    vstd::seq_lib::lemma_concat_associative(o, a1 + a2 + a3 + a4 + a5, a6);
    vstd::seq_lib::lemma_concat_associative(o, a1 + a2 + a3 + a4 + a5 + a6, a7);
    vstd::seq_lib::lemma_concat_associative(o, a1 + a2 + a3 + a4 + a5 + a6 + a7, a8);
    vstd::seq_lib::lemma_concat_associative(o, a1 + a2 + a3 + a4 + a5 + a6 + a7 + a8, a9);
    vstd::seq_lib::lemma_concat_associative(o, a1 + a2 + a3 + a4 + a5 + a6 + a7 + a8 + a9, a10);
    vstd::seq_lib::lemma_concat_associative(
        o,
        a1 + a2 + a3 + a4 + a5 + a6 + a7 + a8 + a9 + a10,
        a11,
    );
}

fn bool_element(out: &mut String, indent: &str, name: &str, b: bool)
    ensures
        final(out)@ == old(out)@ + elem_spec(indent@, name@, bool_text(b)),
{
    write_element(
        out,
        indent,
        name,
        if b {
            "true"
        } else {
            "false"
        },
    );
}

fn flag_element(out: &mut String, indent: &str, name: &str, b: bool)
    ensures
        final(out)@ == old(out)@ + (if b {
            elem_spec(indent@, name@, "true"@)
        } else {
            Seq::<char>::empty()
        }),
{
    if b {
        write_element(out, indent, name, "true");
    } else {
        proof {
            assert(out@ =~= old(out)@ + Seq::<char>::empty());
        }
    }
}

fn opt_u32_element(out: &mut String, indent: &str, name: &str, v: Option<u32>)
    ensures
        final(out)@ == old(out)@ + (match v {
            Some(x) => elem_spec(indent@, name@, dec_digits(x as nat)),
            None => Seq::<char>::empty(),
        }),
{
    match v {
        Some(x) => {
            let xs = crate::text::u32_to_string(x);
            write_element(out, indent, name, xs.as_str());
        },
        None => {
            proof {
                assert(out@ =~= old(out)@ + Seq::<char>::empty());
            }
        },
    }
}

fn opt_i32_element(out: &mut String, indent: &str, name: &str, v: Option<i32>)
    ensures
        final(out)@ == old(out)@ + (match v {
            Some(x) => elem_spec(indent@, name@, int_digits(x as int)),
            None => Seq::<char>::empty(),
        }),
{
    match v {
        Some(x) => {
            let xs = crate::text::i32_to_string(x);
            write_element(out, indent, name, xs.as_str());
        },
        None => {
            proof {
                assert(out@ =~= old(out)@ + Seq::<char>::empty());
            }
        },
    }
}

fn opt_str_element(out: &mut String, indent: &str, name: &str, v: &Option<String>)
    ensures
        final(out)@ == old(out)@ + (match v {
            Some(x) => elem_spec(indent@, name@, x@),
            None => Seq::<char>::empty(),
        }),
{
    match v {
        Some(x) => {
            write_element(out, indent, name, x.as_str());
        },
        None => {
            proof {
                assert(out@ =~= old(out)@ + Seq::<char>::empty());
            }
        },
    }
}

fn opt_bool_element(out: &mut String, indent: &str, name: &str, v: Option<bool>)
    ensures
        final(out)@ == old(out)@ + (match v {
            Some(b) => elem_spec(indent@, name@, bool_text(b)),
            None => Seq::<char>::empty(),
        }),
{
    match v {
        Some(b) => {
            bool_element(out, indent, name, b);
        },
        None => {
            proof {
                assert(out@ =~= old(out)@ + Seq::<char>::empty());
            }
        },
    }
}

#[verifier::rlimit(100)]
fn write_decklink(out: &mut String, dl: &DeckLinkConsumer)
    ensures
        final(out)@ == old(out)@ + decklink_xml(*dl),
{
    write_open_line(out, "        ", "decklink");
    let device = crate::text::u32_to_string(dl.device);
    write_element(out, "          ", "device", device.as_str());
    opt_u32_element(out, "          ", "key-device", dl.key_device);
    bool_element(out, "          ", "embedded-audio", dl.embedded_audio);
    let latency = match dl.latency {
        DeckLinkLatency::Normal => "normal",
        DeckLinkLatency::Low => "low",
        DeckLinkLatency::Default => "default",
    };
    write_element(out, "          ", "latency", latency);
    let keyer = match dl.keyer {
        DeckLinkKeyer::External => "external",
        DeckLinkKeyer::ExternalSeparateDevice => "external_separate_device",
        DeckLinkKeyer::Internal => "internal",
        DeckLinkKeyer::Default => "default",
    };
    write_element(out, "          ", "keyer", keyer);
    opt_bool_element(out, "          ", "key-only", dl.key_only);
    write_close_line(out, "        ", "decklink");
    proof {
        let o = old(out)@;
        let a1 = open_line_spec("        "@, "decklink"@);
        let a2 = elem_spec("          "@, "device"@, dec_digits(dl.device as nat));
        let a3 = (match dl.key_device {
            Some(k) => elem_spec("          "@, "key-device"@, dec_digits(k as nat)),
            None => Seq::<char>::empty(),
        });
        let a4 = elem_spec("          "@, "embedded-audio"@, bool_text(dl.embedded_audio));
        let a5 = elem_spec("          "@, "latency"@, latency_text(dl.latency));
        let a6 = elem_spec("          "@, "keyer"@, keyer_text(dl.keyer));
        let a7 = (match dl.key_only {
            Some(k) => elem_spec("          "@, "key-only"@, bool_text(k)),
            None => Seq::<char>::empty(),
        });
        let a8 = close_line_spec("        "@, "decklink"@);
        assert(out@ == o + a1 + a2 + a3 + a4 + a5 + a6 + a7 + a8);
        assert(decklink_xml(*dl) == a1 + a2 + a3 + a4 + a5 + a6 + a7 + a8);
        lemma_flatten8(o, a1, a2, a3, a4, a5, a6, a7, a8);
    }
}

fn write_ndi(out: &mut String, ndi: &NdiConsumer)
    ensures
        final(out)@ == old(out)@ + ndi_xml(*ndi),
{
    write_open_line(out, "        ", "ndi");
    write_element(out, "          ", "name", ndi.name.as_str());
    write_element(
        out,
        "          ",
        "allow-fields",
        if ndi.allow_fields {
            "true"
        } else {
            "false"
        },
    );
    write_close_line(out, "        ", "ndi");
    proof {
        assert(out@ =~= old(out)@ + ndi_xml(*ndi));
    }
}

#[verifier::rlimit(100)]
fn write_screen(out: &mut String, scr: &ScreenConsumer)
    ensures
        final(out)@ == old(out)@ + screen_xml(*scr),
{
    write_open_line(out, "        ", "screen");
    let device = crate::text::u32_to_string(scr.device);
    write_element(out, "          ", "device", device.as_str());
    bool_element(out, "          ", "windowed", scr.windowed);
    opt_u32_element(out, "          ", "width", scr.width);
    opt_u32_element(out, "          ", "height", scr.height);
    opt_i32_element(out, "          ", "x", scr.x);
    opt_i32_element(out, "          ", "y", scr.y);
    flag_element(out, "          ", "borderless", scr.borderless);
    flag_element(out, "          ", "always-on-top", scr.always_on_top);
    opt_str_element(out, "          ", "name", &scr.name);
    write_close_line(out, "        ", "screen");
    proof {
        let o = old(out)@;
        let a1 = open_line_spec("        "@, "screen"@);
        let a2 = elem_spec("          "@, "device"@, dec_digits(scr.device as nat));
        let a3 = elem_spec("          "@, "windowed"@, bool_text(scr.windowed));
        let a4 = (match scr.width {
            Some(w) => elem_spec("          "@, "width"@, dec_digits(w as nat)),
            None => Seq::<char>::empty(),
        });
        let a5 = (match scr.height {
            Some(h) => elem_spec("          "@, "height"@, dec_digits(h as nat)),
            None => Seq::<char>::empty(),
        });
        let a6 = (match scr.x {
            Some(x) => elem_spec("          "@, "x"@, int_digits(x as int)),
            None => Seq::<char>::empty(),
        });
        let a7 = (match scr.y {
            Some(y) => elem_spec("          "@, "y"@, int_digits(y as int)),
            None => Seq::<char>::empty(),
        });
        let a8 = (if scr.borderless {
            elem_spec("          "@, "borderless"@, "true"@)
        } else {
            Seq::<char>::empty()
        });
        let a9 = (if scr.always_on_top {
            elem_spec("          "@, "always-on-top"@, "true"@)
        } else {
            Seq::<char>::empty()
        });
        let a10 = (match &scr.name {
            Some(nm) => elem_spec("          "@, "name"@, nm@),
            None => Seq::<char>::empty(),
        });
        let a11 = close_line_spec("        "@, "screen"@);
        assert(out@ == o + a1 + a2 + a3 + a4 + a5 + a6 + a7 + a8 + a9 + a10 + a11);
        assert(screen_xml(*scr) == a1 + a2 + a3 + a4 + a5 + a6 + a7 + a8 + a9 + a10 + a11);
        lemma_flatten11(o, a1, a2, a3, a4, a5, a6, a7, a8, a9, a10, a11);
    }
}

fn write_system_audio(out: &mut String, sa: &SystemAudioConsumer)
    ensures
        final(out)@ == old(out)@ + system_audio_xml(*sa),
{
    write_open_line(out, "        ", "system-audio");
    opt_str_element(out, "          ", "channel-layout", &sa.channel_layout);
    opt_u32_element(out, "          ", "latency", sa.latency);
    write_close_line(out, "        ", "system-audio");
    proof {
        assert(out@ =~= old(out)@ + system_audio_xml(*sa));
    }
}

fn write_consumer(out: &mut String, consumer: &Consumer)
    ensures
        final(out)@ == old(out)@ + consumer_xml(*consumer),
{
    match consumer {
        Consumer::DeckLink(dl) => write_decklink(out, dl),
        Consumer::Ndi(ndi) => write_ndi(out, ndi),
        Consumer::Screen(scr) => write_screen(out, scr),
        Consumer::SystemAudio(sa) => write_system_audio(out, sa),
    }
}

fn write_channel(out: &mut String, channel: &Channel)
    ensures
        final(out)@ == old(out)@ + channel_xml(*channel),
{
    write_open_line(out, "    ", "channel");
    write_element(out, "      ", "video-mode", video_mode_wire_str(&channel.video_mode));
    if channel.consumers.len() > 0 {
        write_open_line(out, "      ", "consumers");
        let ghost mid = out@;
        let mut i: usize = 0;
        while i < channel.consumers.len()
            invariant
                0 <= i <= channel.consumers@.len(),
                out@ == mid + consumers_xml(channel.consumers@.take(i as int)),
            decreases channel.consumers@.len() - i,
        {
            write_consumer(out, &channel.consumers[i]);
            proof {
                assert(channel.consumers@.take(i + 1).drop_last() =~= channel.consumers@.take(
                    i as int,
                ));
                assert(channel.consumers@.take(i + 1).last() == channel.consumers@[i as int]);
            }
            i += 1;
        }
        proof {
            assert(channel.consumers@.take(channel.consumers@.len() as int)
                =~= channel.consumers@);
        }
        write_close_line(out, "      ", "consumers");
    }
    write_close_line(out, "    ", "channel");
    proof {
        assert(out@ =~= old(out)@ + channel_xml(*channel));
    }
}

/// Renders a configuration as its XML document, exactly as
/// `config_xml_spec` describes it: the declaration, then paths, optional
/// root settings, channels with their consumers, controllers, and the
/// optional AMCP media-server section.
fn write_media_server(out: &mut String, v: &Option<MediaServer>)
    ensures
        final(out)@ == old(out)@ + (match v {
            Some(ms) => open_line_spec("  "@, "amcp"@) + open_line_spec(
                "    "@,
                "media-server"@,
            ) + elem_spec("      "@, "host"@, ms.host@) + elem_spec(
                "      "@,
                "port"@,
                dec_digits(ms.port as nat),
            ) + close_line_spec("    "@, "media-server"@) + close_line_spec("  "@, "amcp"@),
            None => Seq::<char>::empty(),
        }),
{
    match v {
        Some(ms) => {
            write_open_line(out, "  ", "amcp");
            write_open_line(out, "    ", "media-server");
            write_element(out, "      ", "host", ms.host.as_str());
            let msport = crate::text::u16_to_string(ms.port);
            write_element(out, "      ", "port", msport.as_str());
            write_close_line(out, "    ", "media-server");
            write_close_line(out, "  ", "amcp");
            proof {
                assert(out@ =~= old(out)@ + (open_line_spec("  "@, "amcp"@) + open_line_spec(
                    "    "@,
                    "media-server"@,
                ) + elem_spec("      "@, "host"@, ms.host@) + elem_spec(
                    "      "@,
                    "port"@,
                    dec_digits(ms.port as nat),
                ) + close_line_spec("    "@, "media-server"@) + close_line_spec("  "@, "amcp"@)));
            }
        },
        None => {
            proof {
                assert(out@ =~= old(out)@ + Seq::<char>::empty());
            }
        },
    }
}

/// Renders a configuration as its XML document, exactly as
/// `config_xml_spec` describes it: the declaration, then paths, optional
/// root settings, channels with their consumers, controllers, and the
/// optional AMCP media-server section.
#[verifier::rlimit(100)]
pub fn generate_caspar_xml(config: &CasparConfig) -> (r: Result<String, CasparXmlError>)
    ensures
        r matches Ok(s) && s@ == config_xml_spec(*config),
{
    let mut out = String::from_str("<?xml version=\"1.0\" encoding=\"utf-8\"?>\n");
    out.append("<configuration>\n");
    write_open_line(&mut out, "  ", "paths");
    write_element(&mut out, "    ", "media-path", config.paths.media.as_str());
    write_element(&mut out, "    ", "template-path", config.paths.template.as_str());
    write_element(&mut out, "    ", "log-path", config.paths.log.as_str());
    write_element(&mut out, "    ", "data-path", config.paths.data.as_str());
    opt_str_element(&mut out, "    ", "font-path", &config.paths.font);
    write_close_line(&mut out, "  ", "paths");
    opt_str_element(&mut out, "  ", "log-level", &config.log_level);
    opt_str_element(&mut out, "  ", "log-categories", &config.log_categories);
    opt_bool_element(&mut out, "  ", "force-deinterlace", config.force_deinterlace);
    opt_bool_element(&mut out, "  ", "auto-deinterlace", config.auto_deinterlace);
    opt_bool_element(&mut out, "  ", "blend-modes", config.blend_modes);
    opt_u32_element(&mut out, "  ", "mixer-latency", config.mixer_latency);
    opt_str_element(&mut out, "  ", "accelerator", &config.accelerator);
    write_open_line(&mut out, "  ", "channels");
    let ghost mid = out@;
    let mut i: usize = 0;
    while i < config.channels.len()
        invariant
            0 <= i <= config.channels@.len(),
            out@ == mid + channels_xml(config.channels@.take(i as int)),
        decreases config.channels@.len() - i,
    {
        write_channel(&mut out, &config.channels[i]);
        proof {
            assert(config.channels@.take(i + 1).drop_last() =~= config.channels@.take(i as int));
            assert(config.channels@.take(i + 1).last() == config.channels@[i as int]);
        }
        i += 1;
    }
    proof {
        assert(config.channels@.take(config.channels@.len() as int) =~= config.channels@);
    }
    write_close_line(&mut out, "  ", "channels");
    write_open_line(&mut out, "  ", "controllers");
    write_open_line(&mut out, "    ", "tcp");
    let port = crate::text::u16_to_string(config.controllers.tcp.port);
    write_element(&mut out, "      ", "port", port.as_str());
    write_element(&mut out, "      ", "protocol", config.controllers.tcp.protocol.as_str());
    write_close_line(&mut out, "    ", "tcp");
    write_close_line(&mut out, "  ", "controllers");
    write_media_server(&mut out, &config.amcp.media_server);
    out.append("</configuration>\n");
    proof {
        assert(out@ =~= config_xml_spec(*config));
    }
    Ok(out)
}

/// Reads a CasparCG XML configuration document. Sections and elements
/// that the schema does not know are skipped; a configuration that names
/// no channel receives one default channel, so a parsed configuration
/// always holds at least one.
pub fn parse_caspar_xml(xml: &str) -> (r: Result<CasparConfig, CasparXmlError>)
    ensures
        r matches Ok(c) ==> c.channels@.len() >= 1,
{
    let tokens = match tokenize_xml(xml) {
        Ok(t) => t,
        Err(m) => {
            return Err(CasparXmlError::Parse(m));
        },
    };
    let mut config = CasparConfig::default();
    config.channels = Vec::new();

    let mut in_paths = false;
    let mut in_channels = false;
    let mut in_channel = false;
    let mut in_consumers = false;
    let mut in_consumer: Option<String> = None;
    let mut in_controllers = false;
    let mut in_tcp = false;
    let mut in_amcp = false;
    let mut in_media_server = false;
    let mut current_element = String::new();
    let mut current_channel: Option<Channel> = None;
    let mut current_consumer: Option<ConsumerBuilder> = None;

    let mut t: usize = 0;
    while t < tokens.len()
        decreases tokens@.len() - t,
    {
        match &tokens[t] {
            XmlToken::Start(name) => {
                current_element = name.clone();
                if str_eq(name.as_str(), "paths") {
                    in_paths = true;
                } else if str_eq(name.as_str(), "channels") {
                    in_channels = true;
                } else if str_eq(name.as_str(), "channel") {
                    in_channel = true;
                    current_channel = Some(Channel::default());
                } else if str_eq(name.as_str(), "consumers") {
                    in_consumers = true;
                } else if str_eq(name.as_str(), "decklink") {
                    if in_consumers {
                        in_consumer = Some(String::from_str("decklink"));
                        current_consumer = Some(
                            ConsumerBuilder::DeckLink(DeckLinkConsumer::default()),
                        );
                    }
                } else if str_eq(name.as_str(), "ndi") {
                    if in_consumers {
                        in_consumer = Some(String::from_str("ndi"));
                        current_consumer = Some(ConsumerBuilder::Ndi(NdiConsumer::default()));
                    }
                } else if str_eq(name.as_str(), "screen") {
                    if in_consumers {
                        in_consumer = Some(String::from_str("screen"));
                        current_consumer = Some(ConsumerBuilder::Screen(ScreenConsumer::default()));
                    }
                } else if str_eq(name.as_str(), "system-audio") {
                    if in_consumers {
                        in_consumer = Some(String::from_str("system-audio"));
                        current_consumer = Some(
                            ConsumerBuilder::SystemAudio(SystemAudioConsumer::default()),
                        );
                    }
                } else if str_eq(name.as_str(), "controllers") {
                    in_controllers = true;
                } else if str_eq(name.as_str(), "tcp") {
                    if in_controllers {
                        in_tcp = true;
                    }
                } else if str_eq(name.as_str(), "amcp") {
                    in_amcp = true;
                } else if str_eq(name.as_str(), "media-server") {
                    if in_amcp {
                        in_media_server = true;
                        config.amcp.media_server = Some(MediaServer::default());
                    }
                }
            },
            XmlToken::End(name) => {
                if str_eq(name.as_str(), "paths") {
                    in_paths = false;
                } else if str_eq(name.as_str(), "channels") {
                    in_channels = false;
                } else if str_eq(name.as_str(), "channel") {
                    let taken = current_channel;
                    current_channel = None;
                    match taken {
                        Some(ch) => {
                            config.channels.push(ch);
                        },
                        None => {},
                    }
                    in_channel = false;
                } else if str_eq(name.as_str(), "consumers") {
                    in_consumers = false;
                } else if str_eq(name.as_str(), "decklink") || str_eq(name.as_str(), "ndi")
                    || str_eq(name.as_str(), "screen") || str_eq(name.as_str(), "system-audio") {
                    if in_consumer.is_some() {
                        let builder = current_consumer;
                        current_consumer = None;
                        match builder {
                            Some(b) => {
                                match &mut current_channel {
                                    Some(ch) => {
                                        ch.consumers.push(Consumer::from(b));
                                    },
                                    None => {},
                                }
                            },
                            None => {},
                        }
                        in_consumer = None;
                    }
                } else if str_eq(name.as_str(), "controllers") {
                    in_controllers = false;
                } else if str_eq(name.as_str(), "tcp") {
                    in_tcp = false;
                } else if str_eq(name.as_str(), "amcp") {
                    in_amcp = false;
                } else if str_eq(name.as_str(), "media-server") {
                    in_media_server = false;
                }
            },
            XmlToken::Text(text) => {
                if in_paths {
                    if str_eq(current_element.as_str(), "media-path") {
                        config.paths.media = text.clone();
                    } else if str_eq(current_element.as_str(), "template-path") {
                        config.paths.template = text.clone();
                    } else if str_eq(current_element.as_str(), "log-path") {
                        config.paths.log = text.clone();
                    } else if str_eq(current_element.as_str(), "data-path") {
                        config.paths.data = text.clone();
                    } else if str_eq(current_element.as_str(), "font-path") {
                        config.paths.font = Some(text.clone());
                    }
                } else if in_channel && !in_consumers {
                    if str_eq(current_element.as_str(), "video-mode") {
                        match &mut current_channel {
                            Some(ch) => {
                                ch.video_mode = parse_video_mode(text.as_str());
                            },
                            None => {},
                        }
                    }
                } else if in_consumer.is_some() {
                    let consumer_type = match &in_consumer {
                        Some(ct) => ct.clone(),
                        None => String::new(),
                    };
                    match &mut current_consumer {
                        Some(builder) => {
                            apply_consumer_property(
                                builder,
                                consumer_type.as_str(),
                                current_element.as_str(),
                                text.as_str(),
                            );
                        },
                        None => {},
                    }
                } else if in_tcp {
                    if str_eq(current_element.as_str(), "port") {
                        match crate::text::parse_dec_u16(text.as_str()) {
                            Some(port) => {
                                config.controllers.tcp.port = port;
                            },
                            None => {},
                        }
                    } else if str_eq(current_element.as_str(), "protocol") {
                        config.controllers.tcp.protocol = text.clone();
                    }
                } else if in_media_server {
                    match &mut config.amcp.media_server {
                        Some(ms) => {
                            if str_eq(current_element.as_str(), "host") {
                                ms.host = text.clone();
                            } else if str_eq(current_element.as_str(), "port") {
                                match crate::text::parse_dec_u16(text.as_str()) {
                                    Some(port) => {
                                        ms.port = port;
                                    },
                                    None => {},
                                }
                            }
                        },
                        None => {},
                    }
                } else {
                    if str_eq(current_element.as_str(), "log-level") {
                        config.log_level = Some(text.clone());
                    } else if str_eq(current_element.as_str(), "log-categories") {
                        config.log_categories = Some(text.clone());
                    } else if str_eq(current_element.as_str(), "force-deinterlace") {
                        config.force_deinterlace = Some(str_eq(text.as_str(), "true"));
                    } else if str_eq(current_element.as_str(), "auto-deinterlace") {
                        config.auto_deinterlace = Some(str_eq(text.as_str(), "true"));
                    } else if str_eq(current_element.as_str(), "blend-modes") {
                        config.blend_modes = Some(str_eq(text.as_str(), "true"));
                    } else if str_eq(current_element.as_str(), "mixer-latency") {
                        config.mixer_latency = crate::text::parse_dec_u32(text.as_str());
                    } else if str_eq(current_element.as_str(), "accelerator") {
                        config.accelerator = Some(text.clone());
                    }
                }
            },
            XmlToken::Empty(_) => {},
        }
        t += 1;
    }

    if config.channels.len() == 0 {
        config.channels.push(Channel::default());
    }
    Ok(config)
}

} // verus!
