//! Command text builders, reply interpretation, and composite command
//! sequences with an explicit partial-failure policy.
//!
//! A composite operation is an ordered list of protocol commands. A start
//! sequence is fail-fast: the first non-success reply aborts the sequence
//! and reports which step failed, and no later command is issued. A stop
//! sequence is best-effort: every compensating command is attempted and
//! individual failures are suppressed.

use vstd::prelude::*;
use vstd::string::*;

use crate::amcp::client::{is_success_code, AmcpError, AmcpResponse};
use crate::http_server::{get_test_pattern_url, test_pattern_url_spec};
use crate::text::{all_digits, dec_digits, dec_value, first_index_of, trim_spec, u32_to_string};

verus! {

/// Values reported by the server's system information reply.
#[derive(Debug, Clone)]
pub struct SystemInfo {
    pub version: Option<String>,
    pub channels: u32,
}

/// Layer that carries the fill test pattern. High layer numbers avoid
/// conflicts with production content.
pub const TEST_FILL_LAYER: u32 = 20;

/// Layer that carries the key test pattern.
pub const TEST_KEY_LAYER: u32 = 19;

/// The first line of `s`: everything before the first `'\n'`.
pub open spec fn first_line_of(s: Seq<char>) -> Seq<char> {
    s.take(first_index_of(s, '\n'))
}

/// Extracts the version string from a version reply: the first line of
/// the trimmed payload, itself trimmed. Empty payloads yield nothing.
pub fn parse_version_response(data: &str) -> (r: Option<String>)
    ensures
        match r {
            Some(v) => trim_spec(data@).len() > 0 && v@ == trim_spec(
                first_line_of(trim_spec(data@)),
            ),
            None => trim_spec(data@).len() == 0,
        },
{
    let trimmed = crate::text::trim_ws(data);
    let n = trimmed.unicode_len();
    if n == 0 {
        return None;
    }
    let nl = crate::text::find_char(trimmed, '\n');
    proof {
        crate::text::lemma_first_index_of(trimmed@, '\n');
    }
    let fl = trimmed.substring_char(0, nl);
    proof {
        assert(fl@ =~= first_line_of(trimmed@));
    }
    let v = crate::text::trim_ws(fl);
    Some(String::from_str(v))
}

/// The text of an opening tag `<tag>`.
pub open spec fn open_tag_spec(tag: Seq<char>) -> Seq<char> {
    seq!['<'] + tag + seq!['>']
}

/// The text of a closing tag `</tag>`.
pub open spec fn close_tag_spec(tag: Seq<char>) -> Seq<char> {
    seq!['<', '/'] + tag + seq!['>']
}

/// The trimmed text between the first `<tag>` and the next `</tag>` after
/// it, if both occur.
pub open spec fn extracted_value(xml: Seq<char>, tag: Seq<char>) -> Option<Seq<char>> {
    let oi = crate::text::first_match_index(xml, open_tag_spec(tag), 0);
    if oi > xml.len() {
        None
    } else {
        let start = oi + open_tag_spec(tag).len();
        let ci = crate::text::first_match_index(xml, close_tag_spec(tag), start);
        if ci > xml.len() {
            None
        } else {
            Some(trim_spec(xml.subrange(start, ci)))
        }
    }
}

/// Simple tag-delimited value extraction (not a full XML parser): finds
/// the first `<tag>`, then the next `</tag>`, and returns the trimmed
/// text between them.
pub fn extract_xml_value(xml: &str, tag: &str) -> (r: Option<String>)
    ensures
        match r {
            Some(v) => extracted_value(xml@, tag@) matches Some(e) && v@ == e,
            None => extracted_value(xml@, tag@) is None,
        },
{
    let mut open_tag = String::from_str("<");
    open_tag.append(tag);
    open_tag.append(">");
    let mut close_tag = String::from_str("</");
    close_tag.append(tag);
    close_tag.append(">");
    proof {
        reveal_strlit("<");
        reveal_strlit(">");
        reveal_strlit("</");
        assert(open_tag@ =~= open_tag_spec(tag@));
        assert(close_tag@ =~= close_tag_spec(tag@));
    }
    let oi = match crate::text::find_sub(xml, open_tag.as_str(), 0) {
        Some(i) => i,
        None => {
            proof {
                crate::text::lemma_first_match_index(xml@, open_tag_spec(tag@), 0);
            }
            return None;
        },
    };
    proof {
        crate::text::lemma_first_match_index(xml@, open_tag_spec(tag@), 0);
    }
    let n = xml.unicode_len();
    let start = oi + open_tag.unicode_len();
    let ci = match crate::text::find_sub(xml, close_tag.as_str(), start) {
        Some(i) => i,
        None => {
            proof {
                crate::text::lemma_first_match_index(xml@, close_tag_spec(tag@), start as int);
            }
            return None;
        },
    };
    proof {
        crate::text::lemma_first_match_index(xml@, close_tag_spec(tag@), start as int);
    }
    let content = xml.substring_char(start, ci);
    let v = crate::text::trim_ws(content);
    Some(String::from_str(v))
}

/// The channel count encoded by a `<channels>` value: its numeric value
/// when it is a plain decimal number in `u32` range, and zero otherwise.
pub open spec fn channels_of(e: Seq<char>) -> int {
    if e.len() > 0 && all_digits(e) && dec_value(e) <= u32::MAX {
        dec_value(e)
    } else {
        0
    }
}

/// Reads the server version and channel count out of a system-information
/// reply (an XML document): the `<version>` value verbatim, and the
/// `<channels>` value as a number, zero when absent or non-numeric.
pub fn parse_system_info(xml: &str) -> (r: Option<SystemInfo>)
    ensures
        r matches Some(si) && (match extracted_value(xml@, "version"@) {
            Some(e) => si.version matches Some(v) && v@ == e,
            None => si.version is None,
        }) && (match extracted_value(xml@, "channels"@) {
            Some(e) => si.channels == channels_of(e),
            None => si.channels == 0,
        }),
{
    let version = extract_xml_value(xml, "version");
    let channels: u32 = match extract_xml_value(xml, "channels") {
        Some(s) => match crate::text::parse_dec_u32(s.as_str()) {
            Some(v) => v,
            None => 0,
        },
        None => 0,
    };
    Some(SystemInfo { version, channels })
}

/// The `VERSION <component>` command.
pub fn version_component_command(component: &str) -> (r: String)
    ensures
        r@ == "VERSION "@ + component@,
{
    let mut s = String::from_str("VERSION ");
    s.append(component);
    s
}

/// The `INFO <channel>` command.
pub fn info_channel_command(channel: u32) -> (r: String)
    ensures
        r@ == "INFO "@ + dec_digits(channel as nat),
{
    let mut s = String::from_str("INFO ");
    let ch = u32_to_string(channel);
    s.append(ch.as_str());
    s
}

/// The `INFO <channel>-<layer>` command.
pub fn info_template_command(channel: u32, layer: u32) -> (r: String)
    ensures
        r@ == "INFO "@ + dec_digits(channel as nat) + "-"@ + dec_digits(layer as nat),
{
    let mut s = String::from_str("INFO ");
    let ch = u32_to_string(channel);
    s.append(ch.as_str());
    s.append("-");
    let la = u32_to_string(layer);
    s.append(la.as_str());
    proof {
        assert(s@ =~= "INFO "@ + dec_digits(channel as nat) + "-"@ + dec_digits(layer as nat));
    }
    s
}

/// The error reported when a named command draws a non-success reply:
/// `<command> command failed: <code> <message>`.
pub open spec fn command_failed_message(command: Seq<char>, code: u16, message: Seq<char>) -> Seq<
    char,
> {
    command + " command failed: "@ + dec_digits(code as nat) + seq![' '] + message
}

/// Builds the protocol error for a command that drew a non-success reply,
/// carrying the server's code and message.
pub fn command_failed(command: &str, response: &AmcpResponse) -> (r: AmcpError)
    ensures
        r matches AmcpError::Protocol(m) && m@ == command_failed_message(
            command@,
            response.code,
            response.message@,
        ),
{
    let mut s = String::from_str(command);
    s.append(" command failed: ");
    let c = crate::text::u16_to_string(response.code);
    s.append(c.as_str());
    s.append(" ");
    s.append(response.message.as_str());
    proof {
        reveal_strlit(" command failed: ");
        reveal_strlit(" ");
        assert(s@ =~= command_failed_message(command@, response.code, response.message@));
    }
    AmcpError::Protocol(s)
}

/// The reply's data block, or the empty string when there is none.
pub fn response_payload(response: &AmcpResponse) -> (p: String)
    ensures
        match response.data {
            Some(d) => p@ == d@,
            None => p@.len() == 0,
        },
{
    match &response.data {
        Some(d) => d.clone(),
        None => String::new(),
    }
}

/// The reply's data block, or its status message when there is none.
pub fn response_payload_or_message(response: &AmcpResponse) -> (p: String)
    ensures
        match response.data {
            Some(d) => p@ == d@,
            None => p@ == response.message@,
        },
{
    match &response.data {
        Some(d) => d.clone(),
        None => response.message.clone(),
    }
}

/// `PLAY <channel>-<layer> [HTML] <pattern url>` for one test pattern.
pub open spec fn play_pattern_command_spec(
    channel: nat,
    layer: nat,
    url: Seq<char>,
    mode: Seq<char>,
) -> Seq<char> {
    "PLAY "@ + dec_digits(channel) + "-"@ + dec_digits(layer) + " [HTML] "@
        + test_pattern_url_spec(url, mode, channel)
}

/// `MIXER <channel>-<layer> KEYER 1`: enables the layer as external key.
pub open spec fn keyer_command_spec(channel: nat, layer: nat) -> Seq<char> {
    "MIXER "@ + dec_digits(channel) + "-"@ + dec_digits(layer) + " KEYER 1"@
}

/// `CLEAR <channel>-<layer>`: the compensating command for one layer.
pub open spec fn clear_command_spec(channel: nat, layer: nat) -> Seq<char> {
    "CLEAR "@ + dec_digits(channel) + "-"@ + dec_digits(layer)
}

fn play_pattern_command(channel: u32, layer: u32, url: &str, mode: &str) -> (r: String)
    ensures
        r@ == play_pattern_command_spec(channel as nat, layer as nat, url@, mode@),
{
    let mut s = String::from_str("PLAY ");
    let ch = u32_to_string(channel);
    s.append(ch.as_str());
    s.append("-");
    let la = u32_to_string(layer);
    s.append(la.as_str());
    s.append(" [HTML] ");
    let u = get_test_pattern_url(url, channel, mode);
    s.append(u.as_str());
    proof {
        reveal_strlit("PLAY ");
        reveal_strlit("-");
        reveal_strlit(" [HTML] ");
        assert(s@ =~= play_pattern_command_spec(channel as nat, layer as nat, url@, mode@));
    }
    s
}

fn keyer_command(channel: u32, layer: u32) -> (r: String)
    ensures
        r@ == keyer_command_spec(channel as nat, layer as nat),
{
    let mut s = String::from_str("MIXER ");
    let ch = u32_to_string(channel);
    s.append(ch.as_str());
    s.append("-");
    let la = u32_to_string(layer);
    s.append(la.as_str());
    s.append(" KEYER 1");
    proof {
        reveal_strlit("MIXER ");
        reveal_strlit("-");
        reveal_strlit(" KEYER 1");
        assert(s@ =~= keyer_command_spec(channel as nat, layer as nat));
    }
    s
}

fn clear_command(channel: u32, layer: u32) -> (r: String)
    ensures
        r@ == clear_command_spec(channel as nat, layer as nat),
{
    let mut s = String::from_str("CLEAR ");
    let ch = u32_to_string(channel);
    s.append(ch.as_str());
    s.append("-");
    let la = u32_to_string(layer);
    s.append(la.as_str());
    proof {
        reveal_strlit("CLEAR ");
        reveal_strlit("-");
        assert(s@ =~= clear_command_spec(channel as nat, layer as nat));
    }
    s
}

/// The error reported when a fail-fast step draws a non-success reply:
/// `Failed to <step label>: <code> <message>`.
pub open spec fn step_failure_message(label: Seq<char>, code: u16, message: Seq<char>) -> Seq<
    char,
> {
    "Failed to "@ + label + ": "@ + dec_digits(code as nat) + seq![' '] + message
}

/// An ordered sequence of protocol commands with its partial-failure
/// policy. With `best_effort` false the sequence is fail-fast: the first
/// non-success reply aborts it, no later command is offered, and the
/// failing step is reported with the server's code and message. With
/// `best_effort` true every command is offered regardless of earlier
/// replies and no reply ever aborts the sequence.
pub struct CommandSequence {
    commands: Vec<String>,
    labels: Vec<String>,
    next: usize,
    best_effort: bool,
    aborted: bool,
}

impl CommandSequence {
    pub closed spec fn spec_commands(&self) -> Seq<Seq<char>> {
        self.commands.deep_view()
    }

    pub closed spec fn spec_labels(&self) -> Seq<Seq<char>> {
        self.labels.deep_view()
    }

    pub closed spec fn spec_next(&self) -> int {
        self.next as int
    }

    pub closed spec fn spec_best_effort(&self) -> bool {
        self.best_effort
    }

    pub closed spec fn spec_aborted(&self) -> bool {
        self.aborted
    }

    pub closed spec fn wf(&self) -> bool {
        self.commands@.len() == self.labels@.len() && self.next <= self.commands@.len()
    }

    /// Builds a sequence from its commands, one label per command for
    /// failure reporting, and the named failure policy.
    pub fn new(commands: Vec<String>, labels: Vec<String>, best_effort: bool) -> (r: Self)
        requires
            commands@.len() == labels@.len(),
        ensures
            r.wf(),
            r.spec_commands() == commands.deep_view(),
            r.spec_labels() == labels.deep_view(),
            r.spec_next() == 0,
            r.spec_best_effort() == best_effort,
            !r.spec_aborted(),
    {
        CommandSequence { commands, labels, next: 0, best_effort, aborted: false }
    }

    /// Whether the sequence uses the best-effort policy.
    pub fn is_best_effort(&self) -> (r: bool)
        ensures
            r == self.spec_best_effort(),
    {
        self.best_effort
    }

    /// Whether a non-success reply has aborted the sequence.
    pub fn is_aborted(&self) -> (r: bool)
        ensures
            r == self.spec_aborted(),
    {
        self.aborted
    }

    /// How many commands the sequence holds in total.
    pub fn command_count(&self) -> (r: usize)
        ensures
            r == self.spec_commands().len(),
    {
        self.commands.len()
    }

    /// How many steps have been answered so far.
    pub fn steps_taken(&self) -> (r: usize)
        ensures
            r == self.spec_next(),
    {
        self.next
    }

    /// All commands were issued and answered and none aborted the
    /// sequence.
    pub fn is_complete(&self) -> (r: bool)
        ensures
            r == (self.spec_next() == self.spec_commands().len() && !self.spec_aborted()),
    {
        self.next == self.commands.len() && !self.aborted
    }

    /// The next command to put on the wire, or `None` once the sequence is
    /// exhausted or aborted. After an abort no further command is ever
    /// offered.
    pub fn next_command(&self) -> (r: Option<String>)
        requires
            self.wf(),
        ensures
            match r {
                Some(c) => !self.spec_aborted() && self.spec_next() < self.spec_commands().len()
                    && c@ == self.spec_commands()[self.spec_next()],
                None => self.spec_aborted() || self.spec_next() >= self.spec_commands().len(),
            },
    {
        if self.aborted || self.next >= self.commands.len() {
            None
        } else {
            let c = self.commands[self.next].clone();
            proof {
                assert(self.spec_commands()[self.spec_next()] == self.commands@[self.next as int]@);
            }
            Some(c)
        }
    }

    /// Applies the server's reply to the current step. Under the
    /// best-effort policy the reply is recorded and the sequence always
    /// moves on. Under the fail-fast policy a non-success reply aborts the
    /// sequence and reports the failing step's label with the server's
    /// code and message; the sequence then offers no further command.
    pub fn on_response(&mut self, response: &AmcpResponse) -> (r: Result<(), AmcpError>)
        requires
            old(self).wf(),
            !old(self).spec_aborted(),
            old(self).spec_next() < old(self).spec_commands().len(),
        ensures
            final(self).wf(),
            final(self).spec_commands() == old(self).spec_commands(),
            final(self).spec_labels() == old(self).spec_labels(),
            final(self).spec_best_effort() == old(self).spec_best_effort(),
            (old(self).spec_best_effort() || is_success_code(response.code)) ==> ({
                &&& r is Ok
                &&& !final(self).spec_aborted()
                &&& final(self).spec_next() == old(self).spec_next() + 1
            }),
            (!old(self).spec_best_effort() && !is_success_code(response.code)) ==> ({
                &&& final(self).spec_aborted()
                &&& final(self).spec_next() == old(self).spec_next()
                &&& (r matches Err(AmcpError::Protocol(m)) && m@ == step_failure_message(
                    old(self).spec_labels()[old(self).spec_next()],
                    response.code,
                    response.message@,
                ))
            }),
    {
        // Pins the command count to a machine word so the step index
        // below can advance without overflow.
        let _count = self.commands.len();
        if self.best_effort || response.is_success() {
            self.next = self.next + 1;
            return Ok(());
        }
        self.aborted = true;
        let mut s = String::from_str("Failed to ");
        s.append(self.labels[self.next].as_str());
        s.append(": ");
        let c = crate::text::u16_to_string(response.code);
        s.append(c.as_str());
        s.append(" ");
        s.append(response.message.as_str());
        proof {
            reveal_strlit("Failed to ");
            reveal_strlit(": ");
            reveal_strlit(" ");
            assert(self.spec_labels()[self.spec_next()] == self.labels@[self.next as int]@);
            assert(s@ =~= step_failure_message(
                self.spec_labels()[self.spec_next()],
                response.code,
                response.message@,
            ));
        }
        Err(AmcpError::Protocol(s))
    }
}

/// The fail-fast start sequence of a channel test: play the fill pattern,
/// play the key pattern, then enable the keyer. The first failing step
/// aborts the sequence; earlier steps are deliberately left in effect for
/// a stop sequence to clean up.
pub fn channel_test_start_sequence(channel: u32, test_server_url: &str) -> (r: CommandSequence)
    ensures
        r.wf(),
        !r.spec_best_effort(),
        !r.spec_aborted(),
        r.spec_next() == 0,
        r.spec_commands().len() == 3,
        r.spec_commands()[0] == play_pattern_command_spec(
            channel as nat,
            TEST_FILL_LAYER as nat,
            test_server_url@,
            "fill"@,
        ),
        r.spec_commands()[1] == play_pattern_command_spec(
            channel as nat,
            TEST_KEY_LAYER as nat,
            test_server_url@,
            "key"@,
        ),
        r.spec_commands()[2] == keyer_command_spec(channel as nat, TEST_KEY_LAYER as nat),
        r.spec_labels()[0] == "load fill pattern"@,
        r.spec_labels()[1] == "load key pattern"@,
        r.spec_labels()[2] == "enable keyer"@,
{
    let mut commands: Vec<String> = Vec::new();
    commands.push(play_pattern_command(channel, TEST_FILL_LAYER, test_server_url, "fill"));
    commands.push(play_pattern_command(channel, TEST_KEY_LAYER, test_server_url, "key"));
    commands.push(keyer_command(channel, TEST_KEY_LAYER));
    let mut labels: Vec<String> = Vec::new();
    labels.push(String::from_str("load fill pattern"));
    labels.push(String::from_str("load key pattern"));
    labels.push(String::from_str("enable keyer"));
    CommandSequence::new(commands, labels, false)
}

/// The best-effort stop sequence of a channel test: clear the fill layer,
/// then the key layer. Both commands are attempted whatever the server
/// replies, and no reply aborts the sequence.
pub fn channel_test_stop_sequence(channel: u32) -> (r: CommandSequence)
    ensures
        r.wf(),
        r.spec_best_effort(),
        !r.spec_aborted(),
        r.spec_next() == 0,
        r.spec_commands().len() == 2,
        r.spec_commands()[0] == clear_command_spec(channel as nat, TEST_FILL_LAYER as nat),
        r.spec_commands()[1] == clear_command_spec(channel as nat, TEST_KEY_LAYER as nat),
{
    let mut commands: Vec<String> = Vec::new();
    commands.push(clear_command(channel, TEST_FILL_LAYER));
    commands.push(clear_command(channel, TEST_KEY_LAYER));
    let mut labels: Vec<String> = Vec::new();
    labels.push(String::from_str("clear fill layer"));
    labels.push(String::from_str("clear key layer"));
    CommandSequence::new(commands, labels, true)
}

/// The best-effort stop sequence over every channel from 1 to
/// `channel_count`: the per-channel stop commands, channel by channel,
/// continuing through failures on individual channels.
pub fn all_channel_tests_stop_sequence(channel_count: u32) -> (r: CommandSequence)
    ensures
        r.wf(),
        r.spec_best_effort(),
        !r.spec_aborted(),
        r.spec_next() == 0,
        r.spec_commands().len() == 2 * channel_count,
        forall|k: int| 0 <= k < channel_count ==> #[trigger] r.spec_commands()[2 * k]
            == clear_command_spec((k + 1) as nat, TEST_FILL_LAYER as nat) && r.spec_commands()[2
            * k + 1] == clear_command_spec((k + 1) as nat, TEST_KEY_LAYER as nat),
{
    let mut commands: Vec<String> = Vec::new();
    let mut labels: Vec<String> = Vec::new();
    let mut ch: u32 = 0;
    while ch < channel_count
        invariant
            0 <= ch <= channel_count,
            commands@.len() == 2 * ch,
            labels@.len() == 2 * ch,
            forall|k: int| 0 <= k < ch ==> #[trigger] commands@[2 * k]@ == clear_command_spec(
                (k + 1) as nat,
                TEST_FILL_LAYER as nat,
            ) && commands@[2 * k + 1]@ == clear_command_spec((k + 1) as nat, TEST_KEY_LAYER as nat),
        decreases channel_count - ch,
    {
        let c1 = clear_command(ch + 1, TEST_FILL_LAYER);
        let c2 = clear_command(ch + 1, TEST_KEY_LAYER);
        let ghost pre = commands@;
        commands.push(c1);
        commands.push(c2);
        labels.push(String::from_str("clear fill layer"));
        labels.push(String::from_str("clear key layer"));
        proof {
            assert(commands@ =~= pre.push(c1).push(c2));
            assert forall|k: int| 0 <= k < ch + 1 implies (#[trigger] commands@[2 * k]@
                == clear_command_spec((k + 1) as nat, TEST_FILL_LAYER as nat) && commands@[2 * k
                + 1]@ == clear_command_spec((k + 1) as nat, TEST_KEY_LAYER as nat)) by {
                if k < ch {
                    assert(commands@[2 * k] == pre[2 * k]);
                    assert(commands@[2 * k + 1] == pre[2 * k + 1]);
                    assert(pre[2 * k]@ == clear_command_spec(
                        (k + 1) as nat,
                        TEST_FILL_LAYER as nat,
                    ));
                } else {
                    assert(commands@[2 * (ch as int)] == c1);
                    assert(commands@[2 * (ch as int) + 1] == c2);
                }
            }
        }
        ch += 1;
    }
    let r = CommandSequence::new(commands, labels, true);
    proof {
        assert forall|k: int| 0 <= k < channel_count implies #[trigger] r.spec_commands()[2 * k]
            == clear_command_spec((k + 1) as nat, TEST_FILL_LAYER as nat) && r.spec_commands()[2 * k
            + 1] == clear_command_spec((k + 1) as nat, TEST_KEY_LAYER as nat) by {
            assert(r.spec_commands()[2 * k] == commands@[2 * k]@);
            assert(r.spec_commands()[2 * k + 1] == commands@[2 * k + 1]@);
        }
    }
    r
}

} // verus!
