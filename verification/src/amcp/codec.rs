//! The AMCP envelope codec.
//!
//! Encoding appends the CRLF line terminator to the caller's command text,
//! exactly once and without inspecting the text. Decoding reads one status
//! line — a decimal status code, then the remainder of the line as the
//! message — and, for 2xx replies that are neither a plain "OK"
//! acknowledgement nor message-less, a data block of further lines closed
//! by a blank line.

use vstd::prelude::*;
use vstd::string::*;

use crate::amcp::client::{is_success_code, AmcpError, AmcpResponse};
use crate::text::{
    all_digits, dec_digits, dec_value, ends_with_seq, first_index_of, joined_lines, trim_end_spec,
    trim_spec,
};

verus! {

/// The protocol line terminator.
pub open spec fn crlf() -> Seq<char> {
    seq!['\r', '\n']
}

/// Appends the line terminator to the command text, altering nothing else.
pub fn encode_command(command: &str) -> (r: String)
    ensures
        r@ == command@ + crlf(),
{
    let mut s = String::from_str(command);
    s.append("\r\n");
    proof {
        reveal_strlit("\r\n");
        assert(s@ =~= command@ + crlf());
    }
    s
}

/// The leading whitespace-delimited token of a status line: everything
/// before the first space.
pub open spec fn token_of(line: Seq<char>) -> Seq<char> {
    line.take(first_index_of(line, ' '))
}

/// The status message: everything after the first space, or empty when the
/// line holds no space.
pub open spec fn message_of(line: Seq<char>) -> Seq<char> {
    if first_index_of(line, ' ') < line.len() {
        line.skip(first_index_of(line, ' ') + 1)
    } else {
        Seq::empty()
    }
}

/// The leading token parses as a status code: non-empty, all decimal
/// digits, and within `u16` range.
pub open spec fn valid_status_line(line: Seq<char>) -> bool {
    &&& token_of(line).len() > 0
    &&& all_digits(token_of(line))
    &&& dec_value(token_of(line)) <= u16::MAX
}

/// The status code of a valid status line.
pub open spec fn code_of(line: Seq<char>) -> int {
    dec_value(token_of(line))
}

/// Splits a status line into its numeric code and its message. Fails with
/// a protocol error exactly when the leading token is empty, non-numeric,
/// or out of `u16` range; the line is never silently coerced.
pub fn parse_response_line(line: &str) -> (r: Result<(u16, String), AmcpError>)
    ensures
        match r {
            Ok(p) => valid_status_line(line@) && p.0 == code_of(line@) && p.1@ == message_of(
                line@,
            ),
            Err(e) => !valid_status_line(line@) && (e matches AmcpError::Protocol(m) && m@
                == "Invalid response code: "@ + line@),
        },
{
    let n = line.unicode_len();
    let sp = crate::text::find_char(line, ' ');
    proof {
        crate::text::lemma_first_index_of(line@, ' ');
    }
    let token = line.substring_char(0, sp);
    proof {
        assert(token@ =~= token_of(line@));
    }
    match crate::text::parse_dec_u16(token) {
        Some(code) => {
            let message = if sp < n {
                line.substring_char(sp + 1, n)
            } else {
                ""
            };
            proof {
                if sp < n {
                    assert(message@ =~= message_of(line@));
                } else {
                    reveal_strlit("");
                    assert(message@ =~= message_of(line@));
                }
            }
            Ok((code, String::from_str(message)))
        },
        None => {
            let mut m = String::from_str("Invalid response code: ");
            m.append(line);
            Err(AmcpError::Protocol(m))
        },
    }
}

/// A reply carries a data block exactly when its code is 2xx, its
/// (trimmed) status line does not end in `" OK"`, and its message is
/// non-empty.
pub open spec fn carries_data(code: u16, line: Seq<char>) -> bool {
    &&& is_success_code(code)
    &&& !ends_with_seq(line, seq![' ', 'O', 'K'])
    &&& message_of(line).len() > 0
}

/// Decides whether further data lines follow the given (already trimmed)
/// status line, so that a reader knows whether to keep reading.
pub fn response_carries_data(code: u16, line: &str) -> (r: bool)
    ensures
        r == carries_data(code, line@),
{
    if !(code >= 200 && code < 300) {
        return false;
    }
    if crate::text::ends_with(line, " OK") {
        proof {
            reveal_strlit(" OK");
            assert(" OK"@ =~= seq![' ', 'O', 'K']);
        }
        return false;
    }
    proof {
        reveal_strlit(" OK");
        assert(" OK"@ =~= seq![' ', 'O', 'K']);
    }
    let n = line.unicode_len();
    let sp = crate::text::find_char(line, ' ');
    proof {
        crate::text::lemma_first_index_of(line@, ' ');
    }
    sp < n && sp + 1 < n
}

/// Index of the line that terminates the data block: the first line at or
/// after `i` that is empty once its trailing whitespace is removed, or the
/// total number of lines when no such line exists.
pub open spec fn data_end_index(lines: Seq<Seq<char>>, i: int) -> int
    decreases lines.len() - i,
{
    if i < 0 || i >= lines.len() {
        lines.len() as int
    } else if trim_end_spec(lines[i]).len() == 0 {
        i
    } else {
        data_end_index(lines, i + 1)
    }
}

proof fn lemma_data_end_index(lines: Seq<Seq<char>>, from: int, i: int)
    requires
        0 <= from <= i <= lines.len(),
        forall|j: int| from <= j < i ==> trim_end_spec(#[trigger] lines[j]).len() > 0,
        i < lines.len() ==> trim_end_spec(lines[i]).len() == 0,
    ensures
        data_end_index(lines, from) == i,
    decreases i - from,
{
    if from < i {
        lemma_data_end_index(lines, from + 1, i);
    }
}

/// The data lines of an envelope, each with its trailing whitespace (in
/// particular the line terminator) removed.
pub open spec fn trimmed_lines(lines: Seq<Seq<char>>, from: int, to: int) -> Seq<Seq<char>> {
    Seq::new((to - from) as nat, |k: int| trim_end_spec(lines[from + k]))
}

/// Decodes one reply envelope from the received lines, exactly as they
/// came off the wire (line terminators included). The first line is the
/// status line; when it announces a data block, further lines up to the
/// first blank line form the block, the blank terminator itself being
/// discarded. Returns the decoded response and the number of lines
/// consumed.
pub fn decode_envelope(lines: &Vec<String>) -> (r: Result<(AmcpResponse, usize), AmcpError>)
    requires
        lines@.len() >= 1,
    ensures
        ({
            let lv = lines.deep_view();
            let sl = trim_spec(lv[0]);
            match r {
                Ok(p) => {
                    &&& valid_status_line(sl)
                    &&& p.0.code == code_of(sl)
                    &&& p.0.message@ == message_of(sl)
                    &&& if carries_data(p.0.code, sl) {
                        let end = data_end_index(lv, 1);
                        &&& p.1 == (if end < lv.len() {
                            end + 1
                        } else {
                            end
                        })
                        &&& (end <= 1 ==> p.0.data is None)
                        &&& (end > 1 ==> (p.0.data matches Some(d) && d@ == joined_lines(
                            trimmed_lines(lv, 1, end),
                            '\n',
                        )))
                    } else {
                        &&& p.1 == 1
                        &&& p.0.data is None
                    }
                },
                Err(e) => !valid_status_line(sl) && e matches AmcpError::Protocol(_),
            }
        }),
{
    let ghost lv = lines.deep_view();
    let first = crate::text::trim_ws(lines[0].as_str());
    proof {
        assert(lv[0] == lines@[0]@);
    }
    let (code, message) = match parse_response_line(first) {
        Ok(p) => p,
        Err(e) => {
            return Err(e);
        },
    };
    if !response_carries_data(code, first) {
        return Ok((AmcpResponse { code, message, data: None }, 1));
    }
    let mut data: Vec<String> = Vec::new();
    let mut i: usize = 1;
    let mut used: usize = lines.len();
    loop
        invariant
            lv == lines.deep_view(),
            1 <= i <= lv.len(),
            lv.len() == lines@.len(),
            lv.len() >= 1,
            data@.len() == i - 1,
            forall|j: int| 1 <= j < i ==> trim_end_spec(#[trigger] lv[j]).len() > 0,
            forall|k: int| 0 <= k < i - 1 ==> #[trigger] data@[k]@ == trim_end_spec(lv[1 + k]),
        ensures
            data@.len() == data_end_index(lv, 1) - 1,
            forall|k: int| 0 <= k < data@.len() ==> #[trigger] data@[k]@ == trim_end_spec(lv[1 + k]),
            used == (if data_end_index(lv, 1) < lv.len() {
                data_end_index(lv, 1) + 1
            } else {
                data_end_index(lv, 1)
            }),
        decreases lv.len() - i,
    {
        if i >= lines.len() {
            proof {
                lemma_data_end_index(lv, 1, i as int);
            }
            used = lines.len();
            break;
        }
        let t = crate::text::trim_end_ws(lines[i].as_str());
        proof {
            assert(lv[i as int] == lines@[i as int]@);
        }
        if t.unicode_len() == 0 {
            proof {
                lemma_data_end_index(lv, 1, i as int);
            }
            used = i + 1;
            break;
        }
        data.push(String::from_str(t));
        proof {
            assert(data@[i - 1]@ == trim_end_spec(lv[i as int]));
            assert(data.deep_view()[i - 1] == data@[i - 1]@);
        }
        i += 1;
    }
    let ghost end = data_end_index(lv, 1);
    if data.len() == 0 {
        return Ok((AmcpResponse { code, message, data: None }, used));
    }
    let joined = crate::text::join_with_newline(&data);
    proof {
        assert forall|k: int| 0 <= k < data@.len() implies data.deep_view()[k] == data@[k]@ by {}
        assert(data.deep_view() =~= trimmed_lines(lv, 1, end));
    }
    Ok((AmcpResponse { code, message, data: Some(joined) }, used))
}

/// The canonical text of a status line: the decimal code, then — when the
/// message is non-empty — one space and the message.
pub open spec fn status_line_spec(code: u16, message: Seq<char>) -> Seq<char> {
    if message.len() == 0 {
        dec_digits(code as nat)
    } else {
        dec_digits(code as nat) + seq![' '] + message
    }
}

/// Round-trip law: a status line whose code is written canonically (no
/// leading zeros) and which carries no lone trailing space re-appears
/// verbatim when the decoded code and message are encoded again. Replies
/// without a data block are therefore reproduced exactly by re-encoding.
pub proof fn lemma_status_line_round_trip(line: Seq<char>)
    requires
        valid_status_line(line),
        token_of(line) == dec_digits(code_of(line) as nat),
        first_index_of(line, ' ') < line.len() ==> message_of(line).len() > 0,
    ensures
        status_line_spec(code_of(line) as u16, message_of(line)) == line,
{
    crate::text::lemma_first_index_of(line, ' ');
    crate::text::lemma_dec_value_nonneg(token_of(line));
    let sp = first_index_of(line, ' ');
    let code = code_of(line) as u16;
    if sp == line.len() {
        assert(token_of(line) =~= line);
        assert(status_line_spec(code, message_of(line)) == dec_digits(code as nat));
    } else {
        let msg = message_of(line);
        assert(msg.len() > 0);
        assert(line[sp] == ' ');
        assert(status_line_spec(code, msg) =~= line) by {
            assert(dec_digits(code as nat) == line.take(sp));
            assert forall|i: int| 0 <= i < line.len() implies (line.take(sp) + seq![' ']
                + line.skip(sp + 1))[i] == line[i] by {
                if i < sp {
                } else if i == sp {
                } else {
                    assert(line.skip(sp + 1)[i - sp - 1] == line[i]);
                }
            }
        }
    }
}

/// Renders a status line from a code and message.
pub fn format_status_line(code: u16, message: &str) -> (r: String)
    ensures
        r@ == status_line_spec(code, message@),
{
    let mut s = crate::text::u16_to_string(code);
    if message.unicode_len() > 0 {
        s.append(" ");
        s.append(message);
        proof {
            reveal_strlit(" ");
            assert(s@ =~= status_line_spec(code, message@));
        }
    }
    s
}

} // verus!
