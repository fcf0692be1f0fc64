//! The character-level side of the XML configuration format: escaping
//! text for element content, undoing the five standard entities, and
//! splitting a document into markup tokens.

use vstd::prelude::*;
use vstd::string::*;

use crate::text::{is_ws_char, starts_with_at, starts_with_seq};

verus! {

/// The text of the `&amp;` entity.
pub open spec fn ent_amp() -> Seq<char> {
    seq!['&', 'a', 'm', 'p', ';']
}

/// The text of the `&lt;` entity.
pub open spec fn ent_lt() -> Seq<char> {
    seq!['&', 'l', 't', ';']
}

/// The text of the `&gt;` entity.
pub open spec fn ent_gt() -> Seq<char> {
    seq!['&', 'g', 't', ';']
}

/// The text of the `&apos;` entity.
pub open spec fn ent_apos() -> Seq<char> {
    seq!['&', 'a', 'p', 'o', 's', ';']
}

/// The text of the `&quot;` entity.
pub open spec fn ent_quot() -> Seq<char> {
    seq!['&', 'q', 'u', 'o', 't', ';']
}

/// The escaped form of one character of element text.
pub open spec fn escaped_char(c: char) -> Seq<char> {
    if c == '&' {
        ent_amp()
    } else if c == '<' {
        ent_lt()
    } else if c == '>' {
        ent_gt()
    } else if c == '\'' {
        ent_apos()
    } else if c == '"' {
        ent_quot()
    } else {
        seq![c]
    }
}

/// Element text with the five special characters written as entities.
pub open spec fn xml_escaped(s: Seq<char>) -> Seq<char>
    decreases s.len(),
{
    if s.len() == 0 {
        Seq::empty()
    } else {
        escaped_char(s[0]) + xml_escaped(s.skip(1))
    }
}

/// Element text with the five standard entities decoded; a lone `&` that
/// opens no known entity stands for itself.
pub open spec fn xml_unescaped(s: Seq<char>) -> Seq<char>
    decreases s.len(),
{
    if s.len() == 0 {
        Seq::empty()
    } else if starts_with_seq(s, ent_amp()) {
        seq!['&'] + xml_unescaped(s.skip(5))
    } else if starts_with_seq(s, ent_lt()) {
        seq!['<'] + xml_unescaped(s.skip(4))
    } else if starts_with_seq(s, ent_gt()) {
        seq!['>'] + xml_unescaped(s.skip(4))
    } else if starts_with_seq(s, ent_apos()) {
        seq!['\''] + xml_unescaped(s.skip(6))
    } else if starts_with_seq(s, ent_quot()) {
        seq!['"'] + xml_unescaped(s.skip(6))
    } else {
        seq![s[0]] + xml_unescaped(s.skip(1))
    }
}

/// Escaping is undone exactly by entity decoding: for every text,
/// decoding the escaped form gives the text back.
pub proof fn lemma_escape_round_trip(s: Seq<char>)
    ensures
        xml_unescaped(xml_escaped(s)) == s,
    decreases s.len(),
{
    if s.len() == 0 {
    } else {
        let c = s[0];
        let rest = xml_escaped(s.skip(1));
        let e = xml_escaped(s);
        lemma_escape_round_trip(s.skip(1));
        assert(e == escaped_char(c) + rest);
        if c == '&' {
            assert(starts_with_seq(e, ent_amp())) by {
                assert(e.take(5) =~= ent_amp());
            }
            assert(e.skip(5) =~= rest);
            assert(seq!['&'] + s.skip(1) =~= s);
        } else if c == '<' {
            assert(!starts_with_seq(e, ent_amp())) by {
                if starts_with_seq(e, ent_amp()) {
                    assert(e.take(5)[1] == e[1]);
                }
            }
            assert(starts_with_seq(e, ent_lt())) by {
                assert(e.take(4) =~= ent_lt());
            }
            assert(e.skip(4) =~= rest);
            assert(seq!['<'] + s.skip(1) =~= s);
        } else if c == '>' {
            assert(!starts_with_seq(e, ent_amp())) by {
                if starts_with_seq(e, ent_amp()) {
                    assert(e.take(5)[1] == e[1]);
                }
            }
            assert(!starts_with_seq(e, ent_lt())) by {
                if starts_with_seq(e, ent_lt()) {
                    assert(e.take(4)[1] == e[1]);
                }
            }
            assert(starts_with_seq(e, ent_gt())) by {
                assert(e.take(4) =~= ent_gt());
            }
            assert(e.skip(4) =~= rest);
            assert(seq!['>'] + s.skip(1) =~= s);
        } else if c == '\'' {
            assert(!starts_with_seq(e, ent_amp())) by {
                if starts_with_seq(e, ent_amp()) {
                    assert(e.take(5)[2] == e[2]);
                }
            }
            assert(!starts_with_seq(e, ent_lt())) by {
                if starts_with_seq(e, ent_lt()) {
                    assert(e.take(4)[1] == e[1]);
                }
            }
            assert(!starts_with_seq(e, ent_gt())) by {
                if starts_with_seq(e, ent_gt()) {
                    assert(e.take(4)[1] == e[1]);
                }
            }
            assert(starts_with_seq(e, ent_apos())) by {
                assert(e.take(6) =~= ent_apos());
            }
            assert(e.skip(6) =~= rest);
            assert(seq!['\''] + s.skip(1) =~= s);
        } else if c == '"' {
            assert(!starts_with_seq(e, ent_amp())) by {
                if starts_with_seq(e, ent_amp()) {
                    assert(e.take(5)[1] == e[1]);
                }
            }
            assert(!starts_with_seq(e, ent_lt())) by {
                if starts_with_seq(e, ent_lt()) {
                    assert(e.take(4)[1] == e[1]);
                }
            }
            assert(!starts_with_seq(e, ent_gt())) by {
                if starts_with_seq(e, ent_gt()) {
                    assert(e.take(4)[1] == e[1]);
                }
            }
            assert(!starts_with_seq(e, ent_apos())) by {
                if starts_with_seq(e, ent_apos()) {
                    assert(e.take(6)[1] == e[1]);
                }
            }
            assert(starts_with_seq(e, ent_quot())) by {
                assert(e.take(6) =~= ent_quot());
            }
            assert(e.skip(6) =~= rest);
            assert(seq!['"'] + s.skip(1) =~= s);
        } else {
            assert(e[0] == c);
            assert(!starts_with_seq(e, ent_amp())) by {
                if starts_with_seq(e, ent_amp()) {
                    assert(e.take(5)[0] == e[0]);
                }
            }
            assert(!starts_with_seq(e, ent_lt())) by {
                if starts_with_seq(e, ent_lt()) {
                    assert(e.take(4)[0] == e[0]);
                }
            }
            assert(!starts_with_seq(e, ent_gt())) by {
                if starts_with_seq(e, ent_gt()) {
                    assert(e.take(4)[0] == e[0]);
                }
            }
            assert(!starts_with_seq(e, ent_apos())) by {
                if starts_with_seq(e, ent_apos()) {
                    assert(e.take(6)[0] == e[0]);
                }
            }
            assert(!starts_with_seq(e, ent_quot())) by {
                if starts_with_seq(e, ent_quot()) {
                    assert(e.take(6)[0] == e[0]);
                }
            }
            assert(e.skip(1) =~= rest);
            assert(seq![c] + s.skip(1) =~= s);
        }
    }
}

/// Appends `s` to `out` with the five special characters escaped.
pub fn append_escaped(out: &mut String, s: &str)
    ensures
        final(out)@ == old(out)@ + xml_escaped(s@),
{
    let n = s.unicode_len();
    let mut i: usize = 0;
    proof {
        assert(s@.skip(0) =~= s@);
    }
    while i < n
        invariant
            0 <= i <= n,
            n == s@.len(),
            out@ + xml_escaped(s@.skip(i as int)) == old(out)@ + xml_escaped(s@),
        decreases n - i,
    {
        let c = s.get_char(i);
        proof {
            assert(s@.skip(i as int)[0] == s@[i as int]);
            assert(s@.skip(i as int).skip(1) =~= s@.skip(i + 1));
        }
        if c == '&' {
            out.append("&amp;");
            proof {
                reveal_strlit("&amp;");
                assert("&amp;"@ =~= ent_amp());
            }
        } else if c == '<' {
            out.append("&lt;");
            proof {
                reveal_strlit("&lt;");
                assert("&lt;"@ =~= ent_lt());
            }
        } else if c == '>' {
            out.append("&gt;");
            proof {
                reveal_strlit("&gt;");
                assert("&gt;"@ =~= ent_gt());
            }
        } else if c == '\'' {
            out.append("&apos;");
            proof {
                reveal_strlit("&apos;");
                assert("&apos;"@ =~= ent_apos());
            }
        } else if c == '"' {
            out.append("&quot;");
            proof {
                reveal_strlit("&quot;");
                assert("&quot;"@ =~= ent_quot());
            }
        } else {
            let piece = s.substring_char(i, i + 1);
            proof {
                assert(piece@ =~= seq![s@[i as int]]);
            }
            out.append(piece);
        }
        i += 1;
    }
    proof {
        assert(s@.skip(n as int) =~= Seq::<char>::empty());
        assert(xml_escaped(s@.skip(n as int)) =~= Seq::<char>::empty());
        assert(out@ =~= old(out)@ + xml_escaped(s@));
    }
}

/// Decodes the five standard entities in `s`.
pub fn unescape_text(s: &str) -> (r: String)
    ensures
        r@ == xml_unescaped(s@),
{
    let n = s.unicode_len();
    let mut out = String::new();
    let mut i: usize = 0;
    proof {
        assert(s@.skip(0) =~= s@);
    }
    while i < n
        invariant
            0 <= i <= n,
            n == s@.len(),
            out@ + xml_unescaped(s@.skip(i as int)) == xml_unescaped(s@),
        decreases n - i,
    {
        proof {
            assert(s@.skip(i as int)[0] == s@[i as int]);
        }
        if starts_with_at(s, "&amp;", i) {
            out.append("&");
            proof {
                reveal_strlit("&amp;");
                reveal_strlit("&");
                assert("&amp;"@ =~= ent_amp());
                assert(s@.skip(i as int).skip(5) =~= s@.skip(i + 5));
            }
            i += 5;
        } else if starts_with_at(s, "&lt;", i) {
            out.append("<");
            proof {
                reveal_strlit("&lt;");
                reveal_strlit("<");
                reveal_strlit("&amp;");
                assert("&amp;"@ =~= ent_amp());
                assert("&lt;"@ =~= ent_lt());
                assert(s@.skip(i as int).skip(4) =~= s@.skip(i + 4));
            }
            i += 4;
        } else if starts_with_at(s, "&gt;", i) {
            out.append(">");
            proof {
                reveal_strlit("&gt;");
                reveal_strlit(">");
                reveal_strlit("&amp;");
                reveal_strlit("&lt;");
                assert("&amp;"@ =~= ent_amp());
                assert("&lt;"@ =~= ent_lt());
                assert("&gt;"@ =~= ent_gt());
                assert(s@.skip(i as int).skip(4) =~= s@.skip(i + 4));
            }
            i += 4;
        } else if starts_with_at(s, "&apos;", i) {
            out.append("'");
            proof {
                reveal_strlit("&apos;");
                reveal_strlit("'");
                reveal_strlit("&amp;");
                reveal_strlit("&lt;");
                reveal_strlit("&gt;");
                assert("&amp;"@ =~= ent_amp());
                assert("&lt;"@ =~= ent_lt());
                assert("&gt;"@ =~= ent_gt());
                assert("&apos;"@ =~= ent_apos());
                assert(s@.skip(i as int).skip(6) =~= s@.skip(i + 6));
            }
            i += 6;
        } else if starts_with_at(s, "&quot;", i) {
            out.append("\"");
            proof {
                reveal_strlit("&quot;");
                reveal_strlit("\"");
                reveal_strlit("&amp;");
                reveal_strlit("&lt;");
                reveal_strlit("&gt;");
                reveal_strlit("&apos;");
                assert("&amp;"@ =~= ent_amp());
                assert("&lt;"@ =~= ent_lt());
                assert("&gt;"@ =~= ent_gt());
                assert("&apos;"@ =~= ent_apos());
                assert("&quot;"@ =~= ent_quot());
                assert(s@.skip(i as int).skip(6) =~= s@.skip(i + 6));
            }
            i += 6;
        } else {
            let piece = s.substring_char(i, i + 1);
            proof {
                reveal_strlit("&amp;");
                reveal_strlit("&lt;");
                reveal_strlit("&gt;");
                reveal_strlit("&apos;");
                reveal_strlit("&quot;");
                assert("&amp;"@ =~= ent_amp());
                assert("&lt;"@ =~= ent_lt());
                assert("&gt;"@ =~= ent_gt());
                assert("&apos;"@ =~= ent_apos());
                assert("&quot;"@ =~= ent_quot());
                assert(piece@ =~= seq![s@[i as int]]);
                assert(s@.skip(i as int).skip(1) =~= s@.skip(i + 1));
            }
            out.append(piece);
            i += 1;
        }
    }
    proof {
        assert(s@.skip(n as int) =~= Seq::<char>::empty());
        assert(out@ =~= xml_unescaped(s@));
    }
    out
}

/// One piece of XML markup: an opening tag, a closing tag, a
/// self-closing tag, or a run of (unescaped, trimmed) element text.
/// Declarations and comments are dropped during scanning, as are
/// whitespace-only text runs and all attributes.
#[derive(Debug, Clone)]
pub enum XmlToken {
    Start(String),
    End(String),
    Empty(String),
    Text(String),
}

/// A character that ends an element name.
pub open spec fn is_name_end(c: char) -> bool {
    is_ws_char(c) || c == '>' || c == '/'
}

fn name_end(s: &str, from: usize, to: usize) -> (r: usize)
    requires
        from <= to <= s@.len(),
    ensures
        from <= r <= to,
        forall|j: int| from <= j < r ==> !is_name_end(s@[j]),
        r < to ==> is_name_end(s@[r as int]),
{
    let mut i = from;
    while i < to
        invariant
            from <= i <= to,
            to <= s@.len(),
            forall|j: int| from <= j < i ==> !is_name_end(s@[j]),
        decreases to - i,
    {
        let c = s.get_char(i);
        if c == ' ' || c == '\t' || c == '\r' || c == '\n' || c == '>' || c == '/' {
            return i;
        }
        i += 1;
    }
    to
}

fn find_char_from(s: &str, c: char, from: usize) -> (r: Option<usize>)
    requires
        from <= s@.len(),
    ensures
        match r {
            Some(i) => from <= i < s@.len() && s@[i as int] == c && forall|j: int|
                from <= j < i ==> s@[j] != c,
            None => forall|j: int| from <= j < s@.len() ==> s@[j] != c,
        },
{
    let n = s.unicode_len();
    let mut i = from;
    while i < n
        invariant
            from <= i <= n,
            n == s@.len(),
            forall|j: int| from <= j < i ==> s@[j] != c,
        decreases n - i,
    {
        if s.get_char(i) == c {
            return Some(i);
        }
        i += 1;
    }
    None
}

/// Splits an XML document into markup tokens, dropping declarations,
/// comments, attributes and whitespace-only text. Fails on a `<` with no
/// closing `>` and on an element with no name.
pub(crate) fn tokenize_xml(xml: &str) -> (r: Result<Vec<XmlToken>, String>)
{
    let n = xml.unicode_len();
    let mut tokens: Vec<XmlToken> = Vec::new();
    let mut i: usize = 0;
    while i < n
        invariant
            0 <= i <= n,
            n == xml@.len(),
        decreases n - i,
    {
        if xml.get_char(i) == '<' {
            if i + 1 < n && xml.get_char(i + 1) == '?' {
                // declaration or processing instruction: skip to "?>"
                match crate::text::find_sub(xml, "?>", i) {
                    Some(j) => {
                        proof {
                            reveal_strlit("?>");
                        }
                        i = j + 2;
                    },
                    None => {
                        return Err(String::from_str("unterminated processing instruction"));
                    },
                }
            } else if i + 1 < n && xml.get_char(i + 1) == '!' {
                if starts_with_at(xml, "<!--", i) {
                    // comment: skip to "-->"
                    match crate::text::find_sub(xml, "-->", i) {
                        Some(j) => {
                            proof {
                                reveal_strlit("-->");
                            }
                            i = j + 3;
                        },
                        None => {
                            return Err(String::from_str("unterminated comment"));
                        },
                    }
                } else {
                    // another markup declaration: skip to '>'
                    match find_char_from(xml, '>', i) {
                        Some(j) => {
                            i = j + 1;
                        },
                        None => {
                            return Err(String::from_str("unterminated markup declaration"));
                        },
                    }
                }
            } else if i + 1 < n && xml.get_char(i + 1) == '/' {
                // closing tag
                match find_char_from(xml, '>', i) {
                    Some(j) => {
                        let raw = xml.substring_char(i + 2, j);
                        let name = crate::text::trim_ws(raw);
                        if name.unicode_len() == 0 {
                            return Err(String::from_str("closing tag with no name"));
                        }
                        tokens.push(XmlToken::End(String::from_str(name)));
                        i = j + 1;
                    },
                    None => {
                        return Err(String::from_str("unterminated closing tag"));
                    },
                }
            } else {
                // opening or self-closing tag
                match find_char_from(xml, '>', i) {
                    Some(j) => {
                        let ne = name_end(xml, i + 1, j);
                        if ne == i + 1 {
                            return Err(String::from_str("element with no name"));
                        }
                        let name = String::from_str(xml.substring_char(i + 1, ne));
                        if j > i + 1 && xml.get_char(j - 1) == '/' {
                            tokens.push(XmlToken::Empty(name));
                        } else {
                            tokens.push(XmlToken::Start(name));
                        }
                        i = j + 1;
                    },
                    None => {
                        return Err(String::from_str("unterminated tag"));
                    },
                }
            }
        } else {
            // text run up to the next '<' or the end of input
            let j = match find_char_from(xml, '<', i) {
                Some(j) => j,
                None => n,
            };
            let raw = xml.substring_char(i, j);
            let trimmed = crate::text::trim_ws(raw);
            if trimmed.unicode_len() > 0 {
                tokens.push(XmlToken::Text(unescape_text(trimmed)));
            }
            i = if j > i {
                j
            } else {
                i + 1
            };
        }
    }
    Ok(tokens)
}

} // verus!
