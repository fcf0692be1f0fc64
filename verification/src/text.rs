//! Verified text utilities shared by the protocol codec and the
//! configuration model: whitespace trimming, decimal parsing and
//! formatting, substring search and case-insensitive comparison.

use vstd::prelude::*;
use vstd::string::*;

verus! {

/// The whitespace characters this crate trims: ASCII space, tab and the
/// line-terminator characters.
pub open spec fn is_ws_char(c: char) -> bool {
    c == ' ' || c == '\t' || c == '\r' || c == '\n'
}

pub open spec fn is_digit_char(c: char) -> bool {
    48 <= c as int <= 57
}

pub open spec fn digit_val(c: char) -> int {
    c as int - 48
}

/// Numeric value of a string of decimal digits, most significant first.
pub open spec fn dec_value(s: Seq<char>) -> int
    decreases s.len(),
{
    if s.len() == 0 {
        0
    } else {
        10 * dec_value(s.drop_last()) + digit_val(s.last())
    }
}

pub open spec fn all_digits(s: Seq<char>) -> bool {
    forall|i: int| 0 <= i < s.len() ==> is_digit_char(#[trigger] s[i])
}

pub proof fn lemma_dec_value_nonneg(s: Seq<char>)
    requires
        all_digits(s),
    ensures
        dec_value(s) >= 0,
    decreases s.len(),
{
    if s.len() > 0 {
        assert(all_digits(s.drop_last()));
        lemma_dec_value_nonneg(s.drop_last());
    }
}

/// The value of a prefix of a digit string never exceeds the value of the
/// whole string.
pub proof fn lemma_dec_value_take_le(s: Seq<char>, i: int)
    requires
        all_digits(s),
        0 <= i <= s.len(),
    ensures
        dec_value(s.take(i)) <= dec_value(s),
    decreases s.len() - i,
{
    if i == s.len() {
        assert(s.take(i) =~= s);
    } else {
        assert(s.take(i + 1).drop_last() =~= s.take(i));
        assert(s.take(i + 1).last() == s[i]);
        assert(all_digits(s.take(i)));
        lemma_dec_value_nonneg(s.take(i));
        lemma_dec_value_take_le(s, i + 1);
    }
}

/// Parses a string of decimal digits. Returns the value exactly when the
/// string is non-empty, all digits, and the value fits in a `u32`.
pub fn parse_dec_u32(s: &str) -> (r: Option<u32>)
    ensures
        r is Some <==> s@.len() > 0 && all_digits(s@) && dec_value(s@) <= u32::MAX,
        r is Some ==> r.unwrap() == dec_value(s@),
{
    let n = s.unicode_len();
    if n == 0 {
        return None;
    }
    let mut acc: u64 = 0;
    let mut i: usize = 0;
    while i < n
        invariant
            0 <= i <= n,
            n == s@.len(),
            all_digits(s@.take(i as int)),
            acc == dec_value(s@.take(i as int)),
            acc <= u32::MAX,
        decreases n - i,
    {
        let c = s.get_char(i);
        let x = c as u32;
        if x < 48 || x > 57 {
            assert(!is_digit_char(s@[i as int]));
            return None;
        }
        let d = (x - 48) as u64;
        let next = acc * 10 + d;
        proof {
            assert(s@.take(i + 1).drop_last() =~= s@.take(i as int));
            assert(s@.take(i + 1).last() == s@[i as int]);
        }
        if next > 0xffff_ffff {
            proof {
                if all_digits(s@) {
                    lemma_dec_value_take_le(s@, i + 1);
                }
            }
            return None;
        }
        acc = next;
        i += 1;
    }
    proof {
        assert(s@.take(n as int) =~= s@);
    }
    Some(acc as u32)
}

/// Parses a string of decimal digits into a `u16`.
pub fn parse_dec_u16(s: &str) -> (r: Option<u16>)
    ensures
        r is Some <==> s@.len() > 0 && all_digits(s@) && dec_value(s@) <= u16::MAX,
        r is Some ==> r.unwrap() == dec_value(s@),
{
    match parse_dec_u32(s) {
        Some(v) => {
            if v <= 0xffff {
                Some(v as u16)
            } else {
                None
            }
        },
        None => None,
    }
}

/// `s` parses as a decimal `u32`: non-empty, all digits, in range.
pub open spec fn parses_u32(s: Seq<char>) -> bool {
    s.len() > 0 && all_digits(s) && dec_value(s) <= u32::MAX
}

/// The `u32` value of `s`, or the default when `s` does not parse.
pub open spec fn parsed_u32_or(s: Seq<char>, dflt: u32) -> u32 {
    if parses_u32(s) {
        dec_value(s) as u32
    } else {
        dflt
    }
}

/// `s` parses as a decimal `i32`: an optional leading minus sign, then
/// digits, within `i32` range.
pub open spec fn parses_i32(s: Seq<char>) -> bool {
    if s.len() > 0 && s[0] == '-' {
        s.skip(1).len() > 0 && all_digits(s.skip(1)) && dec_value(s.skip(1)) <= 0x8000_0000
    } else {
        s.len() > 0 && all_digits(s) && dec_value(s) <= i32::MAX
    }
}

/// The numeric value of a decimal `i32` string.
pub open spec fn parsed_i32(s: Seq<char>) -> int {
    if s.len() > 0 && s[0] == '-' {
        -dec_value(s.skip(1))
    } else {
        dec_value(s)
    }
}

/// Parses an optionally signed decimal `i32`.
pub fn parse_dec_i32(s: &str) -> (r: Option<i32>)
    ensures
        r is Some <==> parses_i32(s@),
        r is Some ==> r.unwrap() == parsed_i32(s@),
{
    let n = s.unicode_len();
    if n == 0 {
        return None;
    }
    if s.get_char(0) == '-' {
        let tail = s.substring_char(1, n);
        proof {
            assert(tail@ =~= s@.skip(1));
        }
        match parse_dec_u32(tail) {
            Some(v) => {
                if v <= 0x8000_0000 {
                    proof {
                        lemma_dec_value_nonneg(s@.skip(1));
                    }
                    let neg: i32 = if v == 0x8000_0000 {
                        i32::MIN
                    } else {
                        -(v as i32)
                    };
                    Some(neg)
                } else {
                    None
                }
            },
            None => None,
        }
    } else {
        match parse_dec_u32(s) {
            Some(v) => {
                if v <= 0x7fff_ffff {
                    Some(v as i32)
                } else {
                    None
                }
            },
            None => None,
        }
    }
}

pub open spec fn digit_char(d: int) -> char {
    if d == 0 {
        '0'
    } else if d == 1 {
        '1'
    } else if d == 2 {
        '2'
    } else if d == 3 {
        '3'
    } else if d == 4 {
        '4'
    } else if d == 5 {
        '5'
    } else if d == 6 {
        '6'
    } else if d == 7 {
        '7'
    } else if d == 8 {
        '8'
    } else {
        '9'
    }
}

/// Decimal representation of a natural number, most significant digit
/// first, with no leading zeros.
pub open spec fn dec_digits(n: nat) -> Seq<char>
    decreases n,
{
    if n <= 9 {
        seq![digit_char(n as int)]
    } else {
        dec_digits(n / 10) + seq![digit_char((n % 10) as int)]
    }
}

fn digit_str(d: u32) -> (r: &'static str)
    requires
        d <= 9,
    ensures
        r@ == seq![digit_char(d as int)],
{
    let r: &'static str = if d == 0 {
        "0"
    } else if d == 1 {
        "1"
    } else if d == 2 {
        "2"
    } else if d == 3 {
        "3"
    } else if d == 4 {
        "4"
    } else if d == 5 {
        "5"
    } else if d == 6 {
        "6"
    } else if d == 7 {
        "7"
    } else if d == 8 {
        "8"
    } else {
        "9"
    };
    proof {
        reveal_strlit("0");
        reveal_strlit("1");
        reveal_strlit("2");
        reveal_strlit("3");
        reveal_strlit("4");
        reveal_strlit("5");
        reveal_strlit("6");
        reveal_strlit("7");
        reveal_strlit("8");
        reveal_strlit("9");
        assert(r@ =~= seq![digit_char(d as int)]);
    }
    r
}

/// Formats a `u32` in decimal.
pub fn u32_to_string(n: u32) -> (r: String)
    ensures
        r@ == dec_digits(n as nat),
    decreases n,
{
    if n <= 9 {
        String::from_str(digit_str(n))
    } else {
        let mut s = u32_to_string(n / 10);
        s.append(digit_str(n % 10));
        s
    }
}

/// Formats a `u16` in decimal.
pub fn u16_to_string(n: u16) -> (r: String)
    ensures
        r@ == dec_digits(n as nat),
{
    u32_to_string(n as u32)
}

/// Decimal representation of an integer, with a leading minus sign when
/// negative.
pub open spec fn int_digits(v: int) -> Seq<char> {
    if v < 0 {
        seq!['-'] + dec_digits((-v) as nat)
    } else {
        dec_digits(v as nat)
    }
}

/// Formats an `i32` in decimal.
pub fn i32_to_string(n: i32) -> (r: String)
    ensures
        r@ == int_digits(n as int),
{
    if n < 0 {
        let mag = -(n as i64);
        let mut s = String::from_str("-");
        let d = u32_to_string(mag as u32);
        s.append(d.as_str());
        proof {
            reveal_strlit("-");
            assert(s@ =~= int_digits(n as int));
        }
        s
    } else {
        u32_to_string(n as u32)
    }
}

/// The given string with trailing whitespace removed.
pub open spec fn trim_end_spec(s: Seq<char>) -> Seq<char>
    decreases s.len(),
{
    if s.len() > 0 && is_ws_char(s.last()) {
        trim_end_spec(s.drop_last())
    } else {
        s
    }
}

/// The given string with leading whitespace removed.
pub open spec fn trim_start_spec(s: Seq<char>) -> Seq<char>
    decreases s.len(),
{
    if s.len() > 0 && is_ws_char(s[0]) {
        trim_start_spec(s.skip(1))
    } else {
        s
    }
}

/// The given string with both leading and trailing whitespace removed.
pub open spec fn trim_spec(s: Seq<char>) -> Seq<char> {
    trim_start_spec(trim_end_spec(s))
}

/// Removes trailing whitespace.
pub fn trim_end_ws<'a>(s: &'a str) -> (r: &'a str)
    ensures
        r@ == trim_end_spec(s@),
{
    let n = s.unicode_len();
    let mut end = n;
    proof {
        assert(s@.take(n as int) =~= s@);
    }
    loop
        invariant
            0 <= end <= n,
            n == s@.len(),
            trim_end_spec(s@) == trim_end_spec(s@.take(end as int)),
        ensures
            0 <= end <= n,
            trim_end_spec(s@) == s@.take(end as int),
        decreases end,
    {
        if end == 0 {
            proof {
                assert(s@.take(0) =~= Seq::<char>::empty());
            }
            break;
        }
        let c = s.get_char(end - 1);
        proof {
            assert(s@.take(end as int).last() == s@[end - 1]);
        }
        if !(c == ' ' || c == '\t' || c == '\r' || c == '\n') {
            break;
        }
        proof {
            assert(s@.take(end as int).drop_last() =~= s@.take(end - 1));
        }
        end -= 1;
    }
    s.substring_char(0, end)
}

/// Removes leading and trailing whitespace.
pub fn trim_ws<'a>(s: &'a str) -> (r: &'a str)
    ensures
        r@ == trim_spec(s@),
{
    let t = trim_end_ws(s);
    let n = t.unicode_len();
    let mut start: usize = 0;
    proof {
        assert(t@.skip(0) =~= t@);
    }
    loop
        invariant
            0 <= start <= n,
            n == t@.len(),
            trim_start_spec(t@) == trim_start_spec(t@.skip(start as int)),
        ensures
            0 <= start <= n,
            trim_start_spec(t@) == t@.skip(start as int),
        decreases n - start,
    {
        if start == n {
            proof {
                assert(t@.skip(start as int) =~= Seq::<char>::empty());
            }
            break;
        }
        let c = t.get_char(start);
        proof {
            assert(t@.skip(start as int)[0] == t@[start as int]);
        }
        if !(c == ' ' || c == '\t' || c == '\r' || c == '\n') {
            break;
        }
        proof {
            assert(t@.skip(start as int).skip(1) =~= t@.skip(start + 1));
        }
        start += 1;
    }
    proof {
        assert(t@.skip(start as int) =~= t@.subrange(start as int, n as int));
    }
    t.substring_char(start, n)
}

/// Index of the first occurrence of `c` in `s`, or `s.len()` if absent.
pub open spec fn first_index_of(s: Seq<char>, c: char) -> int
    decreases s.len(),
{
    if s.len() == 0 {
        0
    } else if s[0] == c {
        0
    } else {
        1 + first_index_of(s.skip(1), c)
    }
}

pub proof fn lemma_first_index_of(s: Seq<char>, c: char)
    ensures
        0 <= first_index_of(s, c) <= s.len(),
        first_index_of(s, c) < s.len() ==> s[first_index_of(s, c)] == c,
        forall|j: int| 0 <= j < first_index_of(s, c) ==> s[j] != c,
    decreases s.len(),
{
    if s.len() > 0 && s[0] != c {
        lemma_first_index_of(s.skip(1), c);
        assert forall|j: int| 0 <= j < first_index_of(s, c) implies s[j] != c by {
            if j > 0 {
                assert(s.skip(1)[j - 1] == s[j]);
            }
        }
    }
}

/// Finds the first occurrence of `c` in `s`.
pub fn find_char(s: &str, c: char) -> (r: usize)
    ensures
        r == first_index_of(s@, c),
{
    let n = s.unicode_len();
    let mut i: usize = 0;
    while i < n
        invariant
            0 <= i <= n,
            n == s@.len(),
            forall|j: int| 0 <= j < i ==> s@[j] != c,
        decreases n - i,
    {
        if s.get_char(i) == c {
            proof {
                lemma_first_index_of(s@, c);
            }
            return i;
        }
        i += 1;
    }
    proof {
        lemma_first_index_of(s@, c);
    }
    n
}

/// `pat` occurs in `s` starting at index `i`.
pub open spec fn matches_at(s: Seq<char>, pat: Seq<char>, i: int) -> bool {
    0 <= i && i + pat.len() <= s.len() && s.subrange(i, i + pat.len()) == pat
}

pub open spec fn contains_seq(s: Seq<char>, pat: Seq<char>) -> bool {
    exists|i: int| matches_at(s, pat, i)
}

fn matches_at_exec(s: &str, pat: &str, i: usize) -> (r: bool)
    requires
        i + pat@.len() <= s@.len(),
    ensures
        r == matches_at(s@, pat@, i as int),
{
    let n = s.unicode_len();
    let m = pat.unicode_len();
    let mut k: usize = 0;
    while k < m
        invariant
            0 <= k <= m,
            n == s@.len(),
            m == pat@.len(),
            i + m <= n,
            forall|j: int| 0 <= j < k ==> s@[i + j] == pat@[j],
        decreases m - k,
    {
        if s.get_char(i + k) != pat.get_char(k) {
            assert(s@.subrange(i as int, i + pat@.len()) != pat@) by {
                assert(s@.subrange(i as int, i + pat@.len())[k as int] == s@[i + k]);
            }
            return false;
        }
        k += 1;
    }
    proof {
        assert(s@.subrange(i as int, i + pat@.len()) =~= pat@);
    }
    true
}

/// Finds the first occurrence of `pat` in `s` at or after `from`.
pub fn find_sub(s: &str, pat: &str, from: usize) -> (r: Option<usize>)
    requires
        from <= s@.len(),
    ensures
        match r {
            Some(i) => from <= i && matches_at(s@, pat@, i as int) && forall|j: int|
                from <= j < i ==> !matches_at(s@, pat@, j),
            None => forall|j: int| from <= j ==> !matches_at(s@, pat@, j),
        },
{
    let n = s.unicode_len();
    let m = pat.unicode_len();
    if m == 0 {
        proof {
            assert(s@.subrange(from as int, from as int) =~= pat@);
        }
        return Some(from);
    }
    if m > n || from > n - m {
        proof {
            assert forall|j: int| from <= j implies !matches_at(s@, pat@, j) by {}
        }
        return None;
    }
    let mut i = from;
    while i <= n - m
        invariant
            from <= i,
            1 <= m <= n,
            from <= n - m,
            n == s@.len(),
            m == pat@.len(),
            forall|j: int| from <= j < i ==> !matches_at(s@, pat@, j),
        decreases n - i,
    {
        if matches_at_exec(s, pat, i) {
            return Some(i);
        }
        i += 1;
    }
    proof {
        assert forall|j: int| from <= j implies !matches_at(s@, pat@, j) by {}
    }
    None
}

/// `s` begins with `p`.
pub open spec fn starts_with_seq(s: Seq<char>, p: Seq<char>) -> bool {
    p.len() <= s.len() && s.take(p.len() as int) == p
}

/// Whether `s` begins with `p` at offset `i`.
pub fn starts_with_at(s: &str, p: &str, i: usize) -> (r: bool)
    requires
        i <= s@.len(),
    ensures
        r == starts_with_seq(s@.skip(i as int), p@),
{
    let n = s.unicode_len();
    let m = p.unicode_len();
    if m > n - i {
        return false;
    }
    let r = matches_at_exec(s, p, i);
    proof {
        assert(s@.subrange(i as int, i + p@.len()) =~= s@.skip(i as int).take(p@.len() as int));
    }
    r
}

/// Index of the first occurrence of `pat` in `s` at or after `from`, or
/// `s.len() + 1` when there is none.
pub open spec fn first_match_index(s: Seq<char>, pat: Seq<char>, from: int) -> int
    decreases s.len() - from + 1,
{
    if from < 0 || from > s.len() {
        s.len() as int + 1
    } else if matches_at(s, pat, from) {
        from
    } else {
        first_match_index(s, pat, from + 1)
    }
}

pub proof fn lemma_first_match_index(s: Seq<char>, pat: Seq<char>, from: int)
    requires
        0 <= from <= s.len(),
    ensures
        from <= first_match_index(s, pat, from),
        first_match_index(s, pat, from) <= s.len() ==> matches_at(
            s,
            pat,
            first_match_index(s, pat, from),
        ),
        forall|j: int| from <= j < first_match_index(s, pat, from) ==> !matches_at(s, pat, j),
        first_match_index(s, pat, from) == s.len() + 1 ==> forall|j: int|
            from <= j ==> !matches_at(s, pat, j),
    decreases s.len() - from,
{
    if !matches_at(s, pat, from) {
        if from < s.len() {
            lemma_first_match_index(s, pat, from + 1);
        } else {
            assert(first_match_index(s, pat, from + 1) == s.len() + 1);
            assert(first_match_index(s, pat, from) == s.len() + 1);
        }
    }
}

/// Whether `s` contains `pat`.
pub fn contains_sub(s: &str, pat: &str) -> (r: bool)
    ensures
        r == contains_seq(s@, pat@),
{
    match find_sub(s, pat, 0) {
        Some(_) => true,
        None => {
            proof {
                assert forall|i: int| !matches_at(s@, pat@, i) by {}
            }
            false
        },
    }
}

/// `s` ends with `suf`.
pub open spec fn ends_with_seq(s: Seq<char>, suf: Seq<char>) -> bool {
    suf.len() <= s.len() && s.subrange(s.len() - suf.len(), s.len() as int) == suf
}

pub fn ends_with(s: &str, suf: &str) -> (r: bool)
    ensures
        r == ends_with_seq(s@, suf@),
{
    let n = s.unicode_len();
    let m = suf.unicode_len();
    if m > n {
        return false;
    }
    matches_at_exec(s, suf, n - m)
}

/// Character-for-character string equality.
pub fn str_eq(a: &str, b: &str) -> (r: bool)
    ensures
        r == (a@ == b@),
{
    let n = a.unicode_len();
    if n != b.unicode_len() {
        return false;
    }
    let mut i: usize = 0;
    while i < n
        invariant
            0 <= i <= n,
            n == a@.len(),
            n == b@.len(),
            forall|j: int| 0 <= j < i ==> a@[j] == b@[j],
        decreases n - i,
    {
        if a.get_char(i) != b.get_char(i) {
            return false;
        }
        i += 1;
    }
    proof {
        assert(a@ =~= b@);
    }
    true
}

/// Code point of `c` with ASCII letters folded to lower case.
pub open spec fn lower_code(c: char) -> int {
    if 65 <= c as int <= 90 {
        c as int + 32
    } else {
        c as int
    }
}

/// Equality up to ASCII case.
pub open spec fn seq_ieq(a: Seq<char>, b: Seq<char>) -> bool {
    a.len() == b.len() && forall|i: int| 0 <= i < a.len() ==> lower_code(#[trigger] a[i]) == lower_code(b[i])
}

/// Compares two strings ignoring ASCII case.
pub fn str_ieq(a: &str, b: &str) -> (r: bool)
    ensures
        r == seq_ieq(a@, b@),
{
    let n = a.unicode_len();
    if n != b.unicode_len() {
        return false;
    }
    let mut i: usize = 0;
    while i < n
        invariant
            0 <= i <= n,
            n == a@.len(),
            n == b@.len(),
            forall|j: int| 0 <= j < i ==> lower_code(a@[j]) == lower_code(b@[j]),
        decreases n - i,
    {
        let x = a.get_char(i) as u32;
        let y = b.get_char(i) as u32;
        let xl = if 65 <= x && x <= 90 {
            x + 32
        } else {
            x
        };
        let yl = if 65 <= y && y <= 90 {
            y + 32
        } else {
            y
        };
        if xl != yl {
            return false;
        }
        i += 1;
    }
    true
}

/// `lines` joined by the separator character.
pub open spec fn joined_lines(lines: Seq<Seq<char>>, sep: char) -> Seq<char>
    decreases lines.len(),
{
    if lines.len() == 0 {
        Seq::empty()
    } else if lines.len() == 1 {
        lines[0]
    } else {
        joined_lines(lines.drop_last(), sep) + seq![sep] + lines.last()
    }
}

/// Joins the lines with a single `\n` between each pair.
pub fn join_with_newline(lines: &Vec<String>) -> (r: String)
    ensures
        r@ == joined_lines(lines.deep_view(), '\n'),
{
    let mut r = String::new();
    let mut i: usize = 0;
    while i < lines.len()
        invariant
            0 <= i <= lines@.len(),
            lines.deep_view().len() == lines@.len(),
            r@ == joined_lines(lines.deep_view().take(i as int), '\n'),
        decreases lines@.len() - i,
    {
        if i > 0 {
            r.append("\n");
            proof {
                reveal_strlit("\n");
            }
        }
        r.append(lines[i].as_str());
        proof {
            let lv = lines.deep_view();
            assert(lv[i as int] == lines@[i as int]@);
            assert(lv.take(i + 1).drop_last() =~= lv.take(i as int));
            assert(lv.take(i + 1).last() == lv[i as int]);
            if i == 0 {
                assert(r@ =~= joined_lines(lv.take(1), '\n'));
            } else {
                assert(r@ =~= joined_lines(lv.take(i + 1), '\n'));
            }
        }
        i += 1;
    }
    proof {
        assert(lines.deep_view().take(lines@.len() as int) =~= lines.deep_view());
    }
    r
}

} // verus!
