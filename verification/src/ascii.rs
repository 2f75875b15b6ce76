//! Escape-aware text handling for ASCII-mode messages.
//!
//! An ASCII-mode message is one or more units: an escaped backslash
//! (`\\`), a three-character backslash-hex escape (`\xx`), or a single
//! printable character.  A HEX-mode message is one or more pairs of
//! hexadecimal digits.  This module holds the grammars of both forms,
//! the escape-aware tokenizer, the display mapping of control-code
//! escapes, and the conversion of message heads to wire bytes.

use vstd::prelude::*;
use crate::strutil::char_string;
use crate::strutil::push_char;
use crate::strutil::str_eq;
use crate::strutil::str_starts_with;
use vstd::string::StrSliceExecFns;
use vstd::string::StringExecFns;

verus! {

/// A hexadecimal digit, either case.
pub open spec fn is_hex_digit(c: char) -> bool {
    ('0' <= c && c <= '9') || ('a' <= c && c <= 'f') || ('A' <= c && c <= 'F')
}

/// The value of a hexadecimal digit.
pub open spec fn hex_val(c: char) -> u8
    recommends
        is_hex_digit(c),
{
    if '0' <= c && c <= '9' {
        ((c as int) - 48) as u8
    } else if 'a' <= c && c <= 'f' {
        ((c as int) - 97 + 10) as u8
    } else {
        ((c as int) - 65 + 10) as u8
    }
}

/// Executable hexadecimal digit test.
pub fn hex_digit(c: char) -> (r: bool)
    ensures
        r == is_hex_digit(c),
{
    ('0' <= c && c <= '9') || ('a' <= c && c <= 'f') || ('A' <= c && c <= 'F')
}

/// Executable hexadecimal digit value.
pub fn hex_digit_val(c: char) -> (r: u8)
    requires
        is_hex_digit(c),
    ensures
        r == hex_val(c),
        r < 16,
{
    let v = c as u32;
    if 48 <= v && v <= 57 {
        (v - 48) as u8
    } else if 97 <= v && v <= 102 {
        (v - 97 + 10) as u8
    } else {
        (v - 65 + 10) as u8
    }
}

/// The uppercase digit character of a value below sixteen.
pub open spec fn hex_digit_char(v: u8) -> char
    recommends
        v < 16,
{
    if v < 10 {
        (v + 48) as char
    } else {
        (v + 55) as char
    }
}

/// Executable uppercase digit character.
pub fn hex_digit_to_char(v: u8) -> (r: char)
    requires
        v < 16,
    ensures
        r == hex_digit_char(v),
{
    if v < 10 {
        (v + 48) as char
    } else {
        (v + 55) as char
    }
}

/// A character an ASCII-mode message may hold unescaped: printable,
/// space included, but not the backslash.
pub open spec fn is_plain(c: char) -> bool {
    ' ' <= c && c <= '~' && c != '\\'
}

/// The body of the ASCII-mode grammar: a sequence of escaped
/// backslashes, backslash-hex escapes and plain characters.
pub open spec fn valid_ascii_tail(s: Seq<char>) -> bool
    decreases s.len(),
{
    if s.len() == 0 {
        true
    } else if s[0] == '\\' {
        if s.len() >= 2 && s[1] == '\\' {
            valid_ascii_tail(s.skip(2))
        } else {
            s.len() >= 3 && is_hex_digit(s[1]) && is_hex_digit(s[2]) && valid_ascii_tail(
                s.skip(3),
            )
        }
    } else {
        is_plain(s[0]) && valid_ascii_tail(s.skip(1))
    }
}

/// A valid ASCII-mode message: at least one unit of the grammar.
pub open spec fn valid_ascii_msg(s: Seq<char>) -> bool {
    s.len() > 0 && valid_ascii_tail(s)
}

/// The body of the HEX-mode grammar: pairs of hexadecimal digits.
pub open spec fn valid_hex_tail(s: Seq<char>) -> bool
    decreases s.len(),
{
    if s.len() == 0 {
        true
    } else {
        s.len() >= 2 && is_hex_digit(s[0]) && is_hex_digit(s[1]) && valid_hex_tail(
            s.skip(2),
        )
    }
}

/// A valid HEX-mode message: at least one pair of hexadecimal digits.
pub open spec fn valid_hex_msg(s: Seq<char>) -> bool {
    s.len() > 0 && valid_hex_tail(s)
}

/// A positive decimal integer without leading zeros.
pub open spec fn valid_int(s: Seq<char>) -> bool {
    s.len() > 0 && '1' <= s[0] && s[0] <= '9' && forall|i: int|
        1 <= i < s.len() ==> '0' <= #[trigger] s[i] && s[i] <= '9'
}

/// Executable check of the ASCII-mode message grammar.
pub fn check_ascii_msg(s: &str) -> (r: bool)
    ensures
        r == valid_ascii_msg(s@),
{
    let n = s.unicode_len();
    if n == 0 {
        return false;
    }
    let mut i: usize = 0;
    proof {
        assert(s@.skip(0) =~= s@);
    }
    while i < n
        invariant
            0 <= i <= n,
            n == s@.len(),
            valid_ascii_tail(s@) == valid_ascii_tail(s@.skip(i as int)),
        decreases n - i,
    {
        let ghost rest = s@.skip(i as int);
        proof {
            assert(rest[0] == s@[i as int]);
        }
        let c = s.get_char(i);
        if c == '\\' {
            if n - i >= 2 && s.get_char(i + 1) == '\\' {
                proof {
                    assert(rest.len() >= 2 && rest[1] == s@[i + 1]);
                    assert(rest.skip(2) =~= s@.skip(i + 2));
                }
                i += 2;
            } else if n - i >= 3 && hex_digit(s.get_char(i + 1)) && hex_digit(
                s.get_char(i + 2),
            ) {
                proof {
                    assert(rest.len() >= 3);
                    assert(rest[1] == s@[i + 1] && rest[2] == s@[i + 2]);
                    assert(rest.skip(3) =~= s@.skip(i + 3));
                }
                i += 3;
            } else {
                proof {
                    if rest.len() >= 2 && rest[1] == '\\' {
                        assert(i + 1 < n && s@[i + 1] == '\\');
                    }
                    if rest.len() >= 3 && is_hex_digit(rest[1]) && is_hex_digit(rest[2]) {
                        assert(i + 2 < n);
                    }
                    assert(!valid_ascii_tail(rest));
                }
                return false;
            }
        } else if ' ' <= c && c <= '~' {
            proof {
                assert(rest.skip(1) =~= s@.skip(i + 1));
            }
            i += 1;
        } else {
            proof {
                assert(!is_plain(rest[0]));
                assert(!valid_ascii_tail(rest));
            }
            return false;
        }
    }
    proof {
        assert(s@.skip(n as int) =~= Seq::<char>::empty());
        assert(valid_ascii_tail(s@.skip(n as int)));
    }
    true
}

/// Executable check of the HEX-mode message grammar.
pub fn check_hex_msg(s: &str) -> (r: bool)
    ensures
        r == valid_hex_msg(s@),
{
    let n = s.unicode_len();
    if n == 0 {
        return false;
    }
    let mut i: usize = 0;
    proof {
        assert(s@.skip(0) =~= s@);
    }
    while i < n
        invariant
            0 <= i <= n,
            n == s@.len(),
            valid_hex_tail(s@) == valid_hex_tail(s@.skip(i as int)),
        decreases n - i,
    {
        let ghost rest = s@.skip(i as int);
        proof {
            assert(rest[0] == s@[i as int]);
        }
        if n - i >= 2 && hex_digit(s.get_char(i)) && hex_digit(s.get_char(i + 1)) {
            proof {
                assert(rest.len() >= 2 && rest[1] == s@[i + 1]);
                assert(rest.skip(2) =~= s@.skip(i + 2));
            }
            i += 2;
        } else {
            proof {
                if rest.len() >= 2 {
                    assert(i + 1 < n);
                }
                assert(!valid_hex_tail(rest));
            }
            return false;
        }
    }
    proof {
        assert(s@.skip(n as int) =~= Seq::<char>::empty());
    }
    true
}

/// A checksum flag character: copy-as-text, invert, rotate or negate.
pub open spec fn is_sum_flag(c: char) -> bool {
    c == 'c' || c == 'i' || c == 'r' || c == 'n'
}

/// A checksum request: `crc16` or `sum8`, optionally followed by a dash
/// and one or more flag characters.
pub open spec fn valid_sum_request(s: Seq<char>) -> bool {
    ||| s == "crc16"@
    ||| s == "sum8"@
    ||| (s.len() > 6 && s.take(6) == "crc16-"@ && (forall|i: int|
        6 <= i < s.len() ==> is_sum_flag(#[trigger] s[i])))
    ||| (s.len() > 5 && s.take(5) == "sum8-"@ && (forall|i: int|
        5 <= i < s.len() ==> is_sum_flag(#[trigger] s[i])))
}

/// Executable check of a checksum request.
pub fn check_sum_request(s: &str) -> (r: bool)
    ensures
        r == valid_sum_request(s@),
{
    proof {
        reveal_strlit("crc16");
        reveal_strlit("sum8");
        reveal_strlit("crc16-");
        reveal_strlit("sum8-");
    }
    if str_eq(s, "crc16") || str_eq(s, "sum8") {
        return true;
    }
    let n = s.unicode_len();
    let start: usize = if str_starts_with(s, "crc16-") {
        6
    } else if str_starts_with(s, "sum8-") {
        5
    } else {
        proof {
            assert(!valid_sum_request(s@));
        }
        return false;
    };
    if n <= start {
        proof {
            if start == 6 && s@.len() > 5 && s@.take(5) == "sum8-"@ {
                assert(s@.take(6)[4] == s@[4]);
                assert(s@.take(5)[4] == s@[4]);
                assert(false);
            }
            assert(!valid_sum_request(s@));
        }
        return false;
    }
    proof {
        assert(valid_sum_request(s@) == (forall|j: int|
            start <= j < n ==> is_sum_flag(#[trigger] s@[j])));
    }
    let mut i: usize = start;
    while i < n
        invariant
            start <= i <= n,
            n == s@.len(),
            valid_sum_request(s@) == (forall|j: int|
                start <= j < n ==> is_sum_flag(#[trigger] s@[j])),
            forall|j: int| start <= j < i ==> is_sum_flag(#[trigger] s@[j]),
        decreases n - i,
    {
        let c = s.get_char(i);
        if !(c == 'c' || c == 'i' || c == 'r' || c == 'n') {
            proof {
                assert(!is_sum_flag(s@[i as int]));
            }
            return false;
        }
        i += 1;
    }
    true
}

/// Executable check for a positive decimal integer without leading
/// zeros.
pub fn check_int(s: &str) -> (r: bool)
    ensures
        r == valid_int(s@),
{
    let n = s.unicode_len();
    if n == 0 {
        return false;
    }
    let first = s.get_char(0);
    if !('1' <= first && first <= '9') {
        return false;
    }
    let mut i: usize = 1;
    while i < n
        invariant
            1 <= i <= n,
            n == s@.len(),
            forall|j: int| 1 <= j < i ==> '0' <= #[trigger] s@[j] && s@[j] <= '9',
        decreases n - i,
    {
        let c = s.get_char(i);
        if !('0' <= c && c <= '9') {
            return false;
        }
        i += 1;
    }
    true
}

/// The escape-aware tokenization of raw text: an escaped backslash
/// becomes two one-character backslash tokens, a backslash-hex escape
/// becomes one three-character token, a space becomes the escape token
/// `\20`, and any other character becomes a one-character token.
pub open spec fn tokenize_ascii(s: Seq<char>) -> Seq<Seq<char>>
    decreases s.len(),
{
    if s.len() == 0 {
        Seq::empty()
    } else if s.len() >= 2 && s[0] == '\\' && s[1] == '\\' {
        seq![seq!['\\'], seq!['\\']] + tokenize_ascii(s.skip(2))
    } else if s.len() >= 3 && s[0] == '\\' && is_hex_digit(s[1]) && is_hex_digit(s[2]) {
        seq![s.take(3)] + tokenize_ascii(s.skip(3))
    } else if s[0] == ' ' {
        seq![seq!['\\', '2', '0']] + tokenize_ascii(s.skip(1))
    } else {
        seq![seq![s[0]]] + tokenize_ascii(s.skip(1))
    }
}

/// Tokenize raw text into escape-aware units.
pub fn string_to_vec_ascii(s: String) -> (r: Vec<String>)
    ensures
        r.deep_view() == tokenize_ascii(s@),
{
    let n = s.as_str().unicode_len();
    let mut out: Vec<String> = Vec::new();
    let mut i: usize = 0;
    proof {
        reveal_strlit("\\20");
        assert(s@.skip(0) =~= s@);
        assert(out.deep_view() =~= Seq::<Seq<char>>::empty());
        assert(tokenize_ascii(s@) == out.deep_view() + tokenize_ascii(s@.skip(0)));
    }
    while i < n
        invariant
            0 <= i <= n,
            n == s@.len(),
            "\\20"@ == seq!['\\', '2', '0'],
            tokenize_ascii(s@) == out.deep_view() + tokenize_ascii(s@.skip(i as int)),
        decreases n - i,
    {
        let ghost rest = s@.skip(i as int);
        let ghost prev = out.deep_view();
        proof {
            assert(rest[0] == s@[i as int]);
        }
        let c = s.as_str().get_char(i);
        if c == '\\' && n - i >= 2 && s.as_str().get_char(i + 1) == '\\' {
            out.push(char_string('\\'));
            out.push(char_string('\\'));
            proof {
                assert(rest.len() >= 2 && rest[1] == s@[i + 1]);
                assert(rest.skip(2) =~= s@.skip(i + 2));
                assert(tokenize_ascii(rest) == seq![seq!['\\'], seq!['\\']]
                    + tokenize_ascii(s@.skip(i + 2)));
                assert(out.deep_view() =~= prev + seq![seq!['\\'], seq!['\\']]);
                assert(out.deep_view() + tokenize_ascii(s@.skip(i + 2)) =~= prev
                    + tokenize_ascii(rest));
            }
            i += 2;
        } else if c == '\\' && n - i >= 3 && hex_digit(s.as_str().get_char(i + 1))
            && hex_digit(s.as_str().get_char(i + 2)) {
            let tok = {
                let piece = s.as_str().substring_char(i, i + 3);
                let mut owned = String::new();
                owned.append(piece);
                owned
            };
            proof {
                assert(rest.len() >= 3);
                assert(rest[1] == s@[i + 1] && rest[2] == s@[i + 2]);
                assert(tok@ =~= rest.take(3));
                assert(rest.skip(3) =~= s@.skip(i + 3));
            }
            out.push(tok);
            proof {
                assert(tokenize_ascii(rest) == seq![rest.take(3)] + tokenize_ascii(
                    s@.skip(i + 3),
                ));
                assert(out.deep_view() =~= prev.push(rest.take(3)));
                assert(out.deep_view() + tokenize_ascii(s@.skip(i + 3)) =~= prev
                    + tokenize_ascii(rest));
            }
            i += 3;
        } else if c == ' ' {
            let mut tok = String::new();
            tok.append("\\20");
            out.push(tok);
            proof {
                assert(rest.skip(1) =~= s@.skip(i + 1));
                assert(tokenize_ascii(rest) == seq![seq!['\\', '2', '0']]
                    + tokenize_ascii(s@.skip(i + 1)));
                assert(out.deep_view() =~= prev.push(seq!['\\', '2', '0']));
                assert(out.deep_view() + tokenize_ascii(s@.skip(i + 1)) =~= prev
                    + tokenize_ascii(rest));
            }
            i += 1;
        } else {
            out.push(char_string(c));
            proof {
                assert(rest.skip(1) =~= s@.skip(i + 1));
                assert(tokenize_ascii(rest) == seq![seq![rest[0]]] + tokenize_ascii(
                    s@.skip(i + 1),
                ));
                assert(out.deep_view() =~= prev.push(seq![rest[0]]));
                assert(out.deep_view() + tokenize_ascii(s@.skip(i + 1)) =~= prev
                    + tokenize_ascii(rest));
            }
            i += 1;
        }
    }
    proof {
        assert(s@.skip(n as int) =~= Seq::<char>::empty());
        assert(tokenize_ascii(s@.skip(n as int)) =~= Seq::<Seq<char>>::empty());
        assert(out.deep_view() + Seq::<Seq<char>>::empty() =~= out.deep_view());
    }
    out
}

/// Does the text begin with a well-formed message head: an escaped
/// backslash, a full backslash-hex escape, or a single character below
/// code 128?
pub open spec fn lead_ok(s: Seq<char>) -> bool {
    s.len() > 0 && (if s[0] == '\\' {
        (s.len() >= 2 && s[1] == '\\') || (s.len() >= 3 && is_hex_digit(s[1])
            && is_hex_digit(s[2]))
    } else {
        (s[0] as int) < 128
    })
}

/// The byte the message head stands for.
pub open spec fn lead_byte(s: Seq<char>) -> u8
    recommends
        lead_ok(s),
{
    if s.len() >= 2 && s[0] == '\\' && s[1] == '\\' {
        92u8
    } else if s.len() >= 1 && s[0] == '\\' {
        ((hex_val(s[1]) as int) * 16 + (hex_val(s[2]) as int)) as u8
    } else if s.len() >= 1 {
        s[0] as u8
    } else {
        0u8
    }
}

/// The text left after the message head.
pub open spec fn lead_rest(s: Seq<char>) -> Seq<char>
    recommends
        lead_ok(s),
{
    if s.len() >= 2 && s[0] == '\\' && s[1] == '\\' {
        s.skip(2)
    } else if s.len() >= 1 && s[0] == '\\' {
        s.skip(3)
    } else {
        s.skip(1)
    }
}

/// Take the leading ASCII-mode unit off the buffer and hand back the
/// byte it stands for: an escaped backslash gives the backslash byte, a
/// backslash-hex escape gives its value, a plain character gives its
/// code.
pub fn get_lead_byte_ascii(buffer: &mut String) -> (r: u8)
    requires
        lead_ok(old(buffer)@),
    ensures
        r == lead_byte(old(buffer)@),
        final(buffer)@ == lead_rest(old(buffer)@),
{
    let n = buffer.as_str().unicode_len();
    let c0 = buffer.as_str().get_char(0);
    if c0 == '\\' && n >= 2 && buffer.as_str().get_char(1) == '\\' {
        let rest = {
            let piece = buffer.as_str().substring_char(2, n);
            let mut owned = String::new();
            owned.append(piece);
            owned
        };
        proof {
            assert(rest@ =~= old(buffer)@.skip(2));
        }
        *buffer = rest;
        92u8
    } else if c0 == '\\' {
        let h = hex_digit_val(buffer.as_str().get_char(1));
        let l = hex_digit_val(buffer.as_str().get_char(2));
        let rest = {
            let piece = buffer.as_str().substring_char(3, n);
            let mut owned = String::new();
            owned.append(piece);
            owned
        };
        proof {
            assert(rest@ =~= old(buffer)@.skip(3));
        }
        *buffer = rest;
        h * 16 + l
    } else {
        let rest = {
            let piece = buffer.as_str().substring_char(1, n);
            let mut owned = String::new();
            owned.append(piece);
            owned
        };
        proof {
            assert(rest@ =~= old(buffer)@.skip(1));
        }
        *buffer = rest;
        c0 as u8
    }
}

/// Take the two leading hexadecimal digits off the buffer and hand back
/// the byte they stand for.
pub fn get_lead_byte_hex(buffer: &mut String) -> (r: u8)
    requires
        old(buffer)@.len() >= 2,
        is_hex_digit(old(buffer)@[0]),
        is_hex_digit(old(buffer)@[1]),
    ensures
        r == ((hex_val(old(buffer)@[0]) as int) * 16 + (hex_val(old(buffer)@[1]) as int)) as u8,
        final(buffer)@ == old(buffer)@.skip(2),
{
    let n = buffer.as_str().unicode_len();
    let h = hex_digit_val(buffer.as_str().get_char(0));
    let l = hex_digit_val(buffer.as_str().get_char(1));
    let rest = {
        let piece = buffer.as_str().substring_char(2, n);
        let mut owned = String::new();
        owned.append(piece);
        owned
    };
    proof {
        assert(rest@ =~= old(buffer)@.skip(2));
    }
    *buffer = rest;
    h * 16 + l
}

/// The wire bytes of a valid ASCII-mode message, head after head.
pub open spec fn decode_ascii_spec(s: Seq<char>) -> Seq<u8>
    decreases s.len(),
{
    if s.len() == 0 {
        Seq::empty()
    } else if s.len() >= 2 && s[0] == '\\' && s[1] == '\\' {
        seq![92u8] + decode_ascii_spec(s.skip(2))
    } else if s.len() >= 3 && s[0] == '\\' {
        seq![((hex_val(s[1]) as int) * 16 + (hex_val(s[2]) as int)) as u8]
            + decode_ascii_spec(s.skip(3))
    } else if s[0] == '\\' {
        Seq::empty()
    } else {
        seq![s[0] as u8] + decode_ascii_spec(s.skip(1))
    }
}

/// The wire bytes of a valid HEX-mode message, pair after pair.
pub open spec fn decode_hex_spec(s: Seq<char>) -> Seq<u8>
    decreases s.len(),
{
    if s.len() == 0 {
        Seq::empty()
    } else if s.len() == 1 {
        Seq::empty()
    } else {
        seq![((hex_val(s[0]) as int) * 16 + (hex_val(s[1]) as int)) as u8]
            + decode_hex_spec(s.skip(2))
    }
}

/// Convert a valid ASCII-mode message to its wire bytes.
pub fn decode_ascii(s: &str) -> (r: Vec<u8>)
    requires
        valid_ascii_tail(s@),
    ensures
        r@ == decode_ascii_spec(s@),
{
    let mut buf = {
        let mut owned = String::new();
        owned.append(s);
        owned
    };
    let mut out: Vec<u8> = Vec::new();
    proof {
        assert(buf@ =~= s@);
        assert(decode_ascii_spec(s@) == out@ + decode_ascii_spec(buf@));
    }
    while buf.as_str().unicode_len() > 0
        invariant
            valid_ascii_tail(buf@),
            decode_ascii_spec(s@) == out@ + decode_ascii_spec(buf@),
        decreases buf@.len(),
    {
        let ghost prev = buf@;
        proof {
            assert(lead_ok(prev));
        }
        let b = get_lead_byte_ascii(&mut buf);
        out.push(b);
        proof {
            assert(valid_ascii_tail(buf@));
            assert(decode_ascii_spec(prev) == seq![b] + decode_ascii_spec(buf@));
            assert(out@ + decode_ascii_spec(buf@) =~= out@.drop_last() + decode_ascii_spec(
                prev,
            ));
        }
    }
    proof {
        assert(buf@.len() == 0);
        assert(decode_ascii_spec(buf@) =~= Seq::<u8>::empty());
        assert(out@ + Seq::<u8>::empty() =~= out@);
    }
    out
}

/// Convert a valid HEX-mode message to its wire bytes.
pub fn decode_hex(s: &str) -> (r: Vec<u8>)
    requires
        valid_hex_tail(s@),
    ensures
        r@ == decode_hex_spec(s@),
{
    let mut buf = {
        let mut owned = String::new();
        owned.append(s);
        owned
    };
    let mut out: Vec<u8> = Vec::new();
    proof {
        assert(buf@ =~= s@);
        assert(decode_hex_spec(s@) == out@ + decode_hex_spec(buf@));
    }
    while buf.as_str().unicode_len() > 0
        invariant
            valid_hex_tail(buf@),
            decode_hex_spec(s@) == out@ + decode_hex_spec(buf@),
        decreases buf@.len(),
    {
        let ghost prev = buf@;
        let b = get_lead_byte_hex(&mut buf);
        out.push(b);
        proof {
            assert(valid_hex_tail(buf@));
            assert(decode_hex_spec(prev) == seq![b] + decode_hex_spec(buf@));
            assert(out@ + decode_hex_spec(buf@) =~= out@.drop_last() + decode_hex_spec(
                prev,
            ));
        }
    }
    proof {
        assert(buf@.len() == 0);
        assert(decode_hex_spec(buf@) =~= Seq::<u8>::empty());
        assert(out@ + Seq::<u8>::empty() =~= out@);
    }
    out
}

/// A character folded to lower case when it is an ASCII capital.
pub open spec fn lower_char(c: char) -> char {
    if 'A' <= c && c <= 'Z' {
        ((c as int) + 32) as char
    } else {
        c
    }
}

/// Text with every ASCII capital folded to lower case.
pub open spec fn lower_seq(s: Seq<char>) -> Seq<char> {
    Seq::new(s.len(), |i: int| lower_char(s[i]))
}

/// Fold the ASCII capitals of a string to lower case.
pub fn lowercase_ascii(s: &str) -> (r: String)
    ensures
        r@ == lower_seq(s@),
{
    let n = s.unicode_len();
    let mut out = String::new();
    let mut i: usize = 0;
    while i < n
        invariant
            0 <= i <= n,
            n == s@.len(),
            out@.len() == i,
            forall|j: int| 0 <= j < i ==> out@[j] == lower_char(s@[j]),
        decreases n - i,
    {
        let c = s.get_char(i);
        let low = if 'A' <= c && c <= 'Z' {
            ((c as u8) + 32) as char
        } else {
            c
        };
        push_char(&mut out, low);
        i += 1;
    }
    proof {
        assert(out@ =~= lower_seq(s@));
    }
    out
}

/// The display form of one token: the named control-code form of a
/// backslash-hex escape (compared after case folding), any other token
/// unchanged.
pub open spec fn printable_spec(s: Seq<char>) -> Seq<char> {
    let l = lower_seq(s);
    if l == "\\00"@ {
        "[NUL]"@
    } else if l == "\\01"@ {
        "[SOH]"@
    } else if l == "\\02"@ {
        "[STX]"@
    } else if l == "\\03"@ {
        "[ETX]"@
    } else if l == "\\04"@ {
        "[EOT]"@
    } else if l == "\\05"@ {
        "[ENQ]"@
    } else if l == "\\06"@ {
        "[ACK]"@
    } else if l == "\\07"@ {
        "[BEL]"@
    } else if l == "\\08"@ {
        "[BS]"@
    } else if l == "\\09"@ {
        "[HT]"@
    } else if l == "\\0a"@ {
        "[LF]"@
    } else if l == "\\0b"@ {
        "[VT]"@
    } else if l == "\\0c"@ {
        "[FF]"@
    } else if l == "\\0d"@ {
        "[CR]"@
    } else if l == "\\0e"@ {
        "[SO]"@
    } else if l == "\\0f"@ {
        "[SI]"@
    } else if l == "\\10"@ {
        "[DLE]"@
    } else if l == "\\11"@ {
        "[DC1]"@
    } else if l == "\\12"@ {
        "[DC2]"@
    } else if l == "\\13"@ {
        "[DC3]"@
    } else if l == "\\14"@ {
        "[DC4]"@
    } else if l == "\\15"@ {
        "[NAK]"@
    } else if l == "\\16"@ {
        "[SYN]"@
    } else if l == "\\17"@ {
        "[ETB]"@
    } else if l == "\\18"@ {
        "[CAN]"@
    } else if l == "\\19"@ {
        "[EM]"@
    } else if l == "\\1a"@ {
        "[SUB]"@
    } else if l == "\\1b"@ {
        "[ESC]"@
    } else if l == "\\1c"@ {
        "[FS]"@
    } else if l == "\\1d"@ {
        "[GS]"@
    } else if l == "\\1e"@ {
        "[RS]"@
    } else if l == "\\1f"@ {
        "[US]"@
    } else if l == "\\20"@ {
        "[SP]"@
    } else if l == "\\7f"@ {
        "[DEL]"@
    } else {
        s
    }
}

/// Map an escape token to its named control-code display form; any
/// other token is handed back unchanged.
pub fn get_printable_ascii(s: String) -> (r: String)
    ensures
        r@ == printable_spec(s@),
{
    let low = lowercase_ascii(s.as_str());
    if str_eq(low.as_str(), "\\00") {
        let mut out = String::new();
        out.append("[NUL]");
        out
    } else if str_eq(low.as_str(), "\\01") {
        let mut out = String::new();
        out.append("[SOH]");
        out
    } else if str_eq(low.as_str(), "\\02") {
        let mut out = String::new();
        out.append("[STX]");
        out
    } else if str_eq(low.as_str(), "\\03") {
        let mut out = String::new();
        out.append("[ETX]");
        out
    } else if str_eq(low.as_str(), "\\04") {
        let mut out = String::new();
        out.append("[EOT]");
        out
    } else if str_eq(low.as_str(), "\\05") {
        let mut out = String::new();
        out.append("[ENQ]");
        out
    } else if str_eq(low.as_str(), "\\06") {
        let mut out = String::new();
        out.append("[ACK]");
        out
    } else if str_eq(low.as_str(), "\\07") {
        let mut out = String::new();
        out.append("[BEL]");
        out
    } else if str_eq(low.as_str(), "\\08") {
        let mut out = String::new();
        out.append("[BS]");
        out
    } else if str_eq(low.as_str(), "\\09") {
        let mut out = String::new();
        out.append("[HT]");
        out
    } else if str_eq(low.as_str(), "\\0a") {
        let mut out = String::new();
        out.append("[LF]");
        out
    } else if str_eq(low.as_str(), "\\0b") {
        let mut out = String::new();
        out.append("[VT]");
        out
    } else if str_eq(low.as_str(), "\\0c") {
        let mut out = String::new();
        out.append("[FF]");
        out
    } else if str_eq(low.as_str(), "\\0d") {
        let mut out = String::new();
        out.append("[CR]");
        out
    } else if str_eq(low.as_str(), "\\0e") {
        let mut out = String::new();
        out.append("[SO]");
        out
    } else if str_eq(low.as_str(), "\\0f") {
        let mut out = String::new();
        out.append("[SI]");
        out
    } else if str_eq(low.as_str(), "\\10") {
        let mut out = String::new();
        out.append("[DLE]");
        out
    } else if str_eq(low.as_str(), "\\11") {
        let mut out = String::new();
        out.append("[DC1]");
        out
    } else if str_eq(low.as_str(), "\\12") {
        let mut out = String::new();
        out.append("[DC2]");
        out
    } else if str_eq(low.as_str(), "\\13") {
        let mut out = String::new();
        out.append("[DC3]");
        out
    } else if str_eq(low.as_str(), "\\14") {
        let mut out = String::new();
        out.append("[DC4]");
        out
    } else if str_eq(low.as_str(), "\\15") {
        let mut out = String::new();
        out.append("[NAK]");
        out
    } else if str_eq(low.as_str(), "\\16") {
        let mut out = String::new();
        out.append("[SYN]");
        out
    } else if str_eq(low.as_str(), "\\17") {
        let mut out = String::new();
        out.append("[ETB]");
        out
    } else if str_eq(low.as_str(), "\\18") {
        let mut out = String::new();
        out.append("[CAN]");
        out
    } else if str_eq(low.as_str(), "\\19") {
        let mut out = String::new();
        out.append("[EM]");
        out
    } else if str_eq(low.as_str(), "\\1a") {
        let mut out = String::new();
        out.append("[SUB]");
        out
    } else if str_eq(low.as_str(), "\\1b") {
        let mut out = String::new();
        out.append("[ESC]");
        out
    } else if str_eq(low.as_str(), "\\1c") {
        let mut out = String::new();
        out.append("[FS]");
        out
    } else if str_eq(low.as_str(), "\\1d") {
        let mut out = String::new();
        out.append("[GS]");
        out
    } else if str_eq(low.as_str(), "\\1e") {
        let mut out = String::new();
        out.append("[RS]");
        out
    } else if str_eq(low.as_str(), "\\1f") {
        let mut out = String::new();
        out.append("[US]");
        out
    } else if str_eq(low.as_str(), "\\20") {
        let mut out = String::new();
        out.append("[SP]");
        out
    } else if str_eq(low.as_str(), "\\7f") {
        let mut out = String::new();
        out.append("[DEL]");
        out
    } else {
        s
    }
}

} // verus!

