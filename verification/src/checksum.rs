//! The message checksums: CRC-16 (polynomial 0xA001), the 8-bit sum,
//! and the flag-driven post-processing of a checksum request.
//!
//! A request names the algorithm (`crc16` or `sum8`) and may carry flag
//! characters after a dash: `i` inverts the bits, `n` negates, `r` swaps
//! the two CRC-16 bytes, and `c` changes how the hexadecimal text is
//! wrapped for the current mode.

use vstd::prelude::*;
use crate::ascii::decode_ascii;
use crate::ascii::decode_ascii_spec;
use crate::ascii::decode_hex;
use crate::ascii::decode_hex_spec;
use crate::ascii::check_ascii_msg;
use crate::ascii::check_hex_msg;
use crate::ascii::hex_digit_char;
use crate::ascii::hex_digit_to_char;
use crate::ascii::valid_ascii_msg;
use crate::ascii::valid_hex_msg;
use crate::mode::Mode;
use crate::strutil::push_char;
use crate::strutil::str_eq;
use vstd::string::StrSliceExecFns;

verus! {

/// One bit step of the CRC-16 computation.
pub open spec fn crc16_bit(crc: u16) -> u16 {
    if crc & 1 == 1 {
        (crc >> 1) ^ 0xA001
    } else {
        crc >> 1
    }
}

/// `k` bit steps of the CRC-16 computation.
pub open spec fn crc16_bits(crc: u16, k: nat) -> u16
    decreases k,
{
    if k == 0 {
        crc
    } else {
        crc16_bits(crc16_bit(crc), (k - 1) as nat)
    }
}

/// One more bit step after `k` is the same as `k` steps from one step
/// in.
pub proof fn lemma_crc16_bits_snoc(crc: u16, k: nat)
    ensures
        crc16_bits(crc, k + 1) == crc16_bit(crc16_bits(crc, k)),
    decreases k,
{
    if k > 0 {
        lemma_crc16_bits_snoc(crc16_bit(crc), (k - 1) as nat);
        assert(crc16_bits(crc, k + 1) == crc16_bits(crc16_bit(crc), ((k + 1) - 1) as nat));
        assert(((k + 1) - 1) as nat == ((k - 1) as nat) + 1);
        assert(crc16_bits(crc, k) == crc16_bits(crc16_bit(crc), (k - 1) as nat));
    } else {
        assert(crc16_bits(crc, 1) == crc16_bits(crc16_bit(crc), 0));
    }
}

/// The CRC-16 register folded over the bytes from the front.
pub open spec fn crc16_fold(crc: u16, bytes: Seq<u8>) -> u16
    decreases bytes.len(),
{
    if bytes.len() == 0 {
        crc
    } else {
        crc16_fold(crc16_bits(crc ^ (bytes[0] as u16), 8), bytes.drop_first())
    }
}

/// The CRC-16 of a byte string, from the initial register 0xFFFF.
pub open spec fn crc16_spec(bytes: Seq<u8>) -> u16 {
    crc16_fold(0xFFFF, bytes)
}

/// Compute the CRC-16 of a byte string.
pub fn crc16(bytes: &Vec<u8>) -> (r: u16)
    ensures
        r == crc16_spec(bytes@),
{
    let mut crc: u16 = 0xFFFF;
    let mut i: usize = 0;
    proof {
        assert(bytes@.skip(0) =~= bytes@);
    }
    while i < bytes.len()
        invariant
            0 <= i <= bytes.len(),
            crc16_spec(bytes@) == crc16_fold(crc, bytes@.skip(i as int)),
        decreases bytes.len() - i,
    {
        let ghost rest = bytes@.skip(i as int);
        proof {
            assert(rest[0] == bytes@[i as int]);
            assert(rest.drop_first() =~= bytes@.skip(i + 1));
        }
        crc = crc ^ (bytes[i] as u16);
        let ghost start = crc;
        let mut k: usize = 0;
        while k < 8
            invariant
                0 <= k <= 8,
                crc == crc16_bits(start, k as nat),
            decreases 8 - k,
        {
            let ghost before_bit = crc;
            let carry = crc & 1;
            proof {
                assert((before_bit & 1 == 0) || (before_bit & 1 == 1)) by (bit_vector);
            }
            crc = crc >> 1;
            if carry != 0 {
                crc = crc ^ 0xA001;
            }
            proof {
                assert(crc == crc16_bit(before_bit));
                lemma_crc16_bits_snoc(start, k as nat);
            }
            k += 1;
        }
        i += 1;
    }
    proof {
        assert(bytes@.skip(bytes.len() as int).len() == 0);
    }
    crc
}

/// The 8-bit sum of a byte string, wrapping around.
pub open spec fn sum8_spec(bytes: Seq<u8>) -> u8
    decreases bytes.len(),
{
    if bytes.len() == 0 {
        0
    } else {
        (((sum8_spec(bytes.drop_last()) as int) + (bytes.last() as int)) % 256) as u8
    }
}

/// Compute the wrapping 8-bit sum of a byte string.
pub fn sum8(bytes: &Vec<u8>) -> (r: u8)
    ensures
        r == sum8_spec(bytes@),
{
    let mut sum: u8 = 0;
    let mut i: usize = 0;
    proof {
        assert(bytes@.take(0) =~= Seq::<u8>::empty());
    }
    while i < bytes.len()
        invariant
            0 <= i <= bytes.len(),
            sum == sum8_spec(bytes@.take(i as int)),
        decreases bytes.len() - i,
    {
        proof {
            assert(bytes@.take(i + 1).drop_last() =~= bytes@.take(i as int));
            assert(bytes@.take(i + 1).last() == bytes@[i as int]);
        }
        sum = (((sum as u16) + (bytes[i] as u16)) % 256) as u8;
        i += 1;
    }
    proof {
        assert(bytes@.take(bytes.len() as int) =~= bytes@);
    }
    sum
}

/// The CRC-16 of a message under a mode: zero when the message does not
/// fit the mode's grammar.
pub open spec fn calc_crc16_spec(s: Seq<char>, mode: Mode) -> u16 {
    match mode {
        Mode::ASCII => if valid_ascii_msg(s) {
            crc16_spec(decode_ascii_spec(s))
        } else {
            0
        },
        Mode::HEX => if valid_hex_msg(s) {
            crc16_spec(decode_hex_spec(s))
        } else {
            0
        },
    }
}

/// Compute the CRC-16 of a message under a mode; an invalid message
/// gives zero.
pub fn calc_crc16(s: &str, mode: Mode) -> (r: u16)
    ensures
        r == calc_crc16_spec(s@, mode),
{
    match mode {
        Mode::ASCII => {
            if !check_ascii_msg(s) {
                return 0;
            }
            let bytes = decode_ascii(s);
            crc16(&bytes)
        },
        Mode::HEX => {
            if !check_hex_msg(s) {
                return 0;
            }
            let bytes = decode_hex(s);
            crc16(&bytes)
        },
    }
}

/// The 8-bit sum of a message under a mode: zero when the message does
/// not fit the mode's grammar.
pub open spec fn calc_sum8_spec(s: Seq<char>, mode: Mode) -> u8 {
    match mode {
        Mode::ASCII => if valid_ascii_msg(s) {
            sum8_spec(decode_ascii_spec(s))
        } else {
            0
        },
        Mode::HEX => if valid_hex_msg(s) {
            sum8_spec(decode_hex_spec(s))
        } else {
            0
        },
    }
}

/// Compute the 8-bit sum of a message under a mode; an invalid message
/// gives zero.
pub fn calc_sum8(s: &str, mode: Mode) -> (r: u8)
    ensures
        r == calc_sum8_spec(s@, mode),
{
    match mode {
        Mode::ASCII => {
            if !check_ascii_msg(s) {
                return 0;
            }
            let bytes = decode_ascii(s);
            sum8(&bytes)
        },
        Mode::HEX => {
            if !check_hex_msg(s) {
                return 0;
            }
            let bytes = decode_hex(s);
            sum8(&bytes)
        },
    }
}

/// Everything before the first dash.
pub open spec fn base_of(s: Seq<char>) -> Seq<char>
    decreases s.len(),
{
    if s.len() == 0 {
        s
    } else if s[0] == '-' {
        Seq::empty()
    } else {
        seq![s[0]] + base_of(s.drop_first())
    }
}

/// Everything after the first dash; empty when there is none.
pub open spec fn after_dash(s: Seq<char>) -> Seq<char>
    decreases s.len(),
{
    if s.len() == 0 {
        Seq::empty()
    } else if s[0] == '-' {
        s.drop_first()
    } else {
        after_dash(s.drop_first())
    }
}

/// The flag part of a checksum request: the dash-separated segment after
/// the algorithm name.
pub open spec fn post_of(s: Seq<char>) -> Seq<char> {
    base_of(after_dash(s))
}

/// With the first dash (or the end) at `d`, the base is the prefix and
/// the remainder follows the dash.
pub proof fn lemma_split_at_dash(s: Seq<char>, d: int)
    requires
        0 <= d <= s.len(),
        forall|j: int| 0 <= j < d ==> s[j] != '-',
        d < s.len() ==> s[d] == '-',
    ensures
        base_of(s) == s.take(d),
        after_dash(s) == if d < s.len() {
            s.skip(d + 1)
        } else {
            Seq::<char>::empty()
        },
    decreases d,
{
    if d == 0 {
        if s.len() == 0 {
            assert(base_of(s) =~= s.take(0));
        } else {
            assert(s[0] == '-');
            assert(base_of(s) =~= s.take(0));
            assert(after_dash(s) =~= s.skip(1));
        }
    } else {
        let rest = s.drop_first();
        assert(forall|j: int| 0 <= j < d - 1 ==> rest[j] == s[j + 1] && rest[j] != '-');
        assert(d - 1 < rest.len() ==> rest[d - 1] == s[d] && rest[d - 1] == '-');
        lemma_split_at_dash(rest, d - 1);
        assert(base_of(s) == seq![s[0]] + rest.take(d - 1));
        assert(seq![s[0]] + rest.take(d - 1) =~= s.take(d));
        if d < s.len() {
            assert(after_dash(s) == rest.skip(d));
            assert(rest.skip(d) =~= s.skip(d + 1));
        }
    }
}

/// Split a checksum request into its algorithm name and its flags.
pub fn split_request(s: &str) -> (r: (String, String))
    ensures
        r.0@ == base_of(s@),
        r.1@ == post_of(s@),
{
    let n = s.unicode_len();
    let mut d1: usize = 0;
    while d1 < n && s.get_char(d1) != '-'
        invariant
            0 <= d1 <= n,
            n == s@.len(),
            forall|j: int| 0 <= j < d1 ==> s@[j] != '-',
        decreases n - d1,
    {
        d1 += 1;
    }
    proof {
        lemma_split_at_dash(s@, d1 as int);
    }
    let base = {
        let piece = s.substring_char(0, d1);
        let mut owned = String::new();
        vstd::string::StringExecFns::append(&mut owned, piece);
        owned
    };
    proof {
        assert(base@ =~= s@.take(d1 as int));
    }
    if d1 == n {
        let post = String::new();
        proof {
            assert(post_of(s@) =~= Seq::<char>::empty());
        }
        return (base, post);
    }
    let ghost tail = s@.skip(d1 + 1);
    let mut d2: usize = d1 + 1;
    while d2 < n && s.get_char(d2) != '-'
        invariant
            d1 + 1 <= d2 <= n,
            n == s@.len(),
            forall|j: int| d1 + 1 <= j < d2 ==> s@[j] != '-',
        decreases n - d2,
    {
        d2 += 1;
    }
    proof {
        assert(forall|j: int| 0 <= j < d2 - (d1 + 1) ==> tail[j] == s@[j + d1 + 1]);
        assert(d2 < n ==> tail[d2 - (d1 + 1)] == s@[d2 as int]);
        lemma_split_at_dash(tail, d2 - (d1 + 1));
    }
    let post = {
        let piece = s.substring_char(d1 + 1, d2);
        let mut owned = String::new();
        vstd::string::StringExecFns::append(&mut owned, piece);
        owned
    };
    proof {
        assert(post@ =~= tail.take(d2 - (d1 + 1)));
    }
    (base, post)
}

/// Does the text contain the character?
pub fn contains_char(s: &str, c: char) -> (r: bool)
    ensures
        r == s@.contains(c),
{
    let n = s.unicode_len();
    let mut i: usize = 0;
    while i < n
        invariant
            0 <= i <= n,
            n == s@.len(),
            forall|j: int| 0 <= j < i ==> s@[j] != c,
        decreases n - i,
    {
        if s.get_char(i) == c {
            proof {
                assert(s@[i as int] == c);
            }
            return true;
        }
        i += 1;
    }
    proof {
        if s@.contains(c) {
            let k = choose|k: int| 0 <= k < s@.len() && s@[k] == c;
            assert(s@[k] != c);
        }
    }
    false
}

/// The checksum after its flags: `i` inverts the bits, `n` negates
/// modulo 2^16, and `r` swaps the two bytes of a CRC-16.
pub open spec fn apply_sum_flags(base: Seq<char>, post: Seq<char>, sum: u16) -> u16 {
    let a = if post.contains('i') {
        (0xFFFF - (sum as int)) as u16
    } else {
        sum
    };
    let b = if post.contains('n') {
        (((0x10000 - (a as int)) % 0x10000)) as u16
    } else {
        a
    };
    if post.contains('r') && base == "crc16"@ {
        (((a_low(b) as int) * 256 + (a_high(b) as int))) as u16
    } else {
        b
    }
}

/// The high byte of a sixteen-bit value.
pub open spec fn a_high(v: u16) -> u8 {
    ((v as int) / 256) as u8
}

/// The low byte of a sixteen-bit value.
pub open spec fn a_low(v: u16) -> u8 {
    ((v as int) % 256) as u8
}

/// The four uppercase hexadecimal digits of a sixteen-bit value.
pub open spec fn hex4(v: u16) -> Seq<char> {
    seq![
        hex_digit_char(((v as int) / 4096 % 16) as u8),
        hex_digit_char(((v as int) / 256 % 16) as u8),
        hex_digit_char(((v as int) / 16 % 16) as u8),
        hex_digit_char(((v as int) % 16) as u8),
    ]
}

/// The two uppercase hexadecimal digits of a byte.
pub open spec fn hex2(v: u8) -> Seq<char> {
    seq![hex_digit_char((v / 16) as u8), hex_digit_char((v % 16) as u8)]
}

/// Format a sixteen-bit value as four uppercase hexadecimal digits.
pub fn format_hex4(v: u16) -> (r: String)
    ensures
        r@ == hex4(v),
{
    let mut out = String::new();
    push_char(&mut out, hex_digit_to_char(((v / 4096) % 16) as u8));
    push_char(&mut out, hex_digit_to_char(((v / 256) % 16) as u8));
    push_char(&mut out, hex_digit_to_char(((v / 16) % 16) as u8));
    push_char(&mut out, hex_digit_to_char((v % 16) as u8));
    proof {
        assert(out@ =~= hex4(v));
    }
    out
}

/// Format a byte as two uppercase hexadecimal digits.
pub fn format_hex2(v: u8) -> (r: String)
    ensures
        r@ == hex2(v),
{
    let mut out = String::new();
    push_char(&mut out, hex_digit_to_char(v / 16));
    push_char(&mut out, hex_digit_to_char(v % 16));
    proof {
        assert(out@ =~= hex2(v));
    }
    out
}

/// Each character replaced by the two hexadecimal digits of its code.
pub open spec fn hex_of_chars(s: Seq<char>) -> Seq<char>
    decreases s.len(),
{
    if s.len() == 0 {
        Seq::empty()
    } else {
        hex2((s[0] as int % 256) as u8) + hex_of_chars(s.drop_first())
    }
}

/// Character pairs each preceded by a backslash, turning hexadecimal
/// text into escape units.
pub open spec fn escape_pairs(s: Seq<char>) -> Seq<char>
    decreases s.len(),
{
    if s.len() == 0 {
        Seq::empty()
    } else if s.len() == 1 {
        seq!['\\'] + s
    } else {
        seq!['\\'] + s.take(2) + escape_pairs(s.skip(2))
    }
}

/// The full text of a computed checksum: the algorithm applied to the
/// message, the flags applied to the value, the value written in
/// uppercase hexadecimal, and the text wrapped for the mode — in HEX
/// mode the `c` flag spells each digit character as its own character
/// code, in ASCII mode the digits are grouped into backslash escapes
/// unless the `c` flag asks for the bare text.  An unknown algorithm
/// name gives the empty string.
pub open spec fn calc_checksum_spec(sum_type: Seq<char>, buf: Seq<char>, mode: Mode)
    -> Seq<char> {
    let base = base_of(sum_type);
    let post = post_of(sum_type);
    if base != "crc16"@ && base != "sum8"@ {
        Seq::empty()
    } else {
        let raw: u16 = if base == "crc16"@ {
            calc_crc16_spec(buf, mode)
        } else {
            calc_sum8_spec(buf, mode) as u16
        };
        let v = apply_sum_flags(base, post, raw);
        let text = if base == "crc16"@ {
            hex4(v)
        } else {
            hex2(a_low(v))
        };
        match mode {
            Mode::HEX => if post.contains('c') {
                hex_of_chars(text)
            } else {
                text
            },
            Mode::ASCII => if post.contains('c') {
                text
            } else {
                escape_pairs(text)
            },
        }
    }
}

/// Compute the full checksum text of a message under a mode.
pub fn calc_checksum(sum_type: &str, buf: &str, mode: Mode) -> (r: String)
    ensures
        r@ == calc_checksum_spec(sum_type@, buf@, mode),
{
    let (base, post) = split_request(sum_type);
    let is_crc = str_eq(base.as_str(), "crc16");
    let is_sum = str_eq(base.as_str(), "sum8");
    if !is_crc && !is_sum {
        return String::new();
    }
    let raw: u16 = if is_crc {
        calc_crc16(buf, mode)
    } else {
        calc_sum8(buf, mode) as u16
    };
    let mut v: u16 = raw;
    if contains_char(post.as_str(), 'i') {
        v = 0xFFFF - v;
    }
    if contains_char(post.as_str(), 'n') {
        v = ((0x10000u32 - (v as u32)) % 0x10000u32) as u16;
    }
    if contains_char(post.as_str(), 'r') && is_crc {
        let hi = v / 256;
        let lo = v % 256;
        v = lo * 256 + hi;
    }
    proof {
        assert(v == apply_sum_flags(base@, post@, raw));
    }
    let text = if is_crc {
        format_hex4(v)
    } else {
        format_hex2((v % 256) as u8)
    };
    match mode {
        Mode::HEX => {
            if contains_char(post.as_str(), 'c') {
                hex_chars_exec(text.as_str())
            } else {
                text
            }
        },
        Mode::ASCII => {
            if contains_char(post.as_str(), 'c') {
                text
            } else {
                escape_pairs_exec(text.as_str())
            }
        },
    }
}

/// Spell each character of the text as the two hexadecimal digits of
/// its code.
fn hex_chars_exec(s: &str) -> (r: String)
    requires
        forall|j: int| 0 <= j < s@.len() ==> (#[trigger] s@[j] as int) < 256,
    ensures
        r@ == hex_of_chars(s@),
{
    let n = s.unicode_len();
    let mut out = String::new();
    let mut i: usize = 0;
    proof {
        assert(s@.skip(0) =~= s@);
        assert(hex_of_chars(s@) == out@ + hex_of_chars(s@.skip(0)));
    }
    while i < n
        invariant
            0 <= i <= n,
            n == s@.len(),
            forall|j: int| 0 <= j < s@.len() ==> (#[trigger] s@[j] as int) < 256,
            hex_of_chars(s@) == out@ + hex_of_chars(s@.skip(i as int)),
        decreases n - i,
    {
        let ghost rest = s@.skip(i as int);
        let ghost prev = out@;
        proof {
            assert(rest[0] == s@[i as int]);
            assert(rest.drop_first() =~= s@.skip(i + 1));
        }
        let c = s.get_char(i);
        let pair = format_hex2((c as u32 % 256) as u8);
        out.append(pair.as_str());
        proof {
            assert(hex_of_chars(rest) == hex2((rest[0] as int % 256) as u8)
                + hex_of_chars(s@.skip(i + 1)));
            assert(out@ + hex_of_chars(s@.skip(i + 1)) =~= prev + hex_of_chars(rest));
        }
        i += 1;
    }
    proof {
        assert(s@.skip(n as int).len() == 0);
        assert(out@ + hex_of_chars(s@.skip(n as int)) =~= out@);
    }
    out
}

/// Group the text into character pairs, each preceded by a backslash.
fn escape_pairs_exec(s: &str) -> (r: String)
    ensures
        r@ == escape_pairs(s@),
{
    let n = s.unicode_len();
    let mut out = String::new();
    let mut i: usize = 0;
    proof {
        assert(s@.skip(0) =~= s@);
        assert(escape_pairs(s@) == out@ + escape_pairs(s@.skip(0)));
    }
    while i < n
        invariant
            0 <= i <= n,
            n == s@.len(),
            escape_pairs(s@) == out@ + escape_pairs(s@.skip(i as int)),
        decreases n - i,
    {
        let ghost rest = s@.skip(i as int);
        let ghost prev = out@;
        proof {
            assert(rest[0] == s@[i as int]);
        }
        push_char(&mut out, '\\');
        if n - i >= 2 {
            proof {
                assert(rest[1] == s@[i + 1]);
                assert(rest.skip(2) =~= s@.skip(i + 2));
            }
            push_char(&mut out, s.get_char(i));
            push_char(&mut out, s.get_char(i + 1));
            proof {
                assert(escape_pairs(rest) == seq!['\\'] + rest.take(2) + escape_pairs(
                    s@.skip(i + 2),
                ));
                assert(out@ + escape_pairs(s@.skip(i + 2)) =~= prev + escape_pairs(rest));
            }
            i += 2;
        } else {
            push_char(&mut out, s.get_char(i));
            proof {
                assert(rest.len() == 1);
                assert(escape_pairs(rest) == seq!['\\'] + rest);
                assert(s@.skip(i + 1).len() == 0);
                assert(out@ + escape_pairs(s@.skip(i + 1)) =~= prev + escape_pairs(rest));
            }
            i += 1;
        }
    }
    proof {
        assert(s@.skip(n as int).len() == 0);
        assert(out@ + escape_pairs(s@.skip(n as int)) =~= out@);
    }
    out
}

} // verus!
