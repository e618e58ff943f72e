//! RFC 3986 style percent-encoding as performed on issuer and label
//! segments of the `otpauth://` URI, with its decoding round-trip law.

use vstd::prelude::*;

verus! {

use crate::text::digit_char;
use vstd::utf8::decode_utf8;
use vstd::utf8::encode_utf8;
use vstd::utf8::encode_utf8_decode_utf8;

/// Bytes that percent-encoding passes through unchanged: ASCII
/// alphanumerics and `-`, `.`, `_`, `~`.
pub open spec fn is_unreserved_byte(b: u8) -> bool {
    (48 <= b && b <= 57) || (65 <= b && b <= 90) || (97 <= b && b <= 122) || b == 45 || b == 46
        || b == 95 || b == 126
}

/// The upper-case hexadecimal digit character for `d`, which must lie in
/// `0..=15`.
pub open spec fn hex_char(d: int) -> char {
    if d < 10 {
        digit_char(d)
    } else if d == 10 {
        'A'
    } else if d == 11 {
        'B'
    } else if d == 12 {
        'C'
    } else if d == 13 {
        'D'
    } else if d == 14 {
        'E'
    } else {
        'F'
    }
}

/// The numeric value of an upper-case hexadecimal digit character; other
/// characters read as zero.
pub open spec fn hex_val(c: char) -> int {
    if 48 <= c as int && c as int <= 57 {
        c as int - 48
    } else if 65 <= c as int && c as int <= 70 {
        c as int - 55
    } else {
        0
    }
}

/// The percent-encoding of one byte: an unreserved byte stands for itself,
/// any other byte becomes `%` followed by two upper-case hex digits.
pub open spec fn pct_encode_byte(b: u8) -> Seq<char> {
    if is_unreserved_byte(b) {
        seq![b as char]
    } else {
        seq!['%', hex_char(b as int / 16), hex_char(b as int % 16)]
    }
}

/// The percent-encoding of a byte sequence, byte by byte.
pub open spec fn pct_encode_bytes(bs: Seq<u8>) -> Seq<char>
    decreases bs.len(),
{
    if bs.len() == 0 {
        Seq::empty()
    } else {
        pct_encode_byte(bs[0]) + pct_encode_bytes(bs.drop_first())
    }
}

/// The percent-encoding of a string: its UTF-8 bytes, each encoded.
pub open spec fn spec_percent_encode(s: Seq<char>) -> Seq<char> {
    pct_encode_bytes(encode_utf8(s))
}

/// Percent-decoding of a character sequence back to bytes: `%XY` with two
/// hex digits reads as one byte, any other character reads as its own
/// code truncated to a byte.
pub open spec fn pct_decode_chars(cs: Seq<char>) -> Seq<u8>
    decreases cs.len(),
{
    if cs.len() == 0 {
        Seq::empty()
    } else if cs[0] == '%' && cs.len() >= 3 {
        seq![(hex_val(cs[1]) * 16 + hex_val(cs[2])) as u8] + pct_decode_chars(cs.skip(3))
    } else {
        seq![cs[0] as u8] + pct_decode_chars(cs.skip(1))
    }
}

/// Relies on urlencoding::encode: percent-encodes every byte of the UTF-8
/// form of `s` except ASCII alphanumerics and `-`, `.`, `_`, `~`, writing
/// `%` and two upper-case hexadecimal digits for each encoded byte.
#[verifier::external_body]
pub(crate) fn percent_encode(s: &str) -> (r: String)
    ensures
        r@ == spec_percent_encode(s@),
{
    urlencoding::encode(s).into_owned()
}

/// Decoding undoes encoding on any byte sequence: the percent-decoding of
/// a percent-encoded byte sequence is that byte sequence again.
pub proof fn lemma_pct_decode_encode_bytes(bs: Seq<u8>)
    ensures
        pct_decode_chars(pct_encode_bytes(bs)) == bs,
    decreases bs.len(),
{
    if bs.len() == 0 {
        assert(pct_decode_chars(pct_encode_bytes(bs)) =~= bs);
    } else {
        let b = bs[0];
        let rest = bs.drop_first();
        lemma_pct_decode_encode_bytes(rest);
        let enc = pct_encode_bytes(bs);
        if is_unreserved_byte(b) {
            assert(enc[0] == b as char);
            assert(b as char != '%');
            assert(enc.skip(1) =~= pct_encode_bytes(rest));
            assert(enc[0] as u8 == b);
            assert(pct_decode_chars(enc) =~= bs);
        } else {
            assert(enc[0] == '%');
            assert(enc[1] == hex_char(b as int / 16));
            assert(enc[2] == hex_char(b as int % 16));
            assert(hex_val(enc[1]) == b as int / 16);
            assert(hex_val(enc[2]) == b as int % 16);
            assert(hex_val(enc[1]) * 16 + hex_val(enc[2]) == b as int);
            assert(enc.skip(3) =~= pct_encode_bytes(rest));
            assert(pct_decode_chars(enc) =~= bs);
        }
    }
}

/// Round trip for whole strings: percent-decoding the percent-encoding of
/// a string gives back its UTF-8 bytes, and decoding those bytes gives
/// back the string itself, character for character.
pub proof fn lemma_percent_encode_roundtrip(s: Seq<char>)
    ensures
        pct_decode_chars(spec_percent_encode(s)) == encode_utf8(s),
        decode_utf8(pct_decode_chars(spec_percent_encode(s))) == s,
{
    lemma_pct_decode_encode_bytes(encode_utf8(s));
    encode_utf8_decode_utf8(s);
}

} // verus!
