//! Percent-decoding of `%XX` escape sequences in a request path.
//!
//! Every `%` followed by up to two hexadecimal digits is replaced by the
//! single byte those digits encode (high nibble first); missing digits at
//! the end of the input count as zero.  Any other character passes through
//! as its low byte.  The accumulated bytes are then read back as UTF-8;
//! if they are not valid UTF-8 the result is the empty string.

use vstd::prelude::*;
use vstd::string::StrSliceExecFns;
use vstd::utf8::decode_utf8;
use vstd::utf8::encode_utf8;
use vstd::utf8::encode_utf8_decode_utf8;
use vstd::utf8::encode_utf8_valid_utf8;
use vstd::utf8::is_ascii_chars;
use vstd::utf8::is_ascii_chars_encode_utf8;
use vstd::utf8::valid_utf8;

verus! {

/// The numeric value of a hexadecimal digit, and 0 for any other character,
/// mirroring `char::to_digit(16)` with a default of zero.
pub open spec fn hex_digit_value(c: char) -> u8 {
    if '0' <= c && c <= '9' {
        (c as u32 - '0' as u32) as u8
    } else if 'a' <= c && c <= 'f' {
        (c as u32 - 'a' as u32 + 10) as u8
    } else if 'A' <= c && c <= 'F' {
        (c as u32 - 'A' as u32 + 10) as u8
    } else {
        0
    }
}

fn hex_digit(c: char) -> (r: u8)
    ensures
        r == hex_digit_value(c),
        r < 16,
{
    let u = c as u32;
    if 0x30 <= u && u <= 0x39 {
        (u - 0x30) as u8
    } else if 0x61 <= u && u <= 0x66 {
        (u - 0x61 + 10) as u8
    } else if 0x41 <= u && u <= 0x46 {
        (u - 0x41 + 10) as u8
    } else {
        0
    }
}

/// The low byte of a character's code point: characters outside the
/// one-byte range are truncated, as a `char`-to-`u8` cast would.
pub open spec fn char_low_byte(c: char) -> u8 {
    (c as u32 % 256) as u8
}

/// The byte sequence that percent-decoding accumulates: each `%` consumes
/// up to two following characters as hex digits (missing ones count as 0),
/// every other character contributes its low byte.
pub open spec fn percent_decode_bytes(s: Seq<char>) -> Seq<u8>
    decreases s.len(),
{
    if s.len() == 0 {
        Seq::empty()
    } else if s[0] == '%' {
        if s.len() == 1 {
            seq![0u8]
        } else if s.len() == 2 {
            seq![(hex_digit_value(s[1]) * 0x10) as u8]
        } else {
            seq![(hex_digit_value(s[1]) * 0x10 + hex_digit_value(s[2])) as u8]
                + percent_decode_bytes(s.skip(3))
        }
    } else {
        seq![char_low_byte(s[0])] + percent_decode_bytes(s.skip(1))
    }
}

/// What `percent_decode` returns: the decoded bytes read back as UTF-8,
/// or the empty string when they are not valid UTF-8.
pub open spec fn spec_percent_decode(s: Seq<char>) -> Seq<char> {
    let bytes = percent_decode_bytes(s);
    if valid_utf8(bytes) {
        decode_utf8(bytes)
    } else {
        Seq::empty()
    }
}

/// Relies on `String::from_utf8`: it returns `Ok` exactly when the bytes
/// are a valid UTF-8 encoding, and the returned string then consists of
/// the characters that encoding spells.
#[verifier::external_body]
fn string_from_utf8(bytes: Vec<u8>) -> (r: Option<String>)
    ensures
        r is Some <==> valid_utf8(bytes@),
        r is Some ==> r->Some_0@ == decode_utf8(bytes@),
{
    match String::from_utf8(bytes) {
        Ok(s) => Some(s),
        Err(_) => None,
    }
}

/// Decodes `%XX` escapes in `input`, reading the resulting bytes as UTF-8.
///
/// A trailing `%` with fewer than two following characters never fails:
/// the missing digits are taken as zero.  Invalid UTF-8 yields `""`.
pub fn percent_decode(input: &str) -> (r: String)
    ensures
        r@ == spec_percent_decode(input@),
{
    let n = input.unicode_len();
    let mut bytes: Vec<u8> = Vec::new();
    let mut i: usize = 0;
    proof {
        assert(input@.skip(0) =~= input@);
        assert(Seq::<u8>::empty() + percent_decode_bytes(input@) =~= percent_decode_bytes(
            input@,
        ));
    }
    while i < n
        invariant
            i <= n,
            n == input@.len(),
            percent_decode_bytes(input@) == bytes@ + percent_decode_bytes(
                input@.skip(i as int),
            ),
        decreases n - i,
    {
        let ghost prev = input@.skip(i as int);
        let ghost bytes0 = bytes@;
        let c = input.get_char(i);
        if c == '%' {
            let rem = n - i;
            let h = if rem >= 2 {
                hex_digit(input.get_char(i + 1))
            } else {
                0
            };
            let l = if rem >= 3 {
                hex_digit(input.get_char(i + 2))
            } else {
                0
            };
            let b = h * 0x10 + l;
            bytes.push(b);
            if rem >= 3 {
                i = i + 3;
            } else {
                i = n;
            }
            proof {
                let rest = input@.skip(i as int);
                if prev.len() >= 3 {
                    assert(prev.skip(3) =~= rest);
                } else {
                    assert(rest =~= Seq::<char>::empty());
                }
                assert(percent_decode_bytes(prev) =~= seq![b] + percent_decode_bytes(rest));
                assert(bytes@ + percent_decode_bytes(rest) =~= bytes0 + percent_decode_bytes(
                    prev,
                ));
            }
        } else {
            let b = ((c as u32) % 256) as u8;
            bytes.push(b);
            i = i + 1;
            proof {
                let rest = input@.skip(i as int);
                assert(prev.skip(1) =~= rest);
                assert(percent_decode_bytes(prev) =~= seq![b] + percent_decode_bytes(rest));
                assert(bytes@ + percent_decode_bytes(rest) =~= bytes0 + percent_decode_bytes(
                    prev,
                ));
            }
        }
    }
    proof {
        assert(input@.skip(n as int) =~= Seq::<char>::empty());
        assert(bytes@ + Seq::<u8>::empty() =~= bytes@);
    }
    match string_from_utf8(bytes) {
        Some(s) => s,
        None => String::new(),
    }
}

/// Percent-decoding is the identity on an ASCII string that contains
/// no `%`: every character passes through as itself.
pub proof fn lemma_percent_decode_identity(s: Seq<char>)
    requires
        forall|i: int| 0 <= i < s.len() ==> s[i] != '%',
        is_ascii_chars(s),
    ensures
        spec_percent_decode(s) == s,
{
    lemma_decode_bytes_no_percent(s);
    is_ascii_chars_encode_utf8(s);
    assert(percent_decode_bytes(s) =~= encode_utf8(s));
    encode_utf8_valid_utf8(s);
    encode_utf8_decode_utf8(s);
}

proof fn lemma_decode_bytes_no_percent(s: Seq<char>)
    requires
        forall|i: int| 0 <= i < s.len() ==> s[i] != '%',
        is_ascii_chars(s),
    ensures
        percent_decode_bytes(s).len() == s.len(),
        forall|i: int| 0 <= i < s.len() ==> percent_decode_bytes(s)[i] == s[i] as u8,
    decreases s.len(),
{
    if s.len() > 0 {
        let rest = s.skip(1);
        assert(forall|i: int| 0 <= i < rest.len() ==> rest[i] == s[i + 1]);
        lemma_decode_bytes_no_percent(rest);
        assert((s[0] as u32) < 256);
        assert(char_low_byte(s[0]) == s[0] as u8);
    }
}

} // verus!
