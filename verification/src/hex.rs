//! Hexadecimal text: the digits, their values, and the two directions between
//! byte strings and digit strings.

use vstd::prelude::*;
use vstd::slice::slice_subrange;
use crate::text::{from_chars, to_chars};

verus! {

/// Whether `c` is one of `0-9`, `a-f`, `A-F`.
pub open spec fn is_hex_digit(c: char) -> bool {
    ('0' <= c && c <= '9') || ('a' <= c && c <= 'f') || ('A' <= c && c <= 'F')
}

/// The number a hexadecimal digit stands for; 0 for any other character.
pub open spec fn hex_digit_value(c: char) -> int {
    if '0' <= c && c <= '9' {
        c as int - '0' as int
    } else if 'a' <= c && c <= 'f' {
        c as int - 'a' as int + 10
    } else if 'A' <= c && c <= 'F' {
        c as int - 'A' as int + 10
    } else {
        0
    }
}

/// The lower-case digit for a number below 16.
pub open spec fn lower_hex_digit(n: int) -> char {
    if 0 <= n && n < 10 {
        (n + '0' as int) as char
    } else {
        (n - 10 + 'a' as int) as char
    }
}

/// Value of one digit, or `None` for a character that is no digit.
pub fn digit_value(c: char) -> (r: Option<u8>)
    ensures
        r is Some <==> is_hex_digit(c),
        r matches Some(v) ==> v as int == hex_digit_value(c),
{
    if '0' <= c && c <= '9' {
        Some((c as u32 - '0' as u32) as u8)
    } else if 'a' <= c && c <= 'f' {
        Some((c as u32 - 'a' as u32 + 10) as u8)
    } else if 'A' <= c && c <= 'F' {
        Some((c as u32 - 'A' as u32 + 10) as u8)
    } else {
        None
    }
}

/// Tests for a hexadecimal digit.
pub fn is_digit(c: char) -> (r: bool)
    ensures
        r == is_hex_digit(c),
{
    ('0' <= c && c <= '9') || ('a' <= c && c <= 'f') || ('A' <= c && c <= 'F')
}

/// The lower-case digit of a number below 16.
pub fn digit_char(n: u8) -> (c: char)
    requires
        n < 16,
    ensures
        c == lower_hex_digit(n as int),
        is_hex_digit(c),
        hex_digit_value(c) == n as int,
{
    if n < 10 {
        (n + 48) as char
    } else {
        (n + 87) as char
    }
}

/// Why a text is not the hexadecimal form of a byte string.
#[derive(Clone, Copy, Debug, PartialEq, Eq, Structural)]
pub enum HexError {
    /// The text has an odd number of characters.
    OddLength,
    /// The text has an even number of characters, one of them no digit.
    InvalidDigit,
}

/// The two characters `0x`.
pub open spec fn prefix() -> Seq<char> {
    seq!['0', 'x']
}

/// Whether every character of `s` is a hexadecimal digit.
pub open spec fn all_hex_digits(s: Seq<char>) -> bool {
    forall|i: int| 0 <= i < s.len() ==> is_hex_digit(#[trigger] s[i])
}

/// Whether `s` is the hexadecimal form of some byte string: digits only, two
/// for each byte.
pub open spec fn is_hex_string(s: Seq<char>) -> bool {
    s.len() % 2 == 0 && all_hex_digits(s)
}

/// The byte string that the digits of `s` spell, two digits to a byte, the
/// high half first.
pub open spec fn decoded(s: Seq<char>) -> Seq<u8> {
    Seq::new(
        s.len() / 2,
        |i: int| (16 * hex_digit_value(s[2 * i]) + hex_digit_value(s[2 * i + 1])) as u8,
    )
}

/// The lower-case hexadecimal form of `bytes`, two digits to a byte.
pub open spec fn encoded(bytes: Seq<u8>) -> Seq<char> {
    Seq::new(
        2 * bytes.len(),
        |i: int|
            if i % 2 == 0 {
                lower_hex_digit(bytes[i / 2] as int / 16)
            } else {
                lower_hex_digit(bytes[i / 2] as int % 16)
            },
    )
}

/// The form of `bytes` with `0x` in front.
pub open spec fn encoded_prefixed(bytes: Seq<u8>) -> Seq<char> {
    prefix() + encoded(bytes)
}

/// Reads the digits of `s` as a byte string.
pub fn decode_chars(s: &[char]) -> (r: Result<Vec<u8>, HexError>)
    ensures
        match r {
            Ok(v) => is_hex_string(s@) && v@ == decoded(s@),
            Err(HexError::OddLength) => s@.len() % 2 == 1,
            Err(HexError::InvalidDigit) => s@.len() % 2 == 0 && !all_hex_digits(s@),
        },
{
    if s.len() % 2 != 0 {
        return Err(HexError::OddLength);
    }
    let n: usize = s.len() / 2;
    let mut out: Vec<u8> = Vec::new();
    let mut i: usize = 0;
    while i < n
        invariant
            i <= n,
            2 * n == s@.len(),
            s@.len() <= usize::MAX,
            out@.len() == i,
            forall|j: int| 0 <= j < 2 * i ==> is_hex_digit(#[trigger] s@[j]),
            forall|j: int| 0 <= j < i ==> out@[j] == decoded(s@)[j],
        decreases n - i,
    {
        let hi = digit_value(s[2 * i]);
        let lo = digit_value(s[2 * i + 1]);
        match (hi, lo) {
            (Some(h), Some(l)) => {
                out.push(16 * h + l);
            },
            _ => {
                return Err(HexError::InvalidDigit);
            },
        }
        i += 1;
    }
    assert(out@ =~= decoded(s@));
    Ok(out)
}

/// Reads a text of hexadecimal digits as a byte string.
pub fn decode(text: &str) -> (r: Result<Vec<u8>, HexError>)
    ensures
        match r {
            Ok(v) => is_hex_string(text@) && v@ == decoded(text@),
            Err(HexError::OddLength) => text@.len() % 2 == 1,
            Err(HexError::InvalidDigit) => text@.len() % 2 == 0 && !all_hex_digits(text@),
        },
{
    let chars = to_chars(text);
    decode_chars(chars.as_slice())
}

/// Whether `s` starts with `0x`.
pub open spec fn has_prefix(s: Seq<char>) -> bool {
    s.len() >= 2 && s[0] == '0' && s[1] == 'x'
}

/// What a text with `0x` in front spells: the bytes of the digits behind the
/// prefix, or `None` where the prefix is missing or what follows is not the
/// hexadecimal form of a byte string.
pub open spec fn decoded_prefixed(s: Seq<char>) -> Option<Seq<u8>> {
    if has_prefix(s) && is_hex_string(s.subrange(2, s.len() as int)) {
        Some(decoded(s.subrange(2, s.len() as int)))
    } else {
        None
    }
}

/// Reads a text that starts with `0x` and goes on with hexadecimal digits as
/// a byte string; `None` for any other text.
pub fn decode_prefixed_chars(s: &[char]) -> (r: Option<Vec<u8>>)
    ensures
        match r {
            Some(v) => decoded_prefixed(s@) == Some(v@),
            None => decoded_prefixed(s@) is None,
        },
{
    if s.len() < 2 || s[0] != '0' || s[1] != 'x' {
        return None;
    }
    let rest = slice_subrange(s, 2, s.len());
    match decode_chars(rest) {
        Ok(v) => Some(v),
        Err(_) => None,
    }
}

/// Reads a text that starts with `0x` and goes on with hexadecimal digits as
/// a byte string; `None` for any other text.
pub fn decode_prefixed(text: &str) -> (r: Option<Vec<u8>>)
    ensures
        match r {
            Some(v) => decoded_prefixed(text@) == Some(v@),
            None => decoded_prefixed(text@) is None,
        },
{
    let chars = to_chars(text);
    decode_prefixed_chars(chars.as_slice())
}

/// The lower-case hexadecimal digits of `bytes`.
pub fn encode_chars(bytes: &[u8]) -> (r: Vec<char>)
    ensures
        r@ == encoded(bytes@),
{
    let mut out: Vec<char> = Vec::new();
    let mut i: usize = 0;
    while i < bytes.len()
        invariant
            i <= bytes.len(),
            out@.len() == 2 * i,
            forall|j: int| 0 <= j < 2 * i ==> out@[j] == encoded(bytes@)[j],
        decreases bytes.len() - i,
    {
        let b = bytes[i];
        out.push(digit_char(b / 16));
        out.push(digit_char(b % 16));
        i += 1;
    }
    assert(out@ =~= encoded(bytes@));
    out
}

/// The lower-case hexadecimal form of `bytes`, without a prefix.
pub fn encode(bytes: &[u8]) -> (r: String)
    ensures
        r@ == encoded(bytes@),
{
    let chars = encode_chars(bytes);
    from_chars(chars.as_slice())
}

/// The digits of `bytes` behind `0x`, as characters.
pub fn prefixed_chars(bytes: &[u8]) -> (r: Vec<char>)
    ensures
        r@ == encoded_prefixed(bytes@),
{
    let mut out: Vec<char> = Vec::new();
    out.push('0');
    out.push('x');
    let mut digits = encode_chars(bytes);
    out.append(&mut digits);
    assert(out@ =~= encoded_prefixed(bytes@));
    out
}

/// The full hexadecimal form of `bytes`: `0x` and then two lower-case digits
/// for every byte, none left out.
pub fn bytes_to_hex(bytes: &[u8]) -> (r: String)
    ensures
        r@ == encoded_prefixed(bytes@),
        r@.len() == 2 + 2 * bytes@.len(),
{
    let chars = prefixed_chars(bytes);
    from_chars(chars.as_slice())
}

/// Encoding gives a text that decodes, and decodes to the bytes it came from.
pub proof fn lemma_decode_encoded(bytes: Seq<u8>)
    ensures
        is_hex_string(encoded(bytes)),
        decoded(encoded(bytes)) == bytes,
{
    let e = encoded(bytes);
    assert forall|i: int| 0 <= i < e.len() implies is_hex_digit(#[trigger] e[i]) by {
        lemma_lower_digit(bytes[i / 2] as int / 16);
        lemma_lower_digit(bytes[i / 2] as int % 16);
    }
    assert forall|i: int| 0 <= i < bytes.len() implies decoded(e)[i] == bytes[i] by {
        let b = bytes[i] as int;
        lemma_lower_digit(b / 16);
        lemma_lower_digit(b % 16);
        assert(e[2 * i] == lower_hex_digit(b / 16));
        assert(e[2 * i + 1] == lower_hex_digit(b % 16));
    }
    assert(decoded(e) =~= bytes);
}

/// The prefixed form of a byte string decodes to that byte string.
pub proof fn lemma_decode_prefixed_encoded(bytes: Seq<u8>)
    ensures
        decoded_prefixed(encoded_prefixed(bytes)) == Some(bytes),
{
    let p = encoded_prefixed(bytes);
    lemma_decode_encoded(bytes);
    assert(p.subrange(2, p.len() as int) =~= encoded(bytes));
}

/// A number below 16 and its lower-case digit stand for each other.
pub proof fn lemma_lower_digit(n: int)
    requires
        0 <= n < 16,
    ensures
        is_hex_digit(lower_hex_digit(n)),
        hex_digit_value(lower_hex_digit(n)) == n,
{
}

} // verus!
