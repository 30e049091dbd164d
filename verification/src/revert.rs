//! Reading a lookup descriptor out of the text of a revert.

use vstd::prelude::*;
use vstd::slice::slice_subrange;
use crate::abi::{abi_lookup, decode_lookup_tuple};
use crate::hex::{all_hex_digits, decode_chars, decoded, is_digit, is_hex_digit, HexError};
use crate::lookup::{LookupView, OffchainLookup};
use crate::text::to_chars;

verus! {

/// Whether a hexadecimal literal starts at position `i` of `s`: the two
/// characters `0x` and at least one hexadecimal digit.
pub open spec fn literal_at(s: Seq<char>, i: int) -> bool {
    &&& 0 <= i
    &&& i + 2 < s.len()
    &&& s[i] == '0'
    &&& s[i + 1] == 'x'
    &&& is_hex_digit(s[i + 2])
}

/// Whether `s` holds a hexadecimal literal anywhere.
pub open spec fn has_literal(s: Seq<char>) -> bool {
    exists|i: int| literal_at(s, i)
}

/// Whether the first hexadecimal literal of `s` starts at `start` and ends
/// before `end`: no literal starts further left, and the digits behind the
/// prefix run up to `end` and no further.
pub open spec fn is_first_literal(s: Seq<char>, start: int, end: int) -> bool {
    &&& literal_at(s, start)
    &&& forall|j: int| 0 <= j < start ==> !literal_at(s, j)
    &&& start + 2 < end <= s.len()
    &&& forall|k: int| start + 2 <= k < end ==> is_hex_digit(#[trigger] s[k])
    &&& (end < s.len() ==> !is_hex_digit(s[end]))
}

/// Finds the first hexadecimal literal of `s`: where it starts and where its
/// digits end.
pub fn find_literal(s: &[char]) -> (r: Option<(usize, usize)>)
    ensures
        match r {
            Some((start, end)) => is_first_literal(s@, start as int, end as int),
            None => !has_literal(s@),
        },
{
    let mut i: usize = 0;
    while i < s.len()
        invariant
            i <= s.len(),
            forall|j: int| 0 <= j < i ==> !literal_at(s@, j),
        decreases s.len() - i,
    {
        if s.len() - i > 2 && s[i] == '0' && s[i + 1] == 'x' && is_digit(s[i + 2]) {
            let mut end: usize = i + 3;
            while end < s.len() && is_digit(s[end])
                invariant
                    i + 3 <= end <= s.len(),
                    forall|k: int| i + 2 <= k < end ==> is_hex_digit(#[trigger] s@[k]),
                decreases s.len() - end,
            {
                end += 1;
            }
            return Some((i, end));
        }
        i += 1;
    }
    None
}

/// A text has one first literal at most.
pub proof fn lemma_first_literal_unique(s: Seq<char>, a: int, b: int, c: int, d: int)
    requires
        is_first_literal(s, a, b),
        is_first_literal(s, c, d),
    ensures
        a == c,
        b == d,
{
    if a < c {
        assert(!literal_at(s, a));
    }
    if c < a {
        assert(!literal_at(s, c));
    }
    if b < d {
        assert(is_hex_digit(s[b]));
    }
    if d < b {
        assert(is_hex_digit(s[d]));
    }
}

/// The leftmost literal at or behind `from`, where none starts before `from`
/// and one starts at `witness`.
proof fn lemma_leftmost_start(s: Seq<char>, from: int, witness: int) -> (start: int)
    requires
        0 <= from <= witness,
        literal_at(s, witness),
        forall|j: int| 0 <= j < from ==> !literal_at(s, j),
    ensures
        literal_at(s, start),
        forall|j: int| 0 <= j < start ==> !literal_at(s, j),
    decreases witness - from,
{
    if literal_at(s, from) {
        from
    } else {
        lemma_leftmost_start(s, from + 1, witness)
    }
}

/// Where the digits that run from `start + 2` up to `k` come to their end.
proof fn lemma_digits_end(s: Seq<char>, start: int, k: int) -> (end: int)
    requires
        0 <= start,
        start + 2 < k <= s.len(),
        forall|j: int| start + 2 <= j < k ==> is_hex_digit(#[trigger] s[j]),
    ensures
        start + 2 < end <= s.len(),
        forall|j: int| start + 2 <= j < end ==> is_hex_digit(#[trigger] s[j]),
        end < s.len() ==> !is_hex_digit(s[end]),
    decreases s.len() - k,
{
    if k < s.len() && is_hex_digit(s[k]) {
        lemma_digits_end(s, start, k + 1)
    } else {
        k
    }
}

/// A text that holds a literal has a first one.
pub proof fn lemma_first_literal_exists(s: Seq<char>)
    requires
        has_literal(s),
    ensures
        is_first_literal(s, first_literal(s).0, first_literal(s).1),
{
    let witness = choose|i: int| literal_at(s, i);
    let start = lemma_leftmost_start(s, 0, witness);
    let end = lemma_digits_end(s, start, start + 3);
    let p = (start, end);
    assert(is_first_literal(s, p.0, p.1));
}

/// Why the payload of a revert could not be read.
#[derive(Clone, Copy, Debug, PartialEq, Eq, Structural)]
pub enum DecodeError {
    /// The payload has an odd number of digits.
    OddLength,
    /// The payload has an even number of characters, one of them no digit.
    InvalidDigit,
    /// The payload spells bytes that are no ABI encoding of a descriptor.
    Malformed,
    /// The target's `usize` is narrower than 64 bits, where the ABI decoder
    /// is not called.
    WordSize,
}

/// Start and end of the first hexadecimal literal of a text that has one.
pub open spec fn first_literal(s: Seq<char>) -> (int, int) {
    choose|p: (int, int)| is_first_literal(s, p.0, p.1)
}

/// The digits of the first hexadecimal literal of `s`, without the prefix;
/// `None` where `s` holds no literal.
pub open spec fn payload_digits(s: Seq<char>) -> Option<Seq<char>> {
    if has_literal(s) {
        let p = first_literal(s);
        Some(s.subrange(p.0 + 2, p.1))
    } else {
        None
    }
}

/// What a payload of digits holds: the descriptor that the ABI decoder finds
/// in the bytes they spell, or the reason why there is none.
pub open spec fn payload_lookup(digits: Seq<char>) -> Result<LookupView, DecodeError> {
    if digits.len() % 2 == 1 {
        Err(DecodeError::OddLength)
    } else if !all_hex_digits(digits) {
        Err(DecodeError::InvalidDigit)
    } else if usize::BITS != 64 {
        Err(DecodeError::WordSize)
    } else {
        match abi_lookup(decoded(digits)) {
            Some(lookup) => Ok(lookup),
            None => Err(DecodeError::Malformed),
        }
    }
}

/// What the text of a revert holds: nothing where it has no hexadecimal
/// literal, else what the digits of its first literal hold.
pub open spec fn revert_lookup(s: Seq<char>) -> Result<Option<LookupView>, DecodeError> {
    match payload_digits(s) {
        None => Ok(None),
        Some(digits) => match payload_lookup(digits) {
            Ok(lookup) => Ok(Some(lookup)),
            Err(e) => Err(e),
        },
    }
}

/// Reads a payload of hexadecimal digits as a descriptor.
pub fn decode_payload(digits: &[char]) -> (r: Result<OffchainLookup, DecodeError>)
    ensures
        match r {
            Ok(lookup) => payload_lookup(digits@) == Ok::<LookupView, DecodeError>(lookup@),
            Err(e) => payload_lookup(digits@) == Err::<LookupView, DecodeError>(e),
        },
{
    let bytes = match decode_chars(digits) {
        Ok(bytes) => bytes,
        Err(HexError::OddLength) => {
            return Err(DecodeError::OddLength);
        },
        Err(HexError::InvalidDigit) => {
            return Err(DecodeError::InvalidDigit);
        },
    };
    if usize::BITS != 64 {
        return Err(DecodeError::WordSize);
    }
    match decode_lookup_tuple(bytes.as_slice()) {
        Ok(lookup) => Ok(lookup),
        Err(_) => Err(DecodeError::Malformed),
    }
}

/// Reads the descriptor out of the characters of a revert's text: `Ok(None)`
/// where the text holds no hexadecimal literal, whatever else it says; the
/// descriptor where the digits of the first literal hold one; an error where
/// they do not.
pub fn decode_revert_chars(s: &[char]) -> (r: Result<Option<OffchainLookup>, DecodeError>)
    ensures
        match r {
            Ok(Some(lookup)) => revert_lookup(s@) == Ok::<_, DecodeError>(Some(lookup@)),
            Ok(None) => revert_lookup(s@) == Ok::<Option<LookupView>, DecodeError>(None),
            Err(e) => revert_lookup(s@) == Err::<Option<LookupView>, DecodeError>(e),
        },
        !has_literal(s@) ==> r == Ok::<Option<OffchainLookup>, DecodeError>(None),
        r is Err ==> !(r matches Err(DecodeError::InvalidDigit)),
{
    match find_literal(s) {
        None => Ok(None),
        Some((start, end)) => {
            proof {
                let p = first_literal(s@);
                assert(is_first_literal(s@, start as int, end as int));
                lemma_first_literal_unique(s@, start as int, end as int, p.0, p.1);
            }
            let digits = slice_subrange(s, start + 2, end);
            match decode_payload(digits) {
                Ok(lookup) => Ok(Some(lookup)),
                Err(e) => Err(e),
            }
        },
    }
}

/// Reads the descriptor out of the text of a revert.
pub fn decode_revert(text: &str) -> (r: Result<Option<OffchainLookup>, DecodeError>)
    ensures
        match r {
            Ok(Some(lookup)) => revert_lookup(text@) == Ok::<_, DecodeError>(Some(lookup@)),
            Ok(None) => revert_lookup(text@) == Ok::<Option<LookupView>, DecodeError>(None),
            Err(e) => revert_lookup(text@) == Err::<Option<LookupView>, DecodeError>(e),
        },
        !has_literal(text@) ==> r == Ok::<Option<OffchainLookup>, DecodeError>(None),
        r is Err ==> !(r matches Err(DecodeError::InvalidDigit)),
{
    let chars = to_chars(text);
    decode_revert_chars(chars.as_slice())
}

} // verus!
