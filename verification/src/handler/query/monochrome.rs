//! The `monochrome` parameter: a colour in hexadecimal notation.

use vstd::prelude::*;
use vstd::utf8::char_is_scalar;
use vstd::utf8::encode_scalar;
use vstd::utf8::encode_utf8;

use crate::handler::query::error::Error;
use crate::handler::query::text::chars_of;

verus! {

/// A colour, with or without an alpha channel.
#[derive(Debug, PartialEq, Eq, Clone, Copy, Structural)]
pub enum MonoChrome {
    /// Red, green and blue.
    RGB(u8, u8, u8),
    /// Alpha, red, green and blue.
    ARGB(u8, u8, u8, u8),
}

/// The value of a hexadecimal digit, of either case.
pub open spec fn hex_value(c: char) -> Option<int> {
    if '0' <= c <= '9' {
        Some(c as u32 - '0' as u32)
    } else if 'a' <= c <= 'f' {
        Some(c as u32 - 'a' as u32 + 10)
    } else if 'A' <= c <= 'F' {
        Some(c as u32 - 'A' as u32 + 10)
    } else {
        None
    }
}

/// Whether every character is a hexadecimal digit.
pub open spec fn all_hex(digits: Seq<char>) -> bool {
    forall|i: int| 0 <= i < digits.len() ==> hex_value(#[trigger] digits[i]) is Some
}

/// `s` without the `#` signs at its start.
pub open spec fn strip_hashes(s: Seq<char>) -> Seq<char>
    decreases s.len(),
{
    if s.len() > 0 && s.first() == '#' {
        strip_hashes(s.drop_first())
    } else {
        s
    }
}

/// The channel that the two digits at `at` and `at + 1` spell out.
pub open spec fn long_channel(digits: Seq<char>, at: int) -> int {
    16 * hex_value(digits[at])->0 + hex_value(digits[at + 1])->0
}

/// The channel that the single digit at `at` stands for: the digit, doubled.
pub open spec fn short_channel(digits: Seq<char>, at: int) -> int {
    17 * hex_value(digits[at])->0
}

/// The colour that a run of hexadecimal digits denotes, by its length.
pub open spec fn color_of(digits: Seq<char>) -> MonoChrome
    recommends
        all_hex(digits),
        digits.len() == 3 || digits.len() == 4 || digits.len() == 6 || digits.len() == 8,
{
    if digits.len() == 8 {
        MonoChrome::ARGB(
            long_channel(digits, 0) as u8,
            long_channel(digits, 2) as u8,
            long_channel(digits, 4) as u8,
            long_channel(digits, 6) as u8,
        )
    } else if digits.len() == 6 {
        MonoChrome::RGB(
            long_channel(digits, 0) as u8,
            long_channel(digits, 2) as u8,
            long_channel(digits, 4) as u8,
        )
    } else if digits.len() == 4 {
        MonoChrome::ARGB(
            short_channel(digits, 0) as u8,
            short_channel(digits, 1) as u8,
            short_channel(digits, 2) as u8,
            short_channel(digits, 3) as u8,
        )
    } else {
        MonoChrome::RGB(
            short_channel(digits, 0) as u8,
            short_channel(digits, 1) as u8,
            short_channel(digits, 2) as u8,
        )
    }
}

/// The number of bytes that a text takes in UTF-8.
pub open spec fn byte_len(text: Seq<char>) -> nat {
    encode_utf8(text).len()
}

/// What reading a colour from `value` gives. Any `#` signs at the start are
/// skipped. Of what follows, the number of bytes in UTF-8 decides first: 8
/// or 4 of them are a colour with alpha, 6 or 3 one without, and any other
/// number is no colour. Then every character must be a hexadecimal digit,
/// each of which is one byte.
pub open spec fn spec_parse(value: Seq<char>) -> Result<MonoChrome, Error> {
    let digits = strip_hashes(value);
    let bytes = byte_len(digits);
    if !(bytes == 3 || bytes == 4 || bytes == 6 || bytes == 8) {
        Err(Error::InvalidHexColor)
    } else if !all_hex(digits) {
        Err(Error::InvalidHexDigit)
    } else {
        Ok(color_of(digits))
    }
}

/// A text of hexadecimal digits takes one byte for each of them.
pub proof fn lemma_digits_are_single_bytes(digits: Seq<char>)
    requires
        all_hex(digits),
    ensures
        byte_len(digits) == digits.len(),
    decreases digits.len(),
{
    if digits.len() > 0 {
        let rest = digits.drop_first();
        assert(forall|i: int| 0 <= i < rest.len() ==> rest[i] == digits[i + 1]);
        lemma_digits_are_single_bytes(rest);
        assert(hex_value(digits[0]) is Some);
    }
}

/// The number of bytes that a character takes in UTF-8.
fn utf8_width(c: char) -> (width: u8)
    ensures
        width == encode_scalar(c as u32).len(),
        1 <= width <= 4,
{
    proof {
        char_is_scalar(c);
    }
    let code: u32 = c as u32;
    if code < 0x80 {
        1
    } else if code < 0x800 {
        2
    } else if code < 0x10000 {
        3
    } else {
        4
    }
}

/// The number of bytes that the characters take in UTF-8.
fn byte_length(text: &Vec<char>) -> (bytes: u128)
    ensures
        bytes == byte_len(text@),
{
    let mut bytes: u128 = 0;
    let mut i: usize = text.len();
    while i > 0
        invariant
            i <= text.len(),
            bytes == encode_utf8(text@.skip(i as int)).len(),
            bytes <= 4 * (text.len() - i),
        decreases i,
    {
        i -= 1;
        proof {
            assert(text@.skip(i as int).drop_first() =~= text@.skip(i + 1));
        }
        bytes += utf8_width(text[i]) as u128;
    }
    assert(text@.skip(0) =~= text@);
    bytes
}

/// `strip_hashes` drops the first `from` characters, if they are all `#` and
/// the one after them is not.
proof fn lemma_strip_hashes_skips(s: Seq<char>, from: int)
    requires
        0 <= from <= s.len(),
        forall|i: int| 0 <= i < from ==> #[trigger] s[i] == '#',
        from < s.len() ==> s[from] != '#',
    ensures
        strip_hashes(s) == s.skip(from),
    decreases from,
{
    if from == 0 {
        assert(s.skip(0) =~= s);
    } else {
        let rest = s.drop_first();
        assert(forall|i: int| 0 <= i < from - 1 ==> rest[i] == s[i + 1]);
        lemma_strip_hashes_skips(rest, from - 1);
        assert(rest.skip(from - 1) =~= s.skip(from));
    }
}

/// The value of a hexadecimal digit, or nothing for any other character.
pub fn hex_digit(c: char) -> (value: Option<u8>)
    ensures
        value is Some <==> hex_value(c) is Some,
        value is Some ==> value->0 == hex_value(c)->0 && value->0 < 16,
{
    let code: u32 = c as u32;
    if '0' <= c && c <= '9' {
        Some((code - 0x30) as u8)
    } else if 'a' <= c && c <= 'f' {
        Some((code - 0x61 + 10) as u8)
    } else if 'A' <= c && c <= 'F' {
        Some((code - 0x41 + 10) as u8)
    } else {
        None
    }
}

/// The channel spelt out by the two digits at `at`, or nothing if one of the
/// two characters is no digit.
fn read_long(digits: &Vec<char>, at: usize) -> (channel: Option<u8>)
    requires
        at + 1 < digits@.len(),
    ensures
        channel is Some <==> hex_value(digits@[at as int]) is Some && hex_value(
            digits@[at + 1],
        ) is Some,
        channel is Some ==> channel->0 == long_channel(digits@, at as int),
{
    assert(digits@.len() == digits.len());
    match (hex_digit(digits[at]), hex_digit(digits[at + 1])) {
        (Some(high), Some(low)) => Some(16 * high + low),
        _ => None,
    }
}

/// The channel that the digit at `at` stands for, or nothing if the character
/// there is no digit.
fn read_short(digits: &Vec<char>, at: usize) -> (channel: Option<u8>)
    requires
        at < digits@.len(),
    ensures
        channel is Some <==> hex_value(digits@[at as int]) is Some,
        channel is Some ==> channel->0 == short_channel(digits@, at as int),
{
    match hex_digit(digits[at]) {
        Some(digit) => Some(17 * digit),
        None => None,
    }
}

impl MonoChrome {
    /// Reads a colour: `RRGGBB` or `AARRGGBB` in hexadecimal digits, or the
    /// short forms `RGB` and `ARGB`, in which each digit stands for itself
    /// twice. Any number of `#` signs may come first. A value of any other
    /// length in bytes is no colour, whatever it holds; a value of one of
    /// these lengths that holds anything but hexadecimal digits is rejected
    /// for that.
    pub fn parse(value: &str) -> (color: Result<MonoChrome, Error>)
        ensures
            color == spec_parse(value@),
    {
        let chars = chars_of(value);
        let mut from: usize = 0;
        while from < chars.len() && chars[from] == '#'
            invariant
                from <= chars.len(),
                forall|i: int| 0 <= i < from ==> #[trigger] chars@[i] == '#',
            decreases chars.len() - from,
        {
            from += 1;
        }
        let mut digits: Vec<char> = Vec::new();
        let mut i: usize = from;
        while i < chars.len()
            invariant
                from <= i <= chars.len(),
                digits@ == chars@.subrange(from as int, i as int),
            decreases chars.len() - i,
        {
            digits.push(chars[i]);
            assert(chars@.subrange(from as int, i as int).push(chars@[i as int])
                =~= chars@.subrange(from as int, i + 1));
            i += 1;
        }
        proof {
            lemma_strip_hashes_skips(chars@, from as int);
            assert(chars@.subrange(from as int, chars.len() as int) =~= chars@.skip(from as int));
        }
        let bytes: u128 = byte_length(&digits);
        if !(bytes == 3 || bytes == 4 || bytes == 6 || bytes == 8) {
            return Err(Error::InvalidHexColor);
        }
        let n: usize = digits.len();
        let mut k: usize = 0;
        while k < n
            invariant
                k <= n,
                n == digits@.len(),
                digits@ == strip_hashes(value@),
                bytes == byte_len(digits@),
                bytes == 3 || bytes == 4 || bytes == 6 || bytes == 8,
                forall|j: int| 0 <= j < k ==> hex_value(#[trigger] digits@[j]) is Some,
            decreases n - k,
        {
            if hex_digit(digits[k]).is_none() {
                assert(hex_value(digits@[k as int]) is None);
                return Err(Error::InvalidHexDigit);
            }
            k += 1;
        }
        proof {
            assert(all_hex(digits@));
            lemma_digits_are_single_bytes(digits@);
        }
        if n == 8 {
            match (
                read_long(&digits, 0),
                read_long(&digits, 2),
                read_long(&digits, 4),
                read_long(&digits, 6),
            ) {
                (Some(a), Some(r), Some(g), Some(b)) => {
                    assert(all_hex(digits@)) by {
                        assert forall|i: int| 0 <= i < digits@.len() implies hex_value(
                            #[trigger] digits@[i],
                        ) is Some by {
                            assert(i == 0 || i == 1 || i == 2 || i == 3 || i == 4 || i == 5 || i
                                == 6 || i == 7);
                        }
                    }
                    Ok(MonoChrome::ARGB(a, r, g, b))
                },
                _ => Err(Error::InvalidHexDigit),
            }
        } else if n == 6 {
            match (read_long(&digits, 0), read_long(&digits, 2), read_long(&digits, 4)) {
                (Some(r), Some(g), Some(b)) => {
                    assert(all_hex(digits@)) by {
                        assert forall|i: int| 0 <= i < digits@.len() implies hex_value(
                            #[trigger] digits@[i],
                        ) is Some by {
                            assert(i == 0 || i == 1 || i == 2 || i == 3 || i == 4 || i == 5);
                        }
                    }
                    Ok(MonoChrome::RGB(r, g, b))
                },
                _ => Err(Error::InvalidHexDigit),
            }
        } else if n == 4 {
            match (
                read_short(&digits, 0),
                read_short(&digits, 1),
                read_short(&digits, 2),
                read_short(&digits, 3),
            ) {
                (Some(a), Some(r), Some(g), Some(b)) => {
                    assert(all_hex(digits@)) by {
                        assert forall|i: int| 0 <= i < digits@.len() implies hex_value(
                            #[trigger] digits@[i],
                        ) is Some by {
                            assert(i == 0 || i == 1 || i == 2 || i == 3);
                        }
                    }
                    Ok(MonoChrome::ARGB(a, r, g, b))
                },
                _ => Err(Error::InvalidHexDigit),
            }
        } else if n == 3 {
            match (read_short(&digits, 0), read_short(&digits, 1), read_short(&digits, 2)) {
                (Some(r), Some(g), Some(b)) => {
                    assert(all_hex(digits@)) by {
                        assert forall|i: int| 0 <= i < digits@.len() implies hex_value(
                            #[trigger] digits@[i],
                        ) is Some by {
                            assert(i == 0 || i == 1 || i == 2);
                        }
                    }
                    Ok(MonoChrome::RGB(r, g, b))
                },
                _ => Err(Error::InvalidHexDigit),
            }
        } else {
            Err(Error::InvalidHexColor)
        }
    }
}

/// A value that takes, after any `#` signs, a number of bytes other than 3,
/// 4, 6 or 8 is never read as a colour: it is rejected for its length,
/// whatever it holds.
pub proof fn lemma_wrong_length_is_rejected(value: Seq<char>)
    requires
        ({
            let n = byte_len(strip_hashes(value));
            n != 3 && n != 4 && n != 6 && n != 8
        }),
    ensures
        spec_parse(value) == Err::<MonoChrome, Error>(Error::InvalidHexColor),
{
}

} // verus!
