//! Colours and the hexadecimal notation that themes write them in.

use vstd::prelude::*;
use vstd::string::StrSliceExecFns;

verus! {

/// An RGBA colour with eight bits per channel.
#[derive(Clone, Copy, Debug, PartialEq, Eq, Structural)]
pub struct Color {
    pub red: u8,
    pub green: u8,
    pub blue: u8,
    pub alpha: u8,
}

/// Why a text is not a colour.
#[derive(Clone, Copy, Debug, PartialEq, Eq, Structural)]
pub enum ColorParseError {
    /// The text, without its leading `#`, has `digits` characters, which is
    /// none of 3, 4, 6 and 8.
    WrongLength { digits: usize },
    /// The character `found`, at position `index` of the text, is the first
    /// one that is no hexadecimal digit.
    NotHexDigit { index: usize, found: char },
}

/// The value of a hexadecimal digit, in either case.
pub open spec fn hex_value(c: char) -> Option<u8> {
    if '0' <= c <= '9' {
        Some((c as u32 - '0' as u32) as u8)
    } else if 'a' <= c <= 'f' {
        Some((c as u32 - 'a' as u32 + 10) as u8)
    } else if 'A' <= c <= 'F' {
        Some((c as u32 - 'A' as u32 + 10) as u8)
    } else {
        None
    }
}

/// The digits of a colour text: the text without its leading `#`, if it has one.
pub open spec fn hex_digits(text: Seq<char>) -> Seq<char> {
    if text.len() > 0 && text[0] == '#' {
        text.subrange(1, text.len() as int)
    } else {
        text
    }
}

/// Whether a colour may be written with `n` digits.
pub open spec fn is_color_length(n: nat) -> bool {
    n == 3 || n == 4 || n == 6 || n == 8
}

/// The first position at or after `from` whose character is no hexadecimal
/// digit, or the length of `digits` if there is none.
pub open spec fn first_non_hex(digits: Seq<char>, from: int) -> int
    decreases digits.len() - from,
{
    if from < 0 || from >= digits.len() {
        digits.len() as int
    } else if hex_value(digits[from]) is None {
        from
    } else {
        first_non_hex(digits, from + 1)
    }
}

/// The channel that two hexadecimal digits write, the high one first.
pub open spec fn channel(high: char, low: char) -> u8 {
    (hex_value(high).unwrap() * 16 + hex_value(low).unwrap()) as u8
}

/// The colour that 3, 4, 6 or 8 hexadecimal digits write. A short form gives
/// one digit per channel, which stands for that digit twice; a form without
/// alpha is opaque.
pub open spec fn color_of_digits(d: Seq<char>) -> Color {
    if d.len() == 3 {
        Color { red: channel(d[0], d[0]), green: channel(d[1], d[1]), blue: channel(d[2], d[2]), alpha: 255 }
    } else if d.len() == 4 {
        Color {
            red: channel(d[0], d[0]),
            green: channel(d[1], d[1]),
            blue: channel(d[2], d[2]),
            alpha: channel(d[3], d[3]),
        }
    } else if d.len() == 6 {
        Color { red: channel(d[0], d[1]), green: channel(d[2], d[3]), blue: channel(d[4], d[5]), alpha: 255 }
    } else {
        Color {
            red: channel(d[0], d[1]),
            green: channel(d[2], d[3]),
            blue: channel(d[4], d[5]),
            alpha: channel(d[6], d[7]),
        }
    }
}

/// What a colour text means: `rgb`, `rgba`, `rrggbb` or `rrggbbaa` in
/// hexadecimal digits of either case, with or without one leading `#`.
pub open spec fn parse_hex_color(text: Seq<char>) -> Result<Color, ColorParseError> {
    let digits = hex_digits(text);
    let bad = first_non_hex(digits, 0);
    if !is_color_length(digits.len()) {
        Err(ColorParseError::WrongLength { digits: digits.len() as usize })
    } else if bad < digits.len() {
        Err(
            ColorParseError::NotHexDigit {
                index: (bad + text.len() - digits.len()) as usize,
                found: digits[bad],
            },
        )
    } else {
        Ok(color_of_digits(digits))
    }
}

impl Color {
    /// An opaque colour from its three channels.
    pub fn rgb8(red: u8, green: u8, blue: u8) -> (color: Color)
        ensures
            color == (Color { red, green, blue, alpha: 255 }),
    {
        Color { red, green, blue, alpha: 255 }
    }

    /// A colour from its four channels.
    pub fn rgba8(red: u8, green: u8, blue: u8, alpha: u8) -> (color: Color)
        ensures
            color == (Color { red, green, blue, alpha }),
    {
        Color { red, green, blue, alpha }
    }
}

/// The value of `c` as a hexadecimal digit, if it is one.
pub fn hex_digit(c: char) -> (value: Option<u8>)
    ensures
        value == hex_value(c),
        value matches Some(v) ==> v < 16,
{
    let code: u32 = c as u32;
    if code >= 48 && code <= 57 {
        Some((code - 48) as u8)
    } else if code >= 97 && code <= 102 {
        Some((code - 97 + 10) as u8)
    } else if code >= 65 && code <= 70 {
        Some((code - 65 + 10) as u8)
    } else {
        None
    }
}

/// `first_non_hex` skips a run of hexadecimal digits.
proof fn lemma_first_non_hex_skips(digits: Seq<char>, from: int, upto: int)
    requires
        0 <= from <= upto <= digits.len(),
        forall|j: int| from <= j < upto ==> hex_value(#[trigger] digits[j]) is Some,
    ensures
        first_non_hex(digits, from) == first_non_hex(digits, upto),
    decreases upto - from,
{
    if from < upto {
        lemma_first_non_hex_skips(digits, from + 1, upto);
    }
}

/// One channel from its two digit values.
fn join_digits(high: u8, low: u8) -> (value: u8)
    requires
        high < 16,
        low < 16,
    ensures
        value == high * 16 + low,
{
    high * 16 + low
}

/// Reads a colour written as `rgb`, `rgba`, `rrggbb` or `rrggbbaa` in
/// hexadecimal digits of either case, with or without one leading `#`.
///
/// A text of another length is refused with its number of digits; otherwise
/// the first character that is no hexadecimal digit is reported with its
/// position in `text`.
pub fn hex_to_color(text: &str) -> (result: Result<Color, ColorParseError>)
    ensures
        result == parse_hex_color(text@),
{
    let len: usize = text.unicode_len();
    let start: usize = if len > 0 && text.get_char(0) == '#' {
        1
    } else {
        0
    };
    let count: usize = len - start;
    let ghost digits = hex_digits(text@);
    assert(digits.len() == count);
    if !(count == 3 || count == 4 || count == 6 || count == 8) {
        return Err(ColorParseError::WrongLength { digits: count });
    }
    let mut values: Vec<u8> = Vec::new();
    let mut i: usize = 0;
    while i < count
        invariant
            i <= count,
            is_color_length(count as nat),
            len == text@.len(),
            len == start + count,
            digits == hex_digits(text@),
            digits.len() == count,
            forall|j: int| 0 <= j < count ==> digits[j] == text@[start + j],
            values@.len() == i,
            forall|j: int| 0 <= j < i ==> hex_value(#[trigger] digits[j]) == Some(values@[j]),
            forall|j: int| 0 <= j < i ==> values@[j] < 16,
        decreases count - i,
    {
        let c = text.get_char(start + i);
        match hex_digit(c) {
            Some(v) => {
                values.push(v);
            },
            None => {
                proof {
                    lemma_first_non_hex_skips(digits, 0, i as int);
                    assert(digits[i as int] == c);
                    assert(first_non_hex(digits, i as int) == i);
                }
                return Err(ColorParseError::NotHexDigit { index: start + i, found: c });
            },
        }
        i += 1;
    }
    proof {
        lemma_first_non_hex_skips(digits, 0, count as int);
    }
    let color = if count == 3 {
        Color {
            red: join_digits(values[0], values[0]),
            green: join_digits(values[1], values[1]),
            blue: join_digits(values[2], values[2]),
            alpha: 255,
        }
    } else if count == 4 {
        Color {
            red: join_digits(values[0], values[0]),
            green: join_digits(values[1], values[1]),
            blue: join_digits(values[2], values[2]),
            alpha: join_digits(values[3], values[3]),
        }
    } else if count == 6 {
        Color {
            red: join_digits(values[0], values[1]),
            green: join_digits(values[2], values[3]),
            blue: join_digits(values[4], values[5]),
            alpha: 255,
        }
    } else {
        Color {
            red: join_digits(values[0], values[1]),
            green: join_digits(values[2], values[3]),
            blue: join_digits(values[4], values[5]),
            alpha: join_digits(values[6], values[7]),
        }
    };
    Ok(color)
}

} // verus!
