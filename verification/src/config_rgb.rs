//! A colour as three bytes.

use crate::hex::{hex_pair, push_hex};
use vstd::prelude::*;
use vstd::string::StringExecFns;

verus! {

/// Red, green and blue.
#[derive(Debug, Clone, Copy, PartialEq, Eq, Structural)]
pub struct Rgb(pub u8, pub u8, pub u8);

impl Rgb {
    pub fn from_tuple(rgb: (u8, u8, u8)) -> (r: Self)
        ensures
            r == Rgb(rgb.0, rgb.1, rgb.2),
    {
        Rgb(rgb.0, rgb.1, rgb.2)
    }

    pub fn rgb(&self) -> (r: (u8, u8, u8))
        ensures
            r == (self.0, self.1, self.2),
    {
        (self.0, self.1, self.2)
    }
}

/// Why a text is no colour.
#[derive(Debug, Clone, Copy, PartialEq, Eq, Structural)]
pub enum RgbError {
    /// The text is not `#` and six more bytes.
    Format,
    /// The two bytes of the red part are no number.
    Red,
    /// The two bytes of the green part are no number.
    Green,
    /// The two bytes of the blue part are no number.
    Blue,
}

/// The value of a hexadecimal digit, in either case.
pub open spec fn digit_value(byte: u8) -> Option<u8> {
    if 0x30 <= byte <= 0x39 {
        Some((byte - 0x30) as u8)
    } else if 0x41 <= byte <= 0x46 {
        Some((byte - 0x41 + 10) as u8)
    } else if 0x61 <= byte <= 0x66 {
        Some((byte - 0x61 + 10) as u8)
    } else {
        None
    }
}

/// The number that two bytes spell in hexadecimal digits. As where numbers
/// are read from text elsewhere, a plus sign may stand for the first digit.
pub open spec fn part_value(hi: u8, lo: u8) -> Option<u8> {
    match digit_value(lo) {
        Some(l) => if hi == 0x2b {
            Some(l)
        } else {
            match digit_value(hi) {
                Some(h) => Some((h * 16 + l) as u8),
                None => None,
            }
        },
        None => None,
    }
}

/// The colour that the bytes of a text spell: `#`, then two hexadecimal
/// digits each for red, green and blue.
pub open spec fn parsed(bytes: Seq<u8>) -> Result<Rgb, RgbError> {
    if bytes.len() != 7 || bytes[0] != 0x23 {
        Err(RgbError::Format)
    } else {
        match part_value(bytes[1], bytes[2]) {
            None => Err(RgbError::Red),
            Some(r) => match part_value(bytes[3], bytes[4]) {
                None => Err(RgbError::Green),
                Some(g) => match part_value(bytes[5], bytes[6]) {
                    None => Err(RgbError::Blue),
                    Some(b) => Ok(Rgb(r, g, b)),
                },
            },
        }
    }
}

fn digit_of(byte: u8) -> (r: Option<u8>)
    ensures
        r == digit_value(byte),
{
    if 0x30 <= byte && byte <= 0x39 {
        Some(byte - 0x30)
    } else if 0x41 <= byte && byte <= 0x46 {
        Some(byte - 0x41 + 10)
    } else if 0x61 <= byte && byte <= 0x66 {
        Some(byte - 0x61 + 10)
    } else {
        None
    }
}

fn part_of(hi: u8, lo: u8) -> (r: Option<u8>)
    ensures
        r == part_value(hi, lo),
{
    match digit_of(lo) {
        Some(l) => {
            if hi == 0x2b {
                Some(l)
            } else {
                match digit_of(hi) {
                    Some(h) => Some(h * 16 + l),
                    None => None,
                }
            }
        },
        None => None,
    }
}

impl Rgb {
    /// The colour as text: `#` and two small hexadecimal digits each for
    /// red, green and blue.
    pub open spec fn text(self) -> Seq<char> {
        "#"@ + hex_pair(self.0, false) + hex_pair(self.1, false) + hex_pair(self.2, false)
    }

    /// The colour as text, as the configuration holds it.
    pub fn to_hex(&self) -> (r: String)
        ensures
            r@ == self.text(),
    {
        let mut text = String::from_str("#");
        push_hex(&mut text, self.0, false);
        push_hex(&mut text, self.1, false);
        push_hex(&mut text, self.2, false);
        text
    }

    /// Reads a colour from the bytes of a text.
    pub fn parse(bytes: &[u8]) -> (r: Result<Rgb, RgbError>)
        ensures
            r == parsed(bytes@),
    {
        if bytes.len() != 7 || bytes[0] != 0x23 {
            return Err(RgbError::Format);
        }
        let r = match part_of(bytes[1], bytes[2]) {
            Some(r) => r,
            None => {
                return Err(RgbError::Red);
            },
        };
        let g = match part_of(bytes[3], bytes[4]) {
            Some(g) => g,
            None => {
                return Err(RgbError::Green);
            },
        };
        let b = match part_of(bytes[5], bytes[6]) {
            Some(b) => b,
            None => {
                return Err(RgbError::Blue);
            },
        };
        Ok(Rgb(r, g, b))
    }
}

/// The small hexadecimal digit of a value below sixteen, as a byte.
pub open spec fn digit_byte(value: int) -> u8 {
    if value < 10 {
        (0x30 + value) as u8
    } else {
        (0x61 + value - 10) as u8
    }
}

/// The bytes of the text of a colour.
pub open spec fn text_bytes(c: Rgb) -> Seq<u8> {
    seq![
        0x23u8,
        digit_byte(c.0 as int / 16),
        digit_byte(c.0 as int % 16),
        digit_byte(c.1 as int / 16),
        digit_byte(c.1 as int % 16),
        digit_byte(c.2 as int / 16),
        digit_byte(c.2 as int % 16),
    ]
}

/// A colour written as text and read again is the same colour.
pub proof fn lemma_rgb_round_trip(c: Rgb)
    ensures
        parsed(text_bytes(c)) == Ok::<Rgb, RgbError>(c),
{
    lemma_part_round_trip(c.0);
    lemma_part_round_trip(c.1);
    lemma_part_round_trip(c.2);
}

proof fn lemma_part_round_trip(value: u8)
    ensures
        part_value(digit_byte(value as int / 16), digit_byte(value as int % 16)) == Some(value),
{
}

} // verus!
