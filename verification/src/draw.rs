//! What is drawn where, as far as it can be told without a window: which
//! glyph shows a character, and what the indicators of octave and velocity
//! show.

use crate::config_font::Font;
use crate::m8::{SCREEN_HEIGHT, SCREEN_WIDTH};
use vstd::prelude::*;

verus! {

/// Height of a line of the menu, in pixels.
pub const LINE_HEIGHT: i32 = 10;

/// The glyph of the font sheet that shows the character `c` in the font
/// chosen: the capital or the small letter, and the zero with a dot for the
/// fonts that have it.
pub open spec fn glyph_of(font: Font, c: u8) -> u8 {
    if font == Font::UpperAltZero && c == 0x30 {
        125
    } else if font == Font::LowerAltZero && c == 0x30 {
        123
    } else if font == Font::Uppercase || font == Font::UpperAltZero {
        if 0x61 <= c <= 0x7a {
            (c - 32) as u8
        } else {
            c
        }
    } else {
        if 0x41 <= c <= 0x5a {
            (c + 32) as u8
        } else {
            c
        }
    }
}

/// The glyph of the font sheet that shows the character `c`.
pub fn glyph(font: Font, c: u8) -> (r: u8)
    ensures
        r == glyph_of(font, c),
{
    match font {
        Font::UpperAltZero => {
            if c == 0x30 {
                125
            } else if 0x61 <= c && c <= 0x7a {
                c - 32
            } else {
                c
            }
        },
        Font::LowerAltZero => {
            if c == 0x30 {
                123
            } else if 0x41 <= c && c <= 0x5a {
                c + 32
            } else {
                c
            }
        },
        Font::Uppercase => {
            if 0x61 <= c && c <= 0x7a {
                c - 32
            } else {
                c
            }
        },
        Font::Lowercase => {
            if 0x41 <= c && c <= 0x5a {
                c + 32
            } else {
                c
            }
        },
    }
}

/// The character that shows an octave: `1` to `9` for the first nine, then
/// letters from `A`.
pub open spec fn octave_char(octave: u8) -> u8 {
    if octave >= 9 {
        (octave - 9 + 0x41) as u8
    } else {
        (octave + 0x31) as u8
    }
}

/// The character that shows an octave.
pub fn octave_glyph(octave: u8) -> (r: u8)
    requires
        octave - 9 + 0x41 <= u8::MAX,
    ensures
        r == octave_char(octave),
{
    if octave >= 9 {
        octave - 9 + 0x41
    } else {
        octave + 0x31
    }
}

/// The capital hexadecimal digit of a value below sixteen, as a character.
pub open spec fn hex_char(value: int) -> u8 {
    if value > 9 {
        (value - 10 + 0x41) as u8
    } else {
        (value + 0x30) as u8
    }
}

/// The two characters that show a velocity: its hexadecimal digits.
pub fn velocity_glyphs(velocity: u8) -> (r: (u8, u8))
    ensures
        r == (hex_char(velocity as int / 16), hex_char(velocity as int % 16)),
{
    let vh = velocity >> 4;
    let vl = velocity & 0xf;
    assert(vh == velocity / 16 && vl == velocity % 16) by (bit_vector)
        requires
            vh == velocity >> 4,
            vl == velocity & 0xf,
    ;
    let c1 = if vh > 9 {
        vh - 10 + 0x41
    } else {
        vh + 0x30
    };
    let c2 = if vl > 9 {
        vl - 10 + 0x41
    } else {
        vl + 0x30
    };
    (c1, c2)
}

/// Whether a rectangle covers the whole screen of the device: the colour of
/// such a rectangle is the background from then on.
pub fn covers_screen(rect: (i32, i32, u32, u32)) -> (r: bool)
    ensures
        r == (rect == (0i32, 0i32, SCREEN_WIDTH, SCREEN_HEIGHT)),
{
    rect.0 == 0 && rect.1 == 0 && rect.2 == SCREEN_WIDTH && rect.3 == SCREEN_HEIGHT
}

/// The size that the window is to get for the zoom `zoom`, where its width
/// `width` is not that already.
pub fn zoom_window(zoom: u32, width: u32) -> (r: Option<(u32, u32)>)
    requires
        zoom * SCREEN_WIDTH <= u32::MAX,
    ensures
        r == if SCREEN_WIDTH * zoom != width {
            Some(((zoom * SCREEN_WIDTH) as u32, (zoom * SCREEN_HEIGHT) as u32))
        } else {
            None
        },
{
    if SCREEN_WIDTH * zoom != width {
        Some((zoom * SCREEN_WIDTH, zoom * SCREEN_HEIGHT))
    } else {
        None
    }
}

} // verus!
