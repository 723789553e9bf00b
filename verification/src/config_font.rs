//! The fonts in which the display can be drawn.

use vstd::prelude::*;
use vstd::std_specs::convert::TryFromSpecImpl;
use vstd::string::StringExecFns;

verus! {

#[derive(Debug, Clone, Copy, PartialEq, Eq, Structural)]
pub enum Font {
    Uppercase,
    UpperAltZero,
    Lowercase,
    LowerAltZero,
}

/// The font with the given number, if there is one.
pub open spec fn font_of(number: u8) -> Option<Font> {
    if number == 0 {
        Some(Font::Uppercase)
    } else if number == 1 {
        Some(Font::UpperAltZero)
    } else if number == 2 {
        Some(Font::Lowercase)
    } else if number == 3 {
        Some(Font::LowerAltZero)
    } else {
        None
    }
}

impl Font {
    /// Width of the widest label, in characters.
    pub const MAX_LENGTH: usize = 14;

    /// The place of the font in the order in which a menu steps through the
    /// fonts, from 0.
    pub open spec fn spec_number(self) -> u8 {
        match self {
            Font::Uppercase => 0,
            Font::UpperAltZero => 1,
            Font::Lowercase => 2,
            Font::LowerAltZero => 3,
        }
    }

    /// The place of the font in the order of the fonts, from 0.
    #[verifier::when_used_as_spec(spec_number)]
    pub fn number(self) -> (r: u8)
        ensures
            r == self.spec_number(),
            r <= 3,
    {
        match self {
            Font::Uppercase => 0,
            Font::UpperAltZero => 1,
            Font::Lowercase => 2,
            Font::LowerAltZero => 3,
        }
    }

    /// The label of the font.
    pub open spec fn text(self) -> Seq<char> {
        match self {
            Font::Uppercase => "UPPERCASE"@,
            Font::UpperAltZero => "UPPER ALT.ZERO"@,
            Font::Lowercase => "LOWERCASE"@,
            Font::LowerAltZero => "LOWER ALT.ZERO"@,
        }
    }

    /// The label of the font as a menu shows it.
    pub fn label(&self) -> (r: String)
        ensures
            r@ == self.text(),
    {
        match self {
            Font::Uppercase => String::from_str("UPPERCASE"),
            Font::UpperAltZero => String::from_str("UPPER ALT.ZERO"),
            Font::Lowercase => String::from_str("LOWERCASE"),
            Font::LowerAltZero => String::from_str("LOWER ALT.ZERO"),
        }
    }
}

impl TryFrom<u8> for Font {
    type Error = ();

    fn try_from(value: u8) -> (r: Result<Self, ()>) {
        Ok(
            match value {
                0 => Font::Uppercase,
                1 => Font::UpperAltZero,
                2 => Font::Lowercase,
                3 => Font::LowerAltZero,
                _ => {
                    return Err(());
                },
            },
        )
    }
}

impl TryFromSpecImpl<u8> for Font {
    open spec fn obeys_try_from_spec() -> bool {
        true
    }

    open spec fn try_from_spec(value: u8) -> Result<Self, ()> {
        match font_of(value) {
            Some(font) => Ok(font),
            None => Err(()),
        }
    }
}

/// A font is found again by its number, and no other number gives it.
pub proof fn lemma_font_numbers(font: Font, number: u8)
    ensures
        font_of(font.spec_number()) == Some(font),
        font_of(number) == Some(font) ==> number == font.spec_number(),
        font_of(number) is Some <==> number <= 3,
{
}

} // verus!
