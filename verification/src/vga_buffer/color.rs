//! The colour palette of the display adapter and the attribute byte that packs
//! a foreground and a background colour.

use vstd::prelude::*;

verus! {

/// A colour of the text-mode palette.
///
/// Each colour stands for a four-bit code that the display hardware reads from
/// the attribute byte of a cell. The codes are not consecutive: no colour has
/// code 5, and `Magenta` is 6.
#[derive(Debug, Clone, Copy, PartialEq, Eq, Structural)]
pub enum Color {
    Black,
    Blue,
    Green,
    Cyan,
    Red,
    Magenta,
    LightGray,
    DarkGray,
    LightBlue,
    LightGreen,
    LightCyan,
    LightRed,
    Pink,
    Yellow,
    White,
}

impl Color {
    /// The four-bit code of the colour.
    pub open spec fn spec_code(self) -> u8 {
        match self {
            Color::Black => 0,
            Color::Blue => 1,
            Color::Green => 2,
            Color::Cyan => 3,
            Color::Red => 4,
            Color::Magenta => 6,
            Color::LightGray => 7,
            Color::DarkGray => 8,
            Color::LightBlue => 9,
            Color::LightGreen => 10,
            Color::LightCyan => 11,
            Color::LightRed => 12,
            Color::Pink => 13,
            Color::Yellow => 14,
            Color::White => 15,
        }
    }

    /// Returns the four-bit code of the colour.
    #[verifier::when_used_as_spec(spec_code)]
    pub fn code(self) -> (code: u8)
        ensures
            code == self.spec_code(),
            code < 16,
    {
        match self {
            Color::Black => 0,
            Color::Blue => 1,
            Color::Green => 2,
            Color::Cyan => 3,
            Color::Red => 4,
            Color::Magenta => 6,
            Color::LightGray => 7,
            Color::DarkGray => 8,
            Color::LightBlue => 9,
            Color::LightGreen => 10,
            Color::LightCyan => 11,
            Color::LightRed => 12,
            Color::Pink => 13,
            Color::Yellow => 14,
            Color::White => 15,
        }
    }
}

/// The attribute byte of a cell: the background colour's code in the high four
/// bits, the foreground colour's code in the low four bits.
#[derive(Debug, Clone, Copy, PartialEq, Eq, Structural)]
pub struct ColorCode(pub u8);

impl ColorCode {
    /// The attribute byte for `foreground` on `background`.
    pub open spec fn pack(foreground: Color, background: Color) -> ColorCode {
        ColorCode((background.spec_code() * 16 + foreground.spec_code()) as u8)
    }

    /// The code in the low four bits.
    pub open spec fn foreground_code(self) -> u8 {
        self.0 % 16
    }

    /// The code in the high four bits.
    pub open spec fn background_code(self) -> u8 {
        self.0 / 16
    }

    /// Packs `foreground` and `background` into one attribute byte.
    pub fn new(foreground: Color, background: Color) -> (color_code: ColorCode)
        ensures
            color_code == ColorCode::pack(foreground, background),
            color_code.foreground_code() == foreground.spec_code(),
            color_code.background_code() == background.spec_code(),
    {
        let high: u8 = background.code();
        let low: u8 = foreground.code();
        assert((high << 4 | low) == high * 16 + low) by (bit_vector)
            requires
                high < 16,
                low < 16,
        ;
        ColorCode(high << 4 | low)
    }
}

/// Every colour's code fits in four bits, and two colours with one code are
/// the same colour.
pub proof fn lemma_codes_are_distinct_nibbles(a: Color, b: Color)
    ensures
        a.spec_code() < 16,
        a.spec_code() == b.spec_code() ==> a == b,
{
}

/// The colours packed into an attribute byte can be read back from it: two
/// pairs of colours give the same byte only if they are the same pair.
pub proof fn lemma_pack_is_injective(fg1: Color, bg1: Color, fg2: Color, bg2: Color)
    requires
        ColorCode::pack(fg1, bg1) == ColorCode::pack(fg2, bg2),
    ensures
        fg1 == fg2,
        bg1 == bg2,
{
    lemma_codes_are_distinct_nibbles(fg1, fg2);
    lemma_codes_are_distinct_nibbles(bg1, bg2);
}

} // verus!
