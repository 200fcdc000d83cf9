//! One cell of the display: a character and its attribute byte, and the two
//! bytes that stand for it in display memory.

use crate::vga_buffer::color::ColorCode;
use vstd::prelude::*;

verus! {

/// The byte of the space character, which a blank cell shows.
pub const BLANK_CHAR: u8 = 0x20;

/// A character together with the attribute byte it is shown with.
#[derive(Debug, Clone, Copy, PartialEq, Eq, Structural)]
pub struct ScreenChar {
    pub ascii_char: u8,
    pub color_code: ColorCode,
}

impl ScreenChar {
    /// The cell that shows a space in the colours of `color_code`.
    pub open spec fn spec_blank(color_code: ColorCode) -> ScreenChar {
        ScreenChar { ascii_char: BLANK_CHAR, color_code }
    }

    /// The two bytes of the cell in display memory: the character first, the
    /// attribute second.
    pub open spec fn wire(self) -> Seq<u8> {
        seq![self.ascii_char, self.color_code.0]
    }

    /// The cell that two bytes of display memory stand for.
    pub open spec fn from_wire(bytes: Seq<u8>) -> ScreenChar {
        ScreenChar { ascii_char: bytes[0], color_code: ColorCode(bytes[1]) }
    }

    /// Pairs a character with an attribute byte.
    pub fn encode(ascii_char: u8, color_code: ColorCode) -> (cell: ScreenChar)
        ensures
            cell == (ScreenChar { ascii_char, color_code }),
        no_unwind
    {
        ScreenChar { ascii_char, color_code }
    }

    /// The cell that shows a space in the colours of `color_code`.
    #[verifier::when_used_as_spec(spec_blank)]
    pub fn blank(color_code: ColorCode) -> (cell: ScreenChar)
        ensures
            cell == ScreenChar::spec_blank(color_code),
        no_unwind
    {
        ScreenChar { ascii_char: BLANK_CHAR, color_code }
    }

    /// Lays the cell out as it stands in display memory.
    pub fn to_bytes(self) -> (bytes: [u8; 2])
        ensures
            bytes@ == self.wire(),
        no_unwind
    {
        let bytes: [u8; 2] = [self.ascii_char, self.color_code.0];
        assert(bytes@ =~= self.wire());
        bytes
    }

    /// Reads a cell from its two bytes in display memory.
    pub fn from_bytes(bytes: [u8; 2]) -> (cell: ScreenChar)
        ensures
            cell == ScreenChar::from_wire(bytes@),
        no_unwind
    {
        ScreenChar { ascii_char: bytes[0], color_code: ColorCode(bytes[1]) }
    }
}

/// Laying a cell out in display memory and reading it back gives the cell
/// again.
pub proof fn lemma_wire_round_trip(cell: ScreenChar)
    ensures
        ScreenChar::from_wire(cell.wire()) == cell,
        cell.wire().len() == 2,
{
}

} // verus!
