//! What the writer shows, as a mathematical value: the cursor's column, the
//! active attribute and the 25 rows of cells, with the writer's operations as
//! functions on that value.

use crate::vga_buffer::cell::ScreenChar;
use crate::vga_buffer::color::ColorCode;
use crate::vga_buffer::grid::{BUFFER_HEIGHT, BUFFER_WIDTH};
use vstd::prelude::*;

verus! {

/// The newline byte, which moves the text up by one row.
pub const NEWLINE: u8 = 0x0a;

/// The byte written in place of one that is neither printable nor a newline.
pub const PLACEHOLDER: u8 = 0xfe;

/// Whether `byte` is a printable ASCII character: a space, a tilde or
/// anything between them.
pub open spec fn is_printable(byte: u8) -> bool {
    0x20 <= byte <= 0x7e
}

/// The byte that stands for `byte` on the display: `byte` itself where it is
/// printable or a newline, the placeholder otherwise.
pub open spec fn sanitize(byte: u8) -> u8 {
    if is_printable(byte) || byte == NEWLINE {
        byte
    } else {
        PLACEHOLDER
    }
}

/// The state of a writer: where the next character goes in the last row, the
/// attribute it is written with, and the cells of the grid.
pub struct Screen {
    pub column: int,
    pub color_code: ColorCode,
    pub rows: Seq<Seq<ScreenChar>>,
}

impl Screen {
    /// The grid has 25 rows of 80 cells and the cursor stands in the last row,
    /// at one of its columns or just behind the last one.
    pub open spec fn wf(self) -> bool {
        &&& 0 <= self.column <= BUFFER_WIDTH
        &&& self.rows.len() == BUFFER_HEIGHT
        &&& forall|row: int| 0 <= row < BUFFER_HEIGHT ==> (#[trigger] self.rows[row]).len() == BUFFER_WIDTH
    }

    /// The cell that `byte` is shown as in the active attribute.
    pub open spec fn glyph(self, byte: u8) -> ScreenChar {
        ScreenChar { ascii_char: byte, color_code: self.color_code }
    }

    /// A row of 80 blank cells in the active attribute.
    pub open spec fn blank_row(self) -> Seq<ScreenChar> {
        Seq::new(BUFFER_WIDTH as nat, |col: int| ScreenChar::spec_blank(self.color_code))
    }

    /// The last row of the grid, to which text is appended.
    pub open spec fn last_row(self) -> Seq<ScreenChar> {
        self.rows[BUFFER_HEIGHT - 1]
    }

    /// Row `row` blanked, all else as it is.
    pub open spec fn clear_row(self, row: int) -> Screen {
        Screen { rows: self.rows.update(row, self.blank_row()), ..self }
    }

    /// Every row moved up by one, the first row lost, the last row blank and
    /// the cursor at its start.
    pub open spec fn new_line(self) -> Screen {
        Screen {
            column: 0,
            color_code: self.color_code,
            rows: self.rows.subrange(1, BUFFER_HEIGHT as int).push(self.blank_row()),
        }
    }

    /// `byte` placed under the cursor and the cursor moved right by one.
    pub open spec fn put(self, byte: u8) -> Screen {
        Screen {
            column: self.column + 1,
            color_code: self.color_code,
            rows: self.rows.update(
                BUFFER_HEIGHT - 1,
                self.last_row().update(self.column, self.glyph(byte)),
            ),
        }
    }

    /// One byte written: a newline moves the text up; any other byte is
    /// placed under the cursor, after the text has moved up if the last row
    /// was full.
    pub open spec fn write_byte(self, byte: u8) -> Screen {
        if byte == NEWLINE {
            self.new_line()
        } else if self.column >= BUFFER_WIDTH {
            self.new_line().put(byte)
        } else {
            self.put(byte)
        }
    }

    /// The bytes of a string written in order, each one that the display
    /// cannot show replaced by the placeholder.
    pub open spec fn write_string(self, bytes: Seq<u8>) -> Screen
        decreases bytes.len(),
    {
        if bytes.len() == 0 {
            self
        } else {
            self.write_string(bytes.drop_last()).write_byte(sanitize(bytes.last()))
        }
    }
}

} // verus!
