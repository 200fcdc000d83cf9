//! The writer: a cursor in the last row of the device grid, which appends
//! characters there and moves the text up when the row is full or a newline
//! is written.

use crate::vga_buffer::cell::ScreenChar;
use crate::vga_buffer::color::{Color, ColorCode};
use crate::vga_buffer::grid::{
    grid_rows, read_cell, write_cell, Buffer, BUFFER_HEIGHT, BUFFER_WIDTH,
};
use crate::vga_buffer::screen::{Screen, NEWLINE, PLACEHOLDER};
use vstd::prelude::*;
use vstd::string::StringSliceAdditionalSpecFns;

verus! {

/// Appends text to the last row of a device grid that it alone owns.
pub struct Writer {
    column_pos: usize,
    color_code: ColorCode,
    buffer: &'static mut Buffer,
}

impl View for Writer {
    type V = Screen;

    closed spec fn view(&self) -> Screen {
        Screen {
            column: self.column_pos as int,
            color_code: self.color_code,
            rows: grid_rows(*self.buffer),
        }
    }
}

impl Writer {
    /// The cursor stands at one of the 80 columns or just behind the last.
    #[verifier::type_invariant]
    spec fn cursor_in_row(self) -> bool {
        self.column_pos <= BUFFER_WIDTH
    }

    /// A writer on `buffer` in white on black, with the cursor at the start
    /// of the last row. The grid keeps what it holds.
    pub fn new(buffer: &'static mut Buffer) -> (writer: Writer)
        ensures
            writer@.wf(),
            writer@.column == 0,
            writer@.color_code == ColorCode::pack(Color::White, Color::Black),
            writer@.rows == grid_rows(*old(buffer)),
    {
        Writer { column_pos: 0, color_code: ColorCode::new(Color::White, Color::Black), buffer }
    }

    /// Makes `color_code` the active attribute. What is on the display keeps
    /// its colours; what is written or blanked from now on takes the new ones.
    pub fn set_color_code(&mut self, color_code: ColorCode)
        ensures
            final(self)@ == (Screen { color_code, ..old(self)@ }),
            final(self)@.wf(),
    {
        proof {
            use_type_invariant(&*self);
        }
        self.color_code = color_code;
    }

    /// The column of the last row at which the next character goes; 80 when
    /// that row is full.
    pub fn column_pos(&self) -> (column: usize)
        ensures
            column == self@.column,
            column <= BUFFER_WIDTH,
    {
        proof {
            use_type_invariant(self);
        }
        self.column_pos
    }

    /// The active attribute.
    pub fn color_code(&self) -> (color_code: ColorCode)
        ensures
            color_code == self@.color_code,
    {
        self.color_code
    }

    /// Reads the cell at `row` and `col` of the grid.
    pub fn read_cell(&self, row: usize, col: usize) -> (cell: ScreenChar)
        requires
            row < BUFFER_HEIGHT,
            col < BUFFER_WIDTH,
        ensures
            cell == self@.rows[row as int][col as int],
    {
        read_cell(&*self.buffer, row, col)
    }

    /// Writes one byte as it is. A newline moves the text up by one row; any
    /// other byte goes under the cursor, after the text has moved up if the
    /// last row was full, and the cursor moves right by one.
    pub fn write_byte(&mut self, byte: u8)
        ensures
            final(self)@ == old(self)@.write_byte(byte),
            final(self)@.wf(),
    {
        proof {
            use_type_invariant(&*self);
        }
        if byte == NEWLINE {
            self.new_line();
        } else {
            if self.column_pos >= BUFFER_WIDTH {
                self.new_line();
            }
            proof {
                use_type_invariant(&*self);
            }
            let row = BUFFER_HEIGHT - 1;
            let col = self.column_pos;
            let color_code = self.color_code;
            write_cell(&mut *self.buffer, row, col, ScreenChar::encode(byte, color_code));
            self.column_pos += 1;
        }
    }

    /// Writes the bytes of `s` in order. A byte that is neither printable
    /// ASCII nor a newline is written as the placeholder, so each byte of a
    /// character outside ASCII shows as one placeholder.
    pub fn write_string(&mut self, s: &str)
        ensures
            final(self)@ == old(self)@.write_string(s.spec_bytes()),
            final(self)@.wf(),
    {
        proof {
            use_type_invariant(&*self);
        }
        let bytes = s.as_bytes();
        for i in 0..bytes.len()
            invariant
                bytes@ == s.spec_bytes(),
                self@ == old(self)@.write_string(bytes@.take(i as int)),
                self@.wf(),
        {
            let byte = bytes[i];
            proof {
                assert(bytes@.take(i + 1).drop_last() =~= bytes@.take(i as int));
            }
            if (0x20 <= byte && byte <= 0x7e) || byte == NEWLINE {
                self.write_byte(byte);
            } else {
                self.write_byte(PLACEHOLDER);
            }
        }
        proof {
            assert(bytes@.take(bytes@.len() as int) =~= bytes@);
        }
    }

    /// Moves every row up by one, blanks the last row and puts the cursor at
    /// its start. The first row is lost.
    fn new_line(&mut self)
        ensures
            final(self)@ == old(self)@.new_line(),
            final(self)@.wf(),
    {
        proof {
            use_type_invariant(&*self);
        }
        for row in 1..BUFFER_HEIGHT
            invariant
                self.column_pos == old(self).column_pos,
                self.color_code == old(self).color_code,
                self.column_pos <= BUFFER_WIDTH,
                self@.rows.len() == BUFFER_HEIGHT,
                forall|r: int|
                    0 <= r < row - 1 ==> (#[trigger] self@.rows[r]) == old(self)@.rows[r + 1],
                forall|r: int|
                    row - 1 <= r < BUFFER_HEIGHT ==> (#[trigger] self@.rows[r]) == old(self)@.rows[r],
        {
            for col in 0..BUFFER_WIDTH
                invariant
                    1 <= row < BUFFER_HEIGHT,
                    self.column_pos == old(self).column_pos,
                    self.color_code == old(self).color_code,
                    self.column_pos <= BUFFER_WIDTH,
                    self@.rows.len() == BUFFER_HEIGHT,
                    forall|r: int|
                        0 <= r < row - 1 ==> (#[trigger] self@.rows[r]) == old(self)@.rows[r + 1],
                    forall|r: int|
                        row <= r < BUFFER_HEIGHT ==> (#[trigger] self@.rows[r]) == old(self)@.rows[r],
                    self@.rows[row - 1].len() == BUFFER_WIDTH,
                    forall|c: int|
                        0 <= c < col ==> (#[trigger] self@.rows[row - 1][c]) == old(
                            self,
                        )@.rows[row as int][c],
            {
                let cell = read_cell(&*self.buffer, row, col);
                write_cell(&mut *self.buffer, row - 1, col, cell);
            }
            proof {
                assert(self@.rows[row - 1] =~= old(self)@.rows[row as int]);
            }
        }
        self.clear_row(BUFFER_HEIGHT - 1);
        self.column_pos = 0;
        proof {
            assert(self@.rows =~= old(self)@.new_line().rows);
        }
    }

    /// Blanks row `row` in the active attribute. The cursor and the other
    /// rows stay as they are.
    pub fn clear_row(&mut self, row: usize)
        requires
            row < BUFFER_HEIGHT,
        ensures
            final(self)@ == old(self)@.clear_row(row as int),
            final(self)@.wf(),
    {
        proof {
            use_type_invariant(&*self);
        }
        let blank = ScreenChar::blank(self.color_code);
        for col in 0..BUFFER_WIDTH
            invariant
                row < BUFFER_HEIGHT,
                blank == ScreenChar::spec_blank(old(self)@.color_code),
                self.column_pos == old(self).column_pos,
                self.color_code == old(self).color_code,
                self.column_pos <= BUFFER_WIDTH,
                self@.rows.len() == BUFFER_HEIGHT,
                forall|r: int|
                    0 <= r < BUFFER_HEIGHT && r != row ==> self@.rows[r] == old(self)@.rows[r],
                self@.rows[row as int].len() == BUFFER_WIDTH,
                forall|c: int| 0 <= c < col ==> self@.rows[row as int][c] == blank,
        {
            write_cell(&mut *self.buffer, row, col, blank);
        }
        proof {
            assert(self@.rows[row as int] =~= old(self)@.blank_row());
            assert(self@.rows =~= old(self)@.clear_row(row as int).rows);
        }
    }
}

/// `core::fmt::Error`: the error of a formatted write. The writer never
/// returns one.
#[verifier::external_type_specification]
#[verifier::external_body]
pub struct ExFmtError(core::fmt::Error);

impl core::fmt::Write for Writer {
    /// Writes `s` as `write_string` does. It never fails.
    fn write_str(&mut self, s: &str) -> (result: core::fmt::Result)
        ensures
            result is Ok,
            final(self)@ == old(self)@.write_string(s.spec_bytes()),
            final(self)@.wf(),
    {
        self.write_string(s);
        Ok(())
    }
}

} // verus!
