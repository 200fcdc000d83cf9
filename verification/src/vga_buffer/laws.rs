//! What holds of the writer's operations, whatever is on the display: the
//! cursor stays in its row, text written into a row reads back, bytes that
//! cannot be shown appear as the placeholder, a blanked row is blank, and
//! lines that end in a newline move up the display one row at a time.

use crate::vga_buffer::cell::ScreenChar;
use crate::vga_buffer::color::ColorCode;
use crate::vga_buffer::grid::{BUFFER_HEIGHT, BUFFER_WIDTH};
use crate::vga_buffer::screen::{is_printable, sanitize, Screen, NEWLINE, PLACEHOLDER};
use vstd::prelude::*;

verus! {

/// An operation of the writer.
pub enum Op {
    WriteByte(u8),
    WriteString(Seq<u8>),
    ClearRow(int),
    SetColorCode(ColorCode),
}

impl Op {
    /// Whether the operation may be asked for: a row to blank is one of the
    /// 25 rows.
    pub open spec fn allowed(self) -> bool {
        self matches Op::ClearRow(row) ==> 0 <= row < BUFFER_HEIGHT
    }
}

impl Screen {
    /// The state after `op`.
    pub open spec fn apply(self, op: Op) -> Screen {
        match op {
            Op::WriteByte(byte) => self.write_byte(byte),
            Op::WriteString(bytes) => self.write_string(bytes),
            Op::ClearRow(row) => self.clear_row(row),
            Op::SetColorCode(color_code) => Screen { color_code, ..self },
        }
    }

    /// The state after the operations `ops`, in order.
    pub open spec fn apply_all(self, ops: Seq<Op>) -> Screen
        decreases ops.len(),
    {
        if ops.len() == 0 {
            self
        } else {
            self.apply_all(ops.drop_last()).apply(ops.last())
        }
    }

    /// The row that shows `line` from its first column on, each byte as the
    /// display shows it, and blank cells behind it.
    pub open spec fn line_row(self, line: Seq<u8>) -> Seq<ScreenChar> {
        Seq::new(
            BUFFER_WIDTH as nat,
            |col: int|
                if col < line.len() {
                    self.glyph(sanitize(line[col]))
                } else {
                    ScreenChar::spec_blank(self.color_code)
                },
        )
    }

    /// The state after each of `lines` has been written, followed by a
    /// newline.
    pub open spec fn write_lines(self, lines: Seq<Seq<u8>>) -> Screen
        decreases lines.len(),
    {
        if lines.len() == 0 {
            self
        } else {
            self.write_lines(lines.drop_last()).write_string(lines.last().push(NEWLINE))
        }
    }
}

/// Whether `line` fits in one row and holds no newline.
pub open spec fn is_line(line: Seq<u8>) -> bool {
    &&& line.len() <= BUFFER_WIDTH
    &&& forall|index: int| 0 <= index < line.len() ==> line[index] != NEWLINE
}

/// Moving the text up keeps the grid's shape, puts the cursor at the start
/// of the last row and leaves that row blank.
pub proof fn lemma_new_line(screen: Screen)
    requires
        screen.wf(),
    ensures
        screen.new_line().wf(),
        screen.new_line().column == 0,
        screen.new_line().color_code == screen.color_code,
        screen.new_line().last_row() == screen.blank_row(),
        forall|row: int|
            0 <= row < BUFFER_HEIGHT - 1 ==> #[trigger] screen.new_line().rows[row] == screen.rows[row + 1],
{
}

/// Writing a byte keeps the grid's shape and the cursor in its row. The
/// cursor is at the start of the row after a newline; after any other byte it
/// is one to the right of where the byte went, which is the start of the row
/// if the row was full. So it stands behind the last column only when the
/// byte went into that column.
pub proof fn lemma_write_byte_cursor(screen: Screen, byte: u8)
    requires
        screen.wf(),
    ensures
        screen.write_byte(byte).wf(),
        screen.write_byte(byte).color_code == screen.color_code,
        byte == NEWLINE ==> screen.write_byte(byte).column == 0,
        byte != NEWLINE && screen.column < BUFFER_WIDTH ==> screen.write_byte(byte).column
            == screen.column + 1,
        byte != NEWLINE && screen.column == BUFFER_WIDTH ==> screen.write_byte(byte).column == 1,
        screen.write_byte(byte).column == BUFFER_WIDTH <==> byte != NEWLINE && screen.column
            == BUFFER_WIDTH - 1,
{
    lemma_new_line(screen);
}

/// Writing a string keeps the grid's shape, the cursor in its row and the
/// active attribute.
pub proof fn lemma_write_string_wf(screen: Screen, bytes: Seq<u8>)
    requires
        screen.wf(),
    ensures
        screen.write_string(bytes).wf(),
        screen.write_string(bytes).color_code == screen.color_code,
    decreases bytes.len(),
{
    if bytes.len() > 0 {
        lemma_write_string_wf(screen, bytes.drop_last());
        lemma_write_byte_cursor(screen.write_string(bytes.drop_last()), sanitize(bytes.last()));
    }
}

/// Whatever operations are asked for, in whatever order, the cursor stays in
/// the last row, at one of its 80 columns or just behind the last one, and
/// the grid keeps its 25 rows of 80 cells.
pub proof fn lemma_cursor_stays_in_row(screen: Screen, ops: Seq<Op>)
    requires
        screen.wf(),
        forall|index: int| 0 <= index < ops.len() ==> (#[trigger] ops[index]).allowed(),
    ensures
        screen.apply_all(ops).wf(),
        0 <= screen.apply_all(ops).column <= BUFFER_WIDTH,
    decreases ops.len(),
{
    if ops.len() > 0 {
        lemma_cursor_stays_in_row(screen, ops.drop_last());
        let before = screen.apply_all(ops.drop_last());
        match ops.last() {
            Op::WriteByte(byte) => lemma_write_byte_cursor(before, byte),
            Op::WriteString(bytes) => lemma_write_string_wf(before, bytes),
            Op::ClearRow(row) => {},
            Op::SetColorCode(color_code) => {},
        }
    }
}

/// A blanked row reads as 80 blank cells in the active attribute. The other
/// rows, the cursor and the attribute are as they were.
pub proof fn lemma_cleared_row_is_blank(screen: Screen, row: int)
    requires
        screen.wf(),
        0 <= row < BUFFER_HEIGHT,
    ensures
        screen.clear_row(row).wf(),
        forall|col: int|
            0 <= col < BUFFER_WIDTH ==> #[trigger] screen.clear_row(row).rows[row][col] == (ScreenChar {
                ascii_char: 0x20,
                color_code: screen.color_code,
            }),
        forall|other: int|
            0 <= other < BUFFER_HEIGHT && other != row ==> #[trigger] screen.clear_row(row).rows[other]
                == screen.rows[other],
        screen.clear_row(row).column == screen.column,
        screen.clear_row(row).color_code == screen.color_code,
{
}

/// Writing two strings one after the other is writing their concatenation.
pub proof fn lemma_write_string_concat(screen: Screen, first: Seq<u8>, second: Seq<u8>)
    ensures
        screen.write_string(first + second) == screen.write_string(first).write_string(second),
    decreases second.len(),
{
    if second.len() == 0 {
        assert(first + second =~= first);
    } else {
        assert((first + second).drop_last() =~= first + second.drop_last());
        lemma_write_string_concat(screen, first, second.drop_last());
    }
}

/// A string without a newline that fits into what is left of the last row
/// goes there, byte by byte from the cursor on, each byte as the display shows
/// it. The cells before and behind it and the other rows stay as they are,
/// and the cursor stands behind the string.
pub proof fn lemma_write_within_row(screen: Screen, bytes: Seq<u8>)
    requires
        screen.wf(),
        screen.column + bytes.len() <= BUFFER_WIDTH,
        forall|index: int| 0 <= index < bytes.len() ==> bytes[index] != NEWLINE,
    ensures
        screen.write_string(bytes).wf(),
        screen.write_string(bytes).column == screen.column + bytes.len(),
        screen.write_string(bytes).color_code == screen.color_code,
        forall|index: int|
            0 <= index < bytes.len() ==> #[trigger] screen.write_string(
                bytes,
            ).last_row()[screen.column + index] == screen.glyph(sanitize(bytes[index])),
        forall|col: int|
            0 <= col < BUFFER_WIDTH && !(screen.column <= col < screen.column + bytes.len())
                ==> #[trigger] screen.write_string(bytes).last_row()[col] == screen.last_row()[col],
        forall|row: int|
            0 <= row < BUFFER_HEIGHT - 1 ==> #[trigger] screen.write_string(bytes).rows[row]
                == screen.rows[row],
    decreases bytes.len(),
{
    if bytes.len() > 0 {
        let front = bytes.drop_last();
        lemma_write_within_row(screen, front);
        let before = screen.write_string(front);
        let after = screen.write_string(bytes);
        assert(after == before.put(sanitize(bytes.last())));
        assert forall|index: int| 0 <= index < bytes.len() implies #[trigger] after.last_row()[screen.column
            + index] == screen.glyph(sanitize(bytes[index])) by {
            if index < front.len() {
                assert(before.last_row()[screen.column + index] == screen.glyph(sanitize(front[index])));
            }
        }
    }
}

/// Printable text written to a fresh last row reads back. If the cursor is at
/// the start of the row and `text` is printable, holds no newline and is at
/// most 80 bytes long, then after it is written the first cells of the last
/// row hold its bytes, one each and in order, in the active attribute.
pub proof fn lemma_printable_text_reads_back(screen: Screen, text: Seq<u8>)
    requires
        screen.wf(),
        screen.column == 0,
        text.len() <= BUFFER_WIDTH,
        forall|index: int| 0 <= index < text.len() ==> is_printable(#[trigger] text[index]),
    ensures
        forall|index: int|
            0 <= index < text.len() ==> #[trigger] screen.write_string(text).last_row()[index]
                == (ScreenChar { ascii_char: text[index], color_code: screen.color_code }),
        screen.write_string(text).column == text.len(),
{
    lemma_write_within_row(screen, text);
    assert forall|index: int| 0 <= index < text.len() implies #[trigger] screen.write_string(
        text,
    ).last_row()[index] == (ScreenChar { ascii_char: text[index], color_code: screen.color_code }) by {
        assert(screen.write_string(text).last_row()[screen.column + index] == screen.glyph(
            sanitize(text[index]),
        ));
    }
}

/// The same for a string of characters, as `Writer::write_string` takes it:
/// where all its characters are printable ASCII, its bytes are its characters.
pub proof fn lemma_printable_str_reads_back(screen: Screen, text: Seq<char>)
    requires
        screen.wf(),
        screen.column == 0,
        text.len() <= BUFFER_WIDTH,
        forall|index: int| 0 <= index < text.len() ==> ' ' <= #[trigger] text[index] <= '~',
    ensures
        forall|index: int|
            0 <= index < text.len() ==> #[trigger] screen.write_string(
                vstd::utf8::encode_utf8(text),
            ).last_row()[index] == (ScreenChar {
                ascii_char: text[index] as u8,
                color_code: screen.color_code,
            }),
        screen.write_string(vstd::utf8::encode_utf8(text)).column == text.len(),
{
    assert(vstd::utf8::is_ascii_chars(text));
    vstd::utf8::is_ascii_chars_encode_utf8(text);
    let bytes = vstd::utf8::encode_utf8(text);
    assert forall|index: int| 0 <= index < bytes.len() implies is_printable(#[trigger] bytes[index]) by {
        assert(bytes[index] == text[index] as u8);
    }
    lemma_printable_text_reads_back(screen, bytes);
}

/// A byte of a string that is neither printable nor a newline shows as the
/// placeholder, and not as itself unless it is the placeholder's own byte.
/// After a string that ends in such a byte has been written, the cell left of
/// the cursor holds the placeholder in the active attribute; in general that
/// cell holds the last byte as the display shows it, which is a printable
/// byte or the placeholder.
pub proof fn lemma_last_byte_as_shown(screen: Screen, bytes: Seq<u8>)
    requires
        screen.wf(),
        bytes.len() > 0,
        bytes.last() != NEWLINE,
    ensures
        1 <= screen.write_string(bytes).column <= BUFFER_WIDTH,
        screen.write_string(bytes).last_row()[screen.write_string(bytes).column - 1] == screen.glyph(
            sanitize(bytes.last()),
        ),
        is_printable(sanitize(bytes.last())) || sanitize(bytes.last()) == PLACEHOLDER,
        !is_printable(bytes.last()) ==> screen.write_string(bytes).last_row()[screen.write_string(
            bytes,
        ).column - 1].ascii_char == PLACEHOLDER,
        !is_printable(bytes.last()) && bytes.last() != PLACEHOLDER ==> screen.write_string(
            bytes,
        ).last_row()[screen.write_string(bytes).column - 1].ascii_char != bytes.last(),
{
    lemma_write_string_wf(screen, bytes.drop_last());
    let before = screen.write_string(bytes.drop_last());
    lemma_write_byte_cursor(before, sanitize(bytes.last()));
    lemma_new_line(before);
}

/// No byte of the UTF-8 encoding of one character is above `0xf7`.
proof fn lemma_scalar_bytes(scalar: u32)
    ensures
        1 <= vstd::utf8::encode_scalar(scalar).len() <= 4,
        forall|index: int|
            0 <= index < vstd::utf8::encode_scalar(scalar).len() ==> #[trigger] vstd::utf8::encode_scalar(
                scalar,
            )[index] <= 0xf7,
{
    assert((scalar & 0x7f) as u8 <= 0x7f) by (bit_vector);
    assert(0xc0 | ((scalar >> 6) & 0x1f) as u8 <= 0xdf) by (bit_vector);
    assert(0xe0 | ((scalar >> 12) & 0x0f) as u8 <= 0xef) by (bit_vector);
    assert(0xf0 | ((scalar >> 18) & 0x07) as u8 <= 0xf7) by (bit_vector);
    assert(0x80 | (scalar & 0x3f) as u8 <= 0xbf) by (bit_vector);
    assert(0x80 | ((scalar >> 6) & 0x3f) as u8 <= 0xbf) by (bit_vector);
    assert(0x80 | ((scalar >> 12) & 0x3f) as u8 <= 0xbf) by (bit_vector);
}

/// The placeholder's byte does not occur in the UTF-8 encoding of a string:
/// every byte of it is below `0xf8`.
pub proof fn lemma_str_bytes_are_not_placeholder(text: Seq<char>, index: int)
    requires
        0 <= index < vstd::utf8::encode_utf8(text).len(),
    ensures
        vstd::utf8::encode_utf8(text)[index] <= 0xf7,
        vstd::utf8::encode_utf8(text)[index] != PLACEHOLDER,
    decreases text.len(),
{
    let first = vstd::utf8::encode_scalar(text[0] as u32);
    lemma_scalar_bytes(text[0] as u32);
    if index >= first.len() {
        lemma_str_bytes_are_not_placeholder(text.drop_first(), index - first.len());
    }
}

/// What `Writer::write_string` shows for a byte of a string that is neither
/// printable nor a newline is the placeholder and never that byte. Once the
/// string has been written up to and with such a byte, the cell left of the
/// cursor holds the placeholder in the active attribute.
pub proof fn lemma_str_unprintable_shows_placeholder(screen: Screen, text: Seq<char>, index: int)
    requires
        screen.wf(),
        0 <= index < vstd::utf8::encode_utf8(text).len(),
        !is_printable(vstd::utf8::encode_utf8(text)[index]),
        vstd::utf8::encode_utf8(text)[index] != NEWLINE,
    ensures
        ({
            let bytes = vstd::utf8::encode_utf8(text);
            let after = screen.write_string(bytes.take(index + 1));
            &&& 1 <= after.column <= BUFFER_WIDTH
            &&& after.last_row()[after.column - 1] == screen.glyph(PLACEHOLDER)
            &&& after.last_row()[after.column - 1].ascii_char != bytes[index]
        }),
{
    let bytes = vstd::utf8::encode_utf8(text);
    lemma_str_bytes_are_not_placeholder(text, index);
    lemma_last_byte_as_shown(screen, bytes.take(index + 1));
}

/// After a string that ends in a newline, the cursor is at the start of a
/// blank last row.
pub proof fn lemma_newline_leaves_fresh_row(screen: Screen, bytes: Seq<u8>)
    requires
        screen.wf(),
    ensures
        screen.write_string(bytes.push(NEWLINE)).wf(),
        screen.write_string(bytes.push(NEWLINE)).column == 0,
        screen.write_string(bytes.push(NEWLINE)).color_code == screen.color_code,
        screen.write_string(bytes.push(NEWLINE)).last_row() == screen.blank_row(),
{
    assert(bytes.push(NEWLINE).drop_last() =~= bytes);
    lemma_write_string_wf(screen, bytes);
    lemma_new_line(screen.write_string(bytes));
    assert(screen.write_string(bytes).blank_row() =~= screen.blank_row());
}

/// A line written to a fresh last row, with its newline, ends up in the row
/// above the last: the line from the first column on and blank cells behind
/// it. The rows above have moved up by one, and the last row is fresh again.
pub proof fn lemma_line_moves_up(screen: Screen, line: Seq<u8>)
    requires
        screen.wf(),
        screen.column == 0,
        screen.last_row() == screen.blank_row(),
        is_line(line),
    ensures
        screen.write_string(line.push(NEWLINE)).rows[BUFFER_HEIGHT - 2] == screen.line_row(line),
        forall|row: int|
            0 <= row < BUFFER_HEIGHT - 2 ==> #[trigger] screen.write_string(line.push(NEWLINE)).rows[row]
                == screen.rows[row + 1],
{
    assert(line.push(NEWLINE).drop_last() =~= line);
    lemma_write_within_row(screen, line);
    let written = screen.write_string(line);
    lemma_new_line(written);
    let after = screen.write_string(line.push(NEWLINE));
    assert(after == written.new_line());
    assert(after.rows[BUFFER_HEIGHT - 2] == written.last_row());
    assert forall|col: int| 0 <= col < BUFFER_WIDTH implies written.last_row()[col] == screen.line_row(
        line,
    )[col] by {
        if col < line.len() {
            assert(written.last_row()[screen.column + col] == screen.glyph(sanitize(line[col])));
        }
    }
    assert(written.last_row() =~= screen.line_row(line));
}

/// Lines that end in a newline move up the display one row at a time. After
/// `lines` have been written, each followed by a newline, the cursor is at
/// the start of a blank last row, and the rows above it hold the most recent
/// lines, the last line lowest: the line written `back` lines before the
/// last is in row `23 - back`, as long as that row exists and the line is not
/// the very first, which may have begun in the middle of a row. The first
/// line is there too if the writer began with a fresh last row.
pub proof fn lemma_lines_scroll(screen: Screen, lines: Seq<Seq<u8>>)
    requires
        screen.wf(),
        lines.len() > 0,
        forall|index: int| 0 <= index < lines.len() ==> is_line(#[trigger] lines[index]),
    ensures
        screen.write_lines(lines).wf(),
        screen.write_lines(lines).column == 0,
        screen.write_lines(lines).color_code == screen.color_code,
        screen.write_lines(lines).last_row() == screen.blank_row(),
        forall|back: int|
            0 <= back < BUFFER_HEIGHT - 1 && back < lines.len() - 1 ==> #[trigger] screen.write_lines(
                lines,
            ).rows[BUFFER_HEIGHT - 2 - back] == screen.line_row(lines[lines.len() - 1 - back]),
        screen.column == 0 && screen.last_row() == screen.blank_row() && lines.len() <= BUFFER_HEIGHT - 1
            ==> screen.write_lines(lines).rows[BUFFER_HEIGHT - 1 - lines.len()] == screen.line_row(lines[0]),
    decreases lines.len(),
{
    let earlier = lines.drop_last();
    let before = screen.write_lines(earlier);
    let after = screen.write_lines(lines);
    let line = lines.last();
    assert(after == before.write_string(line.push(NEWLINE)));
    if earlier.len() == 0 {
        lemma_newline_leaves_fresh_row(screen, line);
        if screen.column == 0 && screen.last_row() == screen.blank_row() {
            lemma_line_moves_up(screen, line);
        }
    } else {
        assert forall|index: int| 0 <= index < earlier.len() implies is_line(#[trigger] earlier[index]) by {
            assert(earlier[index] == lines[index]);
        }
        lemma_lines_scroll(screen, earlier);
        lemma_newline_leaves_fresh_row(before, line);
        assert(before.blank_row() =~= screen.blank_row());
        lemma_line_moves_up(before, line);
        assert(before.line_row(line) =~= screen.line_row(line));
        assert forall|back: int|
            0 <= back < BUFFER_HEIGHT - 1 && back < lines.len() - 1 implies #[trigger] after.rows[
            BUFFER_HEIGHT - 2 - back] == screen.line_row(lines[lines.len() - 1 - back]) by {
            if back > 0 {
                let row = BUFFER_HEIGHT - 2 - back;
                assert(after.rows[row] == before.rows[row + 1]);
                assert(before.rows[BUFFER_HEIGHT - 2 - (back - 1)] == screen.line_row(
                    earlier[earlier.len() - 1 - (back - 1)],
                ));
            }
        }
        if screen.column == 0 && screen.last_row() == screen.blank_row() && lines.len() <= BUFFER_HEIGHT - 1 {
            let row = BUFFER_HEIGHT - 1 - lines.len();
            assert(after.rows[row] == before.rows[row + 1]);
        }
    }
}

} // verus!
