//! The device grid: 25 rows of 80 cells in display memory, each read and
//! written with one volatile access.

use crate::vga_buffer::cell::ScreenChar;
use vstd::prelude::*;

verus! {

/// The number of rows of the display.
pub const BUFFER_HEIGHT: usize = 25;

/// The number of columns of the display.
pub const BUFFER_WIDTH: usize = 80;

/// `volatile::Volatile`: a value in memory that is read and written with
/// volatile accesses only.
#[verifier::external_type_specification]
#[verifier::external_body]
#[verifier::reject_recursive_types(T)]
pub struct ExVolatile<T: Copy>(volatile::Volatile<T>);

/// The display memory: row after row, each cell two bytes wide, the character
/// before the attribute.
pub type Buffer = [[volatile::Volatile<[u8; 2]>; BUFFER_WIDTH]; BUFFER_HEIGHT];

/// The two bytes that a volatile cell holds: what was last written to it. The
/// display adapter reads display memory and never writes it, so a cell changes
/// only through the one exclusive reference to the grid.
pub uninterp spec fn cell_bytes(cell: volatile::Volatile<[u8; 2]>) -> Seq<u8>;

/// `volatile::Volatile::read`: a volatile read of the cell, which returns a
/// copy of the two bytes that the cell holds and leaves them as they are. It
/// never panics.
#[verifier::external_body]
fn volatile_read(cell: &volatile::Volatile<[u8; 2]>) -> (bytes: [u8; 2])
    ensures
        bytes@ == cell_bytes(*cell),
    no_unwind
{
    cell.read()
}

/// `volatile::Volatile::write`: a volatile write to the cell, after which the
/// cell holds the two bytes given. It never panics.
#[verifier::external_body]
fn volatile_write(cell: &mut volatile::Volatile<[u8; 2]>, bytes: [u8; 2])
    ensures
        cell_bytes(*final(cell)) == bytes@,
    no_unwind
{
    cell.write(bytes)
}

/// The cell at `row` and `col` of the grid.
pub open spec fn cell_at(grid: Buffer, row: int, col: int) -> ScreenChar {
    ScreenChar::from_wire(cell_bytes(grid@[row]@[col]))
}

/// The cells of the grid, row by row.
pub open spec fn grid_rows(grid: Buffer) -> Seq<Seq<ScreenChar>> {
    Seq::new(
        BUFFER_HEIGHT as nat,
        |row: int| Seq::new(BUFFER_WIDTH as nat, |col: int| cell_at(grid, row, col)),
    )
}

/// Reads the cell at `row` and `col`.
pub fn read_cell(grid: &Buffer, row: usize, col: usize) -> (cell: ScreenChar)
    requires
        row < BUFFER_HEIGHT,
        col < BUFFER_WIDTH,
    ensures
        cell == grid_rows(*grid)[row as int][col as int],
    no_unwind
{
    ScreenChar::from_bytes(volatile_read(&grid[row][col]))
}

/// Writes `cell` at `row` and `col` and leaves every other cell as it is.
pub fn write_cell(grid: &mut Buffer, row: usize, col: usize, cell: ScreenChar)
    requires
        row < BUFFER_HEIGHT,
        col < BUFFER_WIDTH,
    ensures
        grid_rows(*final(grid)) == grid_rows(*old(grid)).update(
            row as int,
            grid_rows(*old(grid))[row as int].update(col as int, cell),
        ),
    no_unwind
{
    volatile_write(&mut grid[row][col], cell.to_bytes());
    proof {
        let before = grid_rows(*old(grid));
        let after = grid_rows(*grid);
        let expected = before.update(row as int, before[row as int].update(col as int, cell));
        assert forall|r: int| 0 <= r < BUFFER_HEIGHT implies #[trigger] after[r] =~= expected[r] by {
            assert forall|c: int| 0 <= c < BUFFER_WIDTH implies #[trigger] after[r][c]
                == expected[r][c] by {
                if r == row && c == col {
                    assert(cell_at(*grid, r, c) == cell);
                } else {
                    assert(grid@[r]@[c] == old(grid)@[r]@[c]);
                }
            }
        }
        assert(after =~= expected);
    }
}

} // verus!
