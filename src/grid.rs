//! Translation between grid cells and byte offsets.

use vstd::prelude::*;
use vstd::arithmetic::div_mod::lemma_fundamental_div_mod_converse;
use crate::geometry::{ADDRESS_COLUMN_WIDTH, COLUMNS_PER_BYTE, HEX_BLOCK_END, ROW_WIDTH};

verus! {

/// A cell of the hex block that shows a digit of some byte: not the address
/// gutter, not the separator after a byte, not the ASCII column.
pub open spec fn in_hex_region(x: int) -> bool {
    &&& ADDRESS_COLUMN_WIDTH <= x < HEX_BLOCK_END
    &&& (x - ADDRESS_COLUMN_WIDTH) % (COLUMNS_PER_BYTE as int) != COLUMNS_PER_BYTE - 1
}

/// Position within its row of the byte shown at column `x`.
pub open spec fn byte_index_in_row(x: int) -> int {
    (x - ADDRESS_COLUMN_WIDTH) / (COLUMNS_PER_BYTE as int)
}

/// Offset of the byte shown at cell `(x, y)` when the viewport starts at `view`.
pub open spec fn cell_offset(x: int, y: int, view: int) -> int {
    view + y * ROW_WIDTH + byte_index_in_row(x)
}

/// The byte offset that cell `(x, y)` stands for in a buffer of `len` bytes
/// seen from `view`, if the cell shows a byte that exists.
pub open spec fn resolve_cell(x: int, y: int, view: int, len: int) -> Option<int> {
    if in_hex_region(x) && cell_offset(x, y, view) < len {
        Some(cell_offset(x, y, view))
    } else {
        None
    }
}

/// The cell of the first digit of the byte at position `i` of display row `row`.
pub open spec fn cell_of_byte(i: int, row: int) -> (int, int) {
    (ADDRESS_COLUMN_WIDTH + i * COLUMNS_PER_BYTE, row)
}

/// The cell of the first digit of the byte at `offset` when the viewport
/// starts at `view`.
pub open spec fn cell_of_offset(offset: int, view: int) -> (int, int) {
    cell_of_byte((offset - view) % (ROW_WIDTH as int), (offset - view) / (ROW_WIDTH as int))
}

/// An optional offset as a mathematical integer.
pub open spec fn widen(r: Option<usize>) -> Option<int> {
    match r {
        Some(o) => Some(o as int),
        None => None,
    }
}

/// The byte offset under cell `(cell_x, cell_y)` of a viewport starting at
/// `view_offset` over a buffer of `buffer_len` bytes; `None` for cells that
/// show no byte and for bytes past the end of the buffer.
pub fn offset_for_cell(cell_x: usize, cell_y: usize, view_offset: usize, buffer_len: usize) -> (r:
    Option<usize>)
    ensures
        widen(r) == resolve_cell(cell_x as int, cell_y as int, view_offset as int, buffer_len as int),
{
    if cell_x < ADDRESS_COLUMN_WIDTH || cell_x >= HEX_BLOCK_END || (cell_x - ADDRESS_COLUMN_WIDTH)
        % COLUMNS_PER_BYTE == COLUMNS_PER_BYTE - 1 {
        return None;
    }
    let index: usize = (cell_x - ADDRESS_COLUMN_WIDTH) / COLUMNS_PER_BYTE;
    if view_offset >= buffer_len {
        return None;
    }
    let room: usize = buffer_len - view_offset;
    if cell_y > (room - 1) / ROW_WIDTH {
        assert(cell_y * 16 >= room) by (nonlinear_arith)
            requires
                cell_y > (room - 1) / 16,
                room >= 1,
        ;
        return None;
    }
    assert(cell_y * 16 <= room - 1) by (nonlinear_arith)
        requires
            cell_y <= (room - 1) / 16,
            room >= 1,
    ;
    let row_start: usize = cell_y * ROW_WIDTH;
    if index < room - row_start {
        Some(view_offset + row_start + index)
    } else {
        None
    }
}

/// The cell of the first digit of the byte at position `index` of display
/// row `display_row`: rendering compares it with the cursor to find the
/// highlighted byte.
pub fn cell_for_byte_within_row(index: usize, display_row: usize) -> (r: (usize, usize))
    requires
        index < ROW_WIDTH,
    ensures
        (r.0 as int, r.1 as int) == cell_of_byte(index as int, display_row as int),
{
    (ADDRESS_COLUMN_WIDTH + index * COLUMNS_PER_BYTE, display_row)
}

/// The column of the first digit of the byte at position `i` of a row.
pub open spec fn first_digit_column(i: int) -> int {
    ADDRESS_COLUMN_WIDTH + i * COLUMNS_PER_BYTE
}

/// Column `x` shows the first digit of some byte of a row.
pub open spec fn is_first_digit_column(x: int) -> bool {
    &&& ADDRESS_COLUMN_WIDTH <= x <= first_digit_column(ROW_WIDTH - 1)
    &&& (x - ADDRESS_COLUMN_WIDTH) % (COLUMNS_PER_BYTE as int) == 0
}

/// Position within the row of the byte that column `x` belongs to: the
/// address gutter counts as the first byte, the ASCII column as the last.
pub open spec fn column_byte(x: int) -> int {
    if x < ADDRESS_COLUMN_WIDTH {
        0
    } else if byte_index_in_row(x) >= ROW_WIDTH {
        ROW_WIDTH - 1
    } else {
        byte_index_in_row(x)
    }
}

/// The first digit of the byte after the one at column `x`; from the address
/// gutter, the first byte of the row; at the last byte, that byte again.
pub open spec fn column_right_of(x: int) -> int {
    if x < ADDRESS_COLUMN_WIDTH {
        first_digit_column(0)
    } else if column_byte(x) + 1 < ROW_WIDTH {
        first_digit_column(column_byte(x) + 1)
    } else {
        first_digit_column(ROW_WIDTH - 1)
    }
}

/// The first digit of the byte before the one at column `x`; at the first
/// byte, or from the address gutter, the first byte of the row.
pub open spec fn column_left_of(x: int) -> int {
    if column_byte(x) > 0 {
        first_digit_column(column_byte(x) - 1)
    } else {
        first_digit_column(0)
    }
}

proof fn lemma_first_digit_column(i: int)
    requires
        0 <= i < ROW_WIDTH,
    ensures
        is_first_digit_column(first_digit_column(i)),
{
    lemma_fundamental_div_mod_converse(i * COLUMNS_PER_BYTE, COLUMNS_PER_BYTE as int, i, 0);
}

fn column_byte_of(x: usize) -> (r: usize)
    ensures
        r == column_byte(x as int),
        r < ROW_WIDTH,
{
    if x < ADDRESS_COLUMN_WIDTH {
        0
    } else if (x - ADDRESS_COLUMN_WIDTH) / COLUMNS_PER_BYTE >= ROW_WIDTH {
        ROW_WIDTH - 1
    } else {
        (x - ADDRESS_COLUMN_WIDTH) / COLUMNS_PER_BYTE
    }
}

/// The column one byte to the right of column `x`, always on a first digit.
pub fn next_byte_column(x: usize) -> (r: usize)
    ensures
        r == column_right_of(x as int),
        is_first_digit_column(r as int),
{
    let i: usize = if x < ADDRESS_COLUMN_WIDTH {
        0
    } else {
        let b = column_byte_of(x);
        if b + 1 < ROW_WIDTH {
            b + 1
        } else {
            ROW_WIDTH - 1
        }
    };
    proof {
        lemma_first_digit_column(i as int);
    }
    ADDRESS_COLUMN_WIDTH + i * COLUMNS_PER_BYTE
}

/// The column one byte to the left of column `x`, always on a first digit.
pub fn previous_byte_column(x: usize) -> (r: usize)
    ensures
        r == column_left_of(x as int),
        is_first_digit_column(r as int),
{
    let b = column_byte_of(x);
    let i: usize = if b > 0 {
        b - 1
    } else {
        0
    };
    proof {
        lemma_first_digit_column(i as int);
    }
    ADDRESS_COLUMN_WIDTH + i * COLUMNS_PER_BYTE
}

/// Going from a cell that shows the first digit of a byte to that byte's
/// offset, and back from the offset to a cell, gives the cell we started from.
pub proof fn lemma_cell_offset_round_trip(x: int, y: int, view: int, len: int)
    requires
        0 <= y,
        0 <= view,
        (x - ADDRESS_COLUMN_WIDTH) % (COLUMNS_PER_BYTE as int) == 0,
        resolve_cell(x, y, view, len) is Some,
    ensures
        cell_of_offset(resolve_cell(x, y, view, len)->0, view) == (x, y),
{
    let i = byte_index_in_row(x);
    lemma_fundamental_div_mod_converse(x - ADDRESS_COLUMN_WIDTH, COLUMNS_PER_BYTE as int, i, 0);
    assert(0 <= i < ROW_WIDTH);
    lemma_fundamental_div_mod_converse(y * ROW_WIDTH + i, ROW_WIDTH as int, y, i);
}

/// Over an empty buffer no cell stands for a byte.
pub proof fn lemma_empty_buffer_resolves_nothing(x: int, y: int, view: int)
    requires
        0 <= y,
        0 <= view,
    ensures
        resolve_cell(x, y, view, 0) is None,
{
    if in_hex_region(x) {
        assert(byte_index_in_row(x) >= 0);
        assert(y * ROW_WIDTH >= 0) by (nonlinear_arith)
            requires
                y >= 0,
        ;
    }
}

} // verus!
