//! Layout of the display grid, kept in one place so that the cell-to-offset
//! mapping and its inverse read the same numbers.

use vstd::prelude::*;

verus! {

/// Bytes shown on one display row.
pub const ROW_WIDTH: usize = 16;

/// Character cells taken by one byte: two hex digits and a separator.
pub const COLUMNS_PER_BYTE: usize = 3;

/// Character cells taken by the address gutter at the start of each row.
pub const ADDRESS_COLUMN_WIDTH: usize = 10;

/// Total text rows of the display.
pub const DISPLAY_ROWS: usize = 40;

/// Rows of the display taken by the title, status and table headers.
pub const HEADER_ROWS: usize = 10;

/// Rows of the display that show buffer contents.
pub const VISIBLE_ROWS: usize = DISPLAY_ROWS - HEADER_ROWS;

/// First cell after the hex block, where the ASCII column starts.
pub const HEX_BLOCK_END: usize = ADDRESS_COLUMN_WIDTH + ROW_WIDTH * COLUMNS_PER_BYTE;

/// Largest horizontal cursor cell.
pub const MAX_CELL_X: usize = HEX_BLOCK_END - 1;

/// Largest vertical cursor cell.
pub const MAX_CELL_Y: usize = VISIBLE_ROWS - 1;

/// Bytes shown by a full viewport.
pub const VIEWPORT_BYTES: usize = VISIBLE_ROWS * ROW_WIDTH;

} // verus!
