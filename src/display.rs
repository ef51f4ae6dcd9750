//! What a render of the editor shows: the rows of the viewport, each with
//! its address, its bytes and the byte under the cursor.

use vstd::prelude::*;
use crate::editor::{EditorState, HexEditor};
use crate::geometry::{ROW_WIDTH, VIEWPORT_BYTES};
use crate::grid::{cell_for_byte_within_row, cell_of_byte};

verus! {

/// One display row of the viewport.
pub struct RowView {
    /// Offset of the first byte of the row.
    pub address: usize,
    /// The bytes of the row: a full row, or fewer at the end of the buffer.
    pub bytes: Vec<u8>,
    /// Position within the row of the byte whose first digit is under the
    /// cursor, if there is one.
    pub cursor_index: Option<usize>,
}

/// End of the part of a buffer of `len` bytes that a viewport starting at
/// `view` shows.
pub open spec fn viewport_end(view: int, len: int) -> int {
    if view + VIEWPORT_BYTES < len {
        view + VIEWPORT_BYTES
    } else {
        len
    }
}

/// `index` is the position of the byte of display row `row` whose first
/// digit is under `cursor`, among a row of `count` bytes.
pub open spec fn highlights(index: Option<usize>, cursor: (int, int), row: int, count: int) -> bool {
    match index {
        Some(i) => i < count && cell_of_byte(i as int, row) == cursor,
        None => forall|i: int| 0 <= i < count ==> #[trigger] cell_of_byte(i, row) != cursor,
    }
}

/// `r` is display row `k` of the editor state `s`.
pub open spec fn is_display_row(r: RowView, k: int, s: EditorState) -> bool {
    let start = s.view_offset + k * ROW_WIDTH;
    let stop = if start + ROW_WIDTH < s.data.len() {
        start + ROW_WIDTH
    } else {
        s.data.len() as int
    };
    &&& r.address == start
    &&& r.bytes@ == s.data.subrange(start, stop)
    &&& highlights(r.cursor_index, s.cursor, k, r.bytes@.len() as int)
}

/// The character the ASCII column shows for a byte: printable ASCII as
/// itself, anything else as a dot.
pub open spec fn ascii_of(b: u8) -> char {
    if 32 <= b <= 126 {
        b as char
    } else {
        '.'
    }
}

pub fn ascii_char(b: u8) -> (r: char)
    ensures
        r == ascii_of(b),
{
    if 32 <= b && b <= 126 {
        b as char
    } else {
        '.'
    }
}

impl HexEditor {
    /// The rows that the viewport shows, from its start up to the end of the
    /// viewport or of the buffer, whichever comes first.
    pub fn visible_rows(&self) -> (r: Vec<RowView>)
        requires
            self.wf(),
        ensures
            forall|k: int| 0 <= k < r.len() ==> is_display_row(#[trigger] r[k], k, self@),
            r.len() > 0 ==> self@.view_offset + (r.len() - 1) * ROW_WIDTH < viewport_end(
                self@.view_offset,
                self@.data.len() as int,
            ),
            self@.view_offset + r.len() * ROW_WIDTH >= viewport_end(
                self@.view_offset,
                self@.data.len() as int,
            ),
    {
        let data = self.data();
        let len = data.len();
        let view = self.view_offset();
        let cursor = self.cursor_pos();
        let end: usize = if view + VIEWPORT_BYTES < len {
            view + VIEWPORT_BYTES
        } else {
            len
        };
        let mut rows: Vec<RowView> = Vec::new();
        let mut row_offset: usize = view;
        let mut display_row: usize = 0;
        while row_offset < end
            invariant
                self.wf(),
                data@ == self@.data,
                len == data@.len(),
                view == self@.view_offset,
                (cursor.0 as int, cursor.1 as int) == self@.cursor,
                end == viewport_end(view as int, len as int),
                end <= view + VIEWPORT_BYTES,
                row_offset == view + display_row * ROW_WIDTH,
                rows.len() == display_row,
                display_row > 0 ==> view + (display_row - 1) * ROW_WIDTH < end,
                forall|k: int| 0 <= k < rows.len() ==> is_display_row(#[trigger] rows[k], k, self@),
            decreases end + ROW_WIDTH - row_offset,
        {
            let row_end: usize = if row_offset + ROW_WIDTH < len {
                row_offset + ROW_WIDTH
            } else {
                len
            };
            let mut bytes: Vec<u8> = Vec::new();
            let mut cursor_index: Option<usize> = None;
            let mut i: usize = row_offset;
            while i < row_end
                invariant
                    row_offset <= i <= row_end,
                    row_end <= len,
                    row_end <= row_offset + ROW_WIDTH,
                    len == data@.len(),
                    bytes@ == data@.subrange(row_offset as int, i as int),
                    highlights(
                        cursor_index,
                        (cursor.0 as int, cursor.1 as int),
                        display_row as int,
                        i - row_offset,
                    ),
                decreases row_end - i,
            {
                bytes.push(data[i]);
                let cell = cell_for_byte_within_row(i - row_offset, display_row);
                if cell.0 == cursor.0 && cell.1 == cursor.1 {
                    cursor_index = Some(i - row_offset);
                }
                proof {
                    assert(data@.subrange(row_offset as int, i + 1) =~= data@.subrange(
                        row_offset as int,
                        i as int,
                    ).push(data@[i as int]));
                }
                i = i + 1;
            }
            let row = RowView { address: row_offset, bytes, cursor_index };
            rows.push(row);
            row_offset = row_offset + ROW_WIDTH;
            display_row = display_row + 1;
        }
        rows
    }
}

} // verus!
