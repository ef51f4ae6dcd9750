//! Editor state: the byte buffer, its modified flag and save target, the
//! viewport into it and the cursor cell.

use vstd::prelude::*;
use crate::geometry::{MAX_CELL_X, MAX_CELL_Y, ROW_WIDTH};
use crate::grid::{
    column_left_of, column_right_of, is_first_digit_column, next_byte_column, offset_for_cell,
    previous_byte_column, resolve_cell, widen,
};
use crate::viewport::{
    clamp_axis, clamp_moved, max_view_offset, max_view_start, scrolled_backward, scrolled_forward,
};

verus! {

/// What an editor holds, seen as mathematical values.
pub struct EditorState {
    pub path: Option<Seq<char>>,
    pub data: Seq<u8>,
    pub modified: bool,
    pub view_offset: int,
    pub cursor: (int, int),
}

/// A navigation command from the keyboard.
#[derive(Clone, Copy, Debug, PartialEq, Eq, Structural)]
pub enum Navigation {
    Up,
    Down,
    Left,
    Right,
    PageUp,
    PageDown,
}

/// An open buffer with its viewport and cursor. The cursor is a cell of the
/// display grid, not a byte: the byte under it is derived from the cell and
/// the viewport each time it is asked for.
pub struct HexEditor {
    rom_path: Option<String>,
    data: Vec<u8>,
    modified: bool,
    view_offset: usize,
    cursor_pos: (usize, usize),
}

/// The save target as text.
pub open spec fn path_view(p: Option<String>) -> Option<Seq<char>> {
    match p {
        Some(s) => Some(s@),
        None => None,
    }
}

impl View for HexEditor {
    type V = EditorState;

    closed spec fn view(&self) -> EditorState {
        EditorState {
            path: path_view(self.rom_path),
            data: self.data@,
            modified: self.modified,
            view_offset: self.view_offset as int,
            cursor: (self.cursor_pos.0 as int, self.cursor_pos.1 as int),
        }
    }
}

impl HexEditor {
    /// The viewport lies within its bounds and the cursor within the grid.
    pub open spec fn wf(&self) -> bool {
        &&& 0 <= self@.view_offset <= max_view_offset(self@.data.len() as int)
        &&& 0 <= self@.cursor.0 <= MAX_CELL_X
        &&& 0 <= self@.cursor.1 <= MAX_CELL_Y
    }

    /// An editor with no file, an empty buffer, and viewport and cursor at
    /// the start.
    pub fn new() -> (r: Self)
        ensures
            r.wf(),
            r@ == (EditorState {
                path: None,
                data: Seq::empty(),
                modified: false,
                view_offset: 0,
                cursor: (0, 0),
            }),
    {
        HexEditor {
            rom_path: None,
            data: Vec::new(),
            modified: false,
            view_offset: 0,
            cursor_pos: (0, 0),
        }
    }

    /// Replaces the buffer with the contents read from `path`: the viewport
    /// goes back to the start and nothing is modified; the cursor cell stays.
    pub fn load(&mut self, data: Vec<u8>, path: String)
        requires
            old(self).wf(),
        ensures
            final(self).wf(),
            final(self)@ == (EditorState {
                path: Some(path@),
                data: data@,
                modified: false,
                view_offset: 0,
                cursor: old(self)@.cursor,
            }),
    {
        self.data = data;
        self.rom_path = Some(path);
        self.view_offset = 0;
        self.modified = false;
    }

    /// Sets where the buffer will be saved.
    pub fn set_path(&mut self, path: String)
        requires
            old(self).wf(),
        ensures
            final(self).wf(),
            final(self)@ == (EditorState { path: Some(path@), ..old(self)@ }),
    {
        self.rom_path = Some(path);
    }

    /// Records that the buffer was written to its save target.
    pub fn mark_saved(&mut self)
        requires
            old(self).wf(),
        ensures
            final(self).wf(),
            final(self)@ == (EditorState { modified: false, ..old(self)@ }),
    {
        self.modified = false;
    }

    pub fn path(&self) -> (r: &Option<String>)
        ensures
            path_view(*r) == self@.path,
    {
        &self.rom_path
    }

    pub fn data(&self) -> (r: &Vec<u8>)
        ensures
            r@ == self@.data,
    {
        &self.data
    }

    pub fn is_modified(&self) -> (r: bool)
        ensures
            r == self@.modified,
    {
        self.modified
    }

    pub fn view_offset(&self) -> (r: usize)
        ensures
            r == self@.view_offset,
    {
        self.view_offset
    }

    pub fn cursor_pos(&self) -> (r: (usize, usize))
        ensures
            (r.0 as int, r.1 as int) == self@.cursor,
    {
        self.cursor_pos
    }

    /// Sets the byte at `offset` to `value` and marks the buffer modified; an
    /// offset past the end of the buffer changes nothing.
    pub fn edit_byte(&mut self, offset: usize, value: u8)
        requires
            old(self).wf(),
        ensures
            final(self).wf(),
            offset < old(self)@.data.len() ==> final(self)@ == (EditorState {
                data: old(self)@.data.update(offset as int, value),
                modified: true,
                ..old(self)@
            }),
            offset >= old(self)@.data.len() ==> final(self)@ == old(self)@,
    {
        if offset < self.data.len() {
            self.data.set(offset, value);
            self.modified = true;
        }
    }

    /// The offset of the byte under the cursor, if the cursor shows one.
    pub fn get_cursor_offset(&self) -> (r: Option<usize>)
        requires
            self.wf(),
        ensures
            widen(r) == resolve_cell(
                self@.cursor.0,
                self@.cursor.1,
                self@.view_offset,
                self@.data.len() as int,
            ),
    {
        let (x, y) = self.cursor_pos;
        offset_for_cell(x, y, self.view_offset, self.data.len())
    }

    /// Moves the cursor by `dx` cells across and `dy` rows down, holding each
    /// axis within the grid: moves past an edge stop at the edge.
    pub fn move_cursor(&mut self, dx: isize, dy: isize)
        requires
            old(self).wf(),
        ensures
            final(self).wf(),
            final(self)@ == (EditorState {
                cursor: (
                    clamp_moved(old(self)@.cursor.0, dx as int, MAX_CELL_X as int),
                    clamp_moved(old(self)@.cursor.1, dy as int, MAX_CELL_Y as int),
                ),
                ..old(self)@
            }),
            0 <= final(self)@.cursor.0 <= MAX_CELL_X,
            0 <= final(self)@.cursor.1 <= MAX_CELL_Y,
    {
        let x = clamp_axis(self.cursor_pos.0, dx, MAX_CELL_X);
        let y = clamp_axis(self.cursor_pos.1, dy, MAX_CELL_Y);
        self.cursor_pos = (x, y);
    }

    /// Moves the viewport one row back for a negative `delta` and one row
    /// forward for a positive one, within its bounds; the cursor cell stays.
    pub fn scroll(&mut self, delta: isize)
        requires
            old(self).wf(),
        ensures
            final(self).wf(),
            final(self)@ == (EditorState {
                view_offset: if delta < 0 {
                    scrolled_backward(old(self)@.view_offset)
                } else if delta > 0 {
                    scrolled_forward(old(self)@.view_offset, old(self)@.data.len() as int)
                } else {
                    old(self)@.view_offset
                },
                ..old(self)@
            }),
    {
        if delta < 0 {
            self.view_offset = self.view_offset.saturating_sub(ROW_WIDTH);
        } else if delta > 0 {
            let max_offset = max_view_start(self.data.len());
            let next = self.view_offset + ROW_WIDTH;
            self.view_offset = if next < max_offset {
                next
            } else {
                max_offset
            };
        }
    }

    /// Applies a navigation command: left and right move the cursor to the
    /// first digit of the previous or next byte of its row, up and down move
    /// it one row, the page keys scroll the viewport.
    pub fn navigate(&mut self, command: Navigation)
        requires
            old(self).wf(),
        ensures
            final(self).wf(),
            final(self)@ == match command {
                Navigation::Up => EditorState {
                    cursor: (old(self)@.cursor.0, clamp_moved(old(self)@.cursor.1, -1, MAX_CELL_Y as int)),
                    ..old(self)@
                },
                Navigation::Down => EditorState {
                    cursor: (old(self)@.cursor.0, clamp_moved(old(self)@.cursor.1, 1, MAX_CELL_Y as int)),
                    ..old(self)@
                },
                Navigation::Left => EditorState {
                    cursor: (column_left_of(old(self)@.cursor.0), old(self)@.cursor.1),
                    ..old(self)@
                },
                Navigation::Right => EditorState {
                    cursor: (column_right_of(old(self)@.cursor.0), old(self)@.cursor.1),
                    ..old(self)@
                },
                Navigation::PageUp => EditorState {
                    view_offset: scrolled_backward(old(self)@.view_offset),
                    ..old(self)@
                },
                Navigation::PageDown => EditorState {
                    view_offset: scrolled_forward(old(self)@.view_offset, old(self)@.data.len() as int),
                    ..old(self)@
                },
            },
            command == Navigation::Left || command == Navigation::Right ==> is_first_digit_column(
                final(self)@.cursor.0,
            ),
            is_first_digit_column(old(self)@.cursor.0) ==> is_first_digit_column(
                final(self)@.cursor.0,
            ),
    {
        match command {
            Navigation::Up => self.move_cursor(0, -1),
            Navigation::Down => self.move_cursor(0, 1),
            Navigation::Left => {
                self.cursor_pos = (previous_byte_column(self.cursor_pos.0), self.cursor_pos.1);
            },
            Navigation::Right => {
                self.cursor_pos = (next_byte_column(self.cursor_pos.0), self.cursor_pos.1);
            },
            Navigation::PageUp => self.scroll(-1),
            Navigation::PageDown => self.scroll(1),
        }
    }
}

} // verus!
